//! Handles and property addresses of the audio object plane.
//!
//! An object is named by a 32-bit handle; a property is named by a selector,
//! a scope and an element, each a packed four-character code or a small
//! integer.  These are lookup keys, not behaviour: every constant equals the
//! code of its documented mnemonic, produced by the packing function and
//! never transcribed by hand.

use vstd::prelude::*;

use crate::four_cc::{four_cc, four_cc_chars};

verus! {

/// Handle of one object of the audio plane.
#[derive(Clone, Copy, Debug, PartialEq, Eq, Structural)]
pub struct Obj(pub u32);

/// Class identifier of an object.
#[derive(Clone, Copy, Debug, PartialEq, Eq, Structural)]
pub struct Class(pub u32);

/// What attribute of an object a property address names.
#[derive(Clone, Copy, Debug, PartialEq, Eq, Structural)]
pub struct PropSelector(pub u32);

/// Which side of an object a property address names.
#[derive(Clone, Copy, Debug, PartialEq, Eq, Structural)]
pub struct PropScope(pub u32);

/// Which channel of a scope a property address names; zero is the main
/// element.
#[derive(Clone, Copy, Debug, PartialEq, Eq, Structural)]
pub struct PropElement(pub u32);

/// The full address of one property: selector, scope and element.
#[derive(Clone, Copy, Debug, PartialEq, Eq, Structural)]
pub struct PropAddr {
    pub selector: PropSelector,
    pub scope: PropScope,
    pub element: PropElement,
}

impl Obj {
    /// The handle that names no object.
    pub fn unknown() -> (r: Obj)
        ensures
            r.0 == 0,
    {
        Obj(0)
    }

    /// The fixed, well-known handle of the one system object.
    pub fn system_object() -> (r: Obj)
        ensures
            r.0 == 1,
    {
        Obj(1)
    }
}

impl Class {
    /// The root class of every object, `aobj`.
    pub fn object() -> (r: Class)
        ensures
            r == Class(four_cc_chars('a', 'o', 'b', 'j')),
    {
        Class(four_cc('a' as u8, 'o' as u8, 'b' as u8, 'j' as u8))
    }

    /// The class of the one system object, `asys`.
    pub fn system() -> (r: Class)
        ensures
            r == Class(four_cc_chars('a', 's', 'y', 's')),
    {
        Class(four_cc('a' as u8, 's' as u8, 'y' as u8, 's' as u8))
    }

    /// The class of a device, `adev`.
    pub fn device() -> (r: Class)
        ensures
            r == Class(four_cc_chars('a', 'd', 'e', 'v')),
    {
        Class(four_cc('a' as u8, 'd' as u8, 'e' as u8, 'v' as u8))
    }

    /// The class of an aggregate device, `aagg`.
    pub fn aggregate_device() -> (r: Class)
        ensures
            r == Class(four_cc_chars('a', 'a', 'g', 'g')),
    {
        Class(four_cc('a' as u8, 'a' as u8, 'g' as u8, 'g' as u8))
    }

    /// The class of a sub-device of an aggregate device, `asub`.
    pub fn sub_device() -> (r: Class)
        ensures
            r == Class(four_cc_chars('a', 's', 'u', 'b')),
    {
        Class(four_cc('a' as u8, 's' as u8, 'u' as u8, 'b' as u8))
    }

    /// The class of a client process object, `proc`.
    pub fn process() -> (r: Class)
        ensures
            r == Class(four_cc_chars('p', 'r', 'o', 'c')),
    {
        Class(four_cc('p' as u8, 'r' as u8, 'o' as u8, 'c' as u8))
    }

    /// The class of a process tap, `tcls`.
    pub fn tap() -> (r: Class)
        ensures
            r == Class(four_cc_chars('t', 'c', 'l', 's')),
    {
        Class(four_cc('t' as u8, 'c' as u8, 'l' as u8, 's' as u8))
    }
}

impl PropScope {
    /// The scope of characteristics of the object as a whole, `glob`.
    pub fn global() -> (r: PropScope)
        ensures
            r == PropScope(global_scope()),
    {
        PropScope(four_cc('g' as u8, 'l' as u8, 'o' as u8, 'b' as u8))
    }

    /// The scope of the input side, `inpt`.
    pub fn input() -> (r: PropScope)
        ensures
            r == PropScope(input_scope()),
    {
        PropScope(four_cc('i' as u8, 'n' as u8, 'p' as u8, 't' as u8))
    }

    /// The scope of the output side, `outp`.
    pub fn output() -> (r: PropScope)
        ensures
            r == PropScope(output_scope()),
    {
        PropScope(four_cc('o' as u8, 'u' as u8, 't' as u8, 'p' as u8))
    }

    /// The scope of play-through, `ptru`.
    pub fn play_through() -> (r: PropScope)
        ensures
            r == PropScope(four_cc_chars('p', 't', 'r', 'u')),
    {
        PropScope(four_cc('p' as u8, 't' as u8, 'r' as u8, 'u' as u8))
    }

    /// The scope that matches every scope in a listener registration, `****`.
    pub fn wildcard() -> (r: PropScope)
        ensures
            r == PropScope(wildcard_code()),
    {
        PropScope(four_cc('*' as u8, '*' as u8, '*' as u8, '*' as u8))
    }
}

impl PropElement {
    /// The main element of a scope.
    pub fn main() -> (r: PropElement)
        ensures
            r == PropElement(0),
    {
        PropElement(0)
    }

    /// The element that matches every element in a listener registration.
    pub fn wildcard() -> (r: PropElement)
        ensures
            r == PropElement(0xFFFF_FFFF),
    {
        PropElement(0xFFFF_FFFF)
    }
}

/// Code of the global scope, `glob`.
pub open spec fn global_scope() -> u32 {
    four_cc_chars('g', 'l', 'o', 'b')
}

/// Code of the input scope, `inpt`.
pub open spec fn input_scope() -> u32 {
    four_cc_chars('i', 'n', 'p', 't')
}

/// Code of the output scope, `outp`.
pub open spec fn output_scope() -> u32 {
    four_cc_chars('o', 'u', 't', 'p')
}

/// Code of the wildcard selector and scope, `****`.
pub open spec fn wildcard_code() -> u32 {
    four_cc_chars('*', '*', '*', '*')
}

/// The address of `sel` in the global scope, on the main element.
pub open spec fn global_addr_spec(sel: PropSelector) -> PropAddr {
    PropAddr { selector: sel, scope: PropScope(global_scope()), element: PropElement(0) }
}

impl PropSelector {
    /// The address of this selector in the global scope, on the main
    /// element.
    pub fn global_addr(self) -> (r: PropAddr)
        ensures
            r == global_addr_spec(self),
    {
        PropAddr { selector: self, scope: PropScope::global(), element: PropElement::main() }
    }

    /// The address of this selector in the given scope, on the main element.
    pub fn scope_addr(self, scope: PropScope) -> (r: PropAddr)
        ensures
            r == (PropAddr { selector: self, scope, element: PropElement(0) }),
    {
        PropAddr { selector: self, scope, element: PropElement::main() }
    }

    /// The selector that matches every selector in a listener registration,
    /// `****`.
    pub fn wildcard() -> (r: PropSelector)
        ensures
            r == PropSelector(wildcard_code()),
    {
        PropSelector(four_cc('*' as u8, '*' as u8, '*' as u8, '*' as u8))
    }

    /// The human-readable name of an object, `lnam`.
    pub fn name() -> (r: PropSelector)
        ensures
            r == PropSelector(four_cc_chars('l', 'n', 'a', 'm')),
    {
        PropSelector(four_cc('l' as u8, 'n' as u8, 'a' as u8, 'm' as u8))
    }

    /// The class of an object, `clas`.
    pub fn class() -> (r: PropSelector)
        ensures
            r == PropSelector(four_cc_chars('c', 'l', 'a', 's')),
    {
        PropSelector(four_cc('c' as u8, 'l' as u8, 'a' as u8, 's' as u8))
    }

    /// The class an object's class inherits from, `bcls`.
    pub fn base_class() -> (r: PropSelector)
        ensures
            r == PropSelector(four_cc_chars('b', 'c', 'l', 's')),
    {
        PropSelector(four_cc('b' as u8, 'c' as u8, 'l' as u8, 's' as u8))
    }

    /// The process id behind a process object, `ppid`.
    pub fn process_pid() -> (r: PropSelector)
        ensures
            r == PropSelector(four_cc_chars('p', 'p', 'i', 'd')),
    {
        PropSelector(four_cc('p' as u8, 'p' as u8, 'i' as u8, 'd' as u8))
    }

    /// The bundle identifier of a process, `pbid`.
    pub fn process_bundle_id() -> (r: PropSelector)
        ensures
            r == PropSelector(four_cc_chars('p', 'b', 'i', 'd')),
    {
        PropSelector(four_cc('p' as u8, 'b' as u8, 'i' as u8, 'd' as u8))
    }

    /// The devices a process currently uses, `pdv#`.
    pub fn process_devices() -> (r: PropSelector)
        ensures
            r == PropSelector(four_cc_chars('p', 'd', 'v', '#')),
    {
        PropSelector(four_cc('p' as u8, 'd' as u8, 'v' as u8, '#' as u8))
    }

    /// One when audio io runs in the process, `pir?`.
    pub fn process_is_running() -> (r: PropSelector)
        ensures
            r == PropSelector(four_cc_chars('p', 'i', 'r', '?')),
    {
        PropSelector(four_cc('p' as u8, 'i' as u8, 'r' as u8, '?' as u8))
    }

    /// One when the process runs io with an active input stream, `piri`.
    pub fn process_is_running_input() -> (r: PropSelector)
        ensures
            r == PropSelector(four_cc_chars('p', 'i', 'r', 'i')),
    {
        PropSelector(four_cc('p' as u8, 'i' as u8, 'r' as u8, 'i' as u8))
    }

    /// One when the process runs io with an active output stream, `piro`.
    pub fn process_is_running_output() -> (r: PropSelector)
        ensures
            r == PropSelector(four_cc_chars('p', 'i', 'r', 'o')),
    {
        PropSelector(four_cc('p' as u8, 'i' as u8, 'r' as u8, 'o' as u8))
    }

    /// Whether the current process's input is muted by the system, `pmin`.
    pub fn hardware_process_input_mute() -> (r: PropSelector)
        ensures
            r == PropSelector(four_cc_chars('p', 'm', 'i', 'n')),
    {
        PropSelector(four_cc('p' as u8, 'm' as u8, 'i' as u8, 'n' as u8))
    }

    /// All devices of the system, `dev#`.
    pub fn hardware_devices() -> (r: PropSelector)
        ensures
            r == PropSelector(four_cc_chars('d', 'e', 'v', '#')),
    {
        PropSelector(four_cc('d' as u8, 'e' as u8, 'v' as u8, '#' as u8))
    }

    /// The default input device, `dIn `.
    pub fn hardware_default_input_device() -> (r: PropSelector)
        ensures
            r == PropSelector(four_cc_chars('d', 'I', 'n', ' ')),
    {
        PropSelector(four_cc('d' as u8, 'I' as u8, 'n' as u8, ' ' as u8))
    }

    /// The default output device, `dOut`.
    pub fn hardware_default_output_device() -> (r: PropSelector)
        ensures
            r == PropSelector(four_cc_chars('d', 'O', 'u', 't')),
    {
        PropSelector(four_cc('d' as u8, 'O' as u8, 'u' as u8, 't' as u8))
    }

    /// The device used for system sounds, `sOut`.
    pub fn hardware_default_sys_output_device() -> (r: PropSelector)
        ensures
            r == PropSelector(four_cc_chars('s', 'O', 'u', 't')),
    {
        PropSelector(four_cc('s' as u8, 'O' as u8, 'u' as u8, 't' as u8))
    }

    /// Translates a device uid to the device's handle, `uidd`.
    pub fn hardware_translate_uid_to_device() -> (r: PropSelector)
        ensures
            r == PropSelector(four_cc_chars('u', 'i', 'd', 'd')),
    {
        PropSelector(four_cc('u' as u8, 'i' as u8, 'd' as u8, 'd' as u8))
    }

    /// All client process objects of the system, `prs#`.
    pub fn hardware_process_obj_list() -> (r: PropSelector)
        ensures
            r == PropSelector(four_cc_chars('p', 'r', 's', '#')),
    {
        PropSelector(four_cc('p' as u8, 'r' as u8, 's' as u8, '#' as u8))
    }

    /// Translates a process id to the process object's handle, `id2p`.
    pub fn hardware_translate_pid_to_process_obj() -> (r: PropSelector)
        ensures
            r == PropSelector(four_cc_chars('i', 'd', '2', 'p')),
    {
        PropSelector(four_cc('i' as u8, 'd' as u8, '2' as u8, 'p' as u8))
    }

    /// The uids of every sub-device of an aggregate device, `grup`.
    pub fn aggregate_device_full_sub_device_list() -> (r: PropSelector)
        ensures
            r == PropSelector(four_cc_chars('g', 'r', 'u', 'p')),
    {
        PropSelector(four_cc('g' as u8, 'r' as u8, 'u' as u8, 'p' as u8))
    }

    /// The handles of the active sub-devices of an aggregate device, `agrp`.
    pub fn aggregate_device_active_sub_device_list() -> (r: PropSelector)
        ensures
            r == PropSelector(four_cc_chars('a', 'g', 'r', 'p')),
    {
        PropSelector(four_cc('a' as u8, 'g' as u8, 'r' as u8, 'p' as u8))
    }

    /// The composition an aggregate device was created with, `acom`.
    pub fn aggregate_device_composition() -> (r: PropSelector)
        ensures
            r == PropSelector(four_cc_chars('a', 'c', 'o', 'm')),
    {
        PropSelector(four_cc('a' as u8, 'c' as u8, 'o' as u8, 'm' as u8))
    }

    /// The uid of the sub-device serving as time base, `amst`.
    pub fn aggregate_device_main_sub_device() -> (r: PropSelector)
        ensures
            r == PropSelector(four_cc_chars('a', 'm', 's', 't')),
    {
        PropSelector(four_cc('a' as u8, 'm' as u8, 's' as u8, 't' as u8))
    }

    /// The uid of the clock device serving as time base, `apcd`.
    ///
    /// This code collides with [`PropSelector::device_clock_device`]: the two
    /// selectors belong to different object classes but share one value.
    /// [`lemma_clock_device_selector_collision`] states the collision so it
    /// cannot be deduplicated silently.
    ///
    /// [`lemma_clock_device_selector_collision`]:
    /// crate::core_audio::laws::lemma_clock_device_selector_collision
    pub fn aggregate_device_clock_device() -> (r: PropSelector)
        ensures
            r == PropSelector(four_cc_chars('a', 'p', 'c', 'd')),
    {
        PropSelector(four_cc('a' as u8, 'p' as u8, 'c' as u8, 'd' as u8))
    }

    /// The uuids of the taps of an aggregate device, `tap#`.
    pub fn aggregate_device_tap_list() -> (r: PropSelector)
        ensures
            r == PropSelector(four_cc_chars('t', 'a', 'p', '#')),
    {
        PropSelector(four_cc('t' as u8, 'a' as u8, 'p' as u8, '#' as u8))
    }

    /// The handles of the active sub-taps of an aggregate device, `atap`.
    pub fn aggregate_device_sub_tap_list() -> (r: PropSelector)
        ensures
            r == PropSelector(four_cc_chars('a', 't', 'a', 'p')),
    {
        PropSelector(four_cc('a' as u8, 't' as u8, 'a' as u8, 'p' as u8))
    }

    /// The persistent uid of a device, `uid `.
    pub fn device_uid() -> (r: PropSelector)
        ensures
            r == PropSelector(four_cc_chars('u', 'i', 'd', ' ')),
    {
        PropSelector(four_cc('u' as u8, 'i' as u8, 'd' as u8, ' ' as u8))
    }

    /// The stream configuration of one side of a device, `slay`.
    pub fn device_stream_cfg() -> (r: PropSelector)
        ensures
            r == PropSelector(four_cc_chars('s', 'l', 'a', 'y')),
    {
        PropSelector(four_cc('s' as u8, 'l' as u8, 'a' as u8, 'y' as u8))
    }

    /// The number of frames in the io buffers of a device, `fsiz`.
    pub fn device_buf_frame_size() -> (r: PropSelector)
        ensures
            r == PropSelector(four_cc_chars('f', 's', 'i', 'z')),
    {
        PropSelector(four_cc('f' as u8, 's' as u8, 'i' as u8, 'z' as u8))
    }

    /// One when the device runs in at least one process, `gone`.
    pub fn device_is_running_somewhere() -> (r: PropSelector)
        ensures
            r == PropSelector(four_cc_chars('g', 'o', 'n', 'e')),
    {
        PropSelector(four_cc('g' as u8, 'o' as u8, 'n' as u8, 'e' as u8))
    }

    /// One when mute is enabled on an element, `mute`.
    pub fn device_mute() -> (r: PropSelector)
        ensures
            r == PropSelector(four_cc_chars('m', 'u', 't', 'e')),
    {
        PropSelector(four_cc('m' as u8, 'u' as u8, 't' as u8, 'e' as u8))
    }

    /// The uid of the clock device of a device, `apcd`.
    ///
    /// Shares its value with
    /// [`PropSelector::aggregate_device_clock_device`]; see there.
    pub fn device_clock_device() -> (r: PropSelector)
        ensures
            r == PropSelector(four_cc_chars('a', 'p', 'c', 'd')),
    {
        PropSelector(four_cc('a' as u8, 'p' as u8, 'c' as u8, 'd' as u8))
    }

    /// The persistent uid of a tap, `tuid`.
    pub fn tap_uid() -> (r: PropSelector)
        ensures
            r == PropSelector(four_cc_chars('t', 'u', 'i', 'd')),
    {
        PropSelector(four_cc('t' as u8, 'u' as u8, 'i' as u8, 'd' as u8))
    }

    /// The description a tap was created with, `tdsc`.
    pub fn tap_description() -> (r: PropSelector)
        ensures
            r == PropSelector(four_cc_chars('t', 'd', 's', 'c')),
    {
        PropSelector(four_cc('t' as u8, 'd' as u8, 's' as u8, 'c' as u8))
    }

    /// The stream format of the data a tap delivers, `tfmt`.
    pub fn tap_format() -> (r: PropSelector)
        ensures
            r == PropSelector(four_cc_chars('t', 'f', 'm', 't')),
    {
        PropSelector(four_cc('t' as u8, 'f' as u8, 'm' as u8, 't' as u8))
    }
}

} // verus!
