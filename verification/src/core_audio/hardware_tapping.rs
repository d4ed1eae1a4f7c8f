//! Process taps: what a tap is created from, what it reports, and its
//! exactly-once teardown.

use vstd::prelude::*;

use crate::cat::AudioBasicStreamDesc;
use crate::core_audio::hardware::{
    find_obj_index, spec_prop, spec_str_prop, Hardware, ObjEntry, PropEntry, PropValue,
};
use crate::core_audio::types::{global_addr_spec, Class, Obj, PropSelector};
use crate::four_cc::four_cc_chars;
use crate::ns::{Array, Number};
use crate::os::{bad_object_status, bad_property_size_status, Error, Status};

verus! {

/// What a process tap is created from: which processes it taps or leaves
/// out, how it mixes what it hears, and the uid the tap will carry.
#[derive(Clone, Debug, PartialEq)]
pub struct TapDesc {
    /// The uid the created tap reports.
    pub uid: std::string::String,
    /// Handles of the process objects the tap names.
    pub processes: Vec<u32>,
    /// True when the named processes are left out and every other process
    /// is tapped; false when exactly the named processes are tapped.
    pub exclude_listed: bool,
    /// True when the tapped audio is mixed down to one channel; false for
    /// a stereo mixdown.
    pub mono: bool,
    /// True when the tap is visible only to the process that created it.
    pub private_tap: bool,
}

/// Whether two tap descriptions say the same thing, field by field at the
/// level of what the fields hold.
pub open spec fn tap_desc_like(a: TapDesc, b: TapDesc) -> bool {
    &&& a.uid@ == b.uid@
    &&& a.processes@ == b.processes@
    &&& a.exclude_listed == b.exclude_listed
    &&& a.mono == b.mono
    &&& a.private_tap == b.private_tap
}

impl TapDesc {
    /// A copy saying exactly what this description says.
    pub fn duplicate(&self) -> (r: TapDesc)
        ensures
            tap_desc_like(*self, r),
    {
        TapDesc {
            uid: self.uid.clone(),
            processes: crate::core_audio::hardware::copy_u32_vec(&self.processes),
            exclude_listed: self.exclude_listed,
            mono: self.mono,
            private_tap: self.private_tap,
        }
    }
}

/// The stream format a tap delivers: packed 32-bit float samples at the
/// nominal rate, one channel for a mono mixdown and two for stereo.
pub open spec fn tap_asbd_spec(mono: bool) -> AudioBasicStreamDesc {
    let channels: u32 = if mono {
        1
    } else {
        2
    };
    AudioBasicStreamDesc {
        sample_rate: 48000,
        format: four_cc_chars('l', 'p', 'c', 'm'),
        format_flags: 9,
        bytes_per_packet: (4 * channels) as u32,
        frames_per_packet: 1,
        bytes_per_frame: (4 * channels) as u32,
        channels_per_frame: channels,
        bits_per_channel: 32,
        reserved: 0,
    }
}

/// The property table a tap is created with: its uid, its description and
/// its stream format.
pub open spec fn tap_props_spec(desc: TapDesc) -> Seq<PropEntry> {
    seq![
        PropEntry {
            addr: global_addr_spec(PropSelector(four_cc_chars('t', 'u', 'i', 'd'))),
            value: PropValue::Str(desc.uid),
            settable: false,
        },
        PropEntry {
            addr: global_addr_spec(PropSelector(four_cc_chars('t', 'd', 's', 'c'))),
            value: PropValue::TapDescription(desc),
            settable: false,
        },
        PropEntry {
            addr: global_addr_spec(PropSelector(four_cc_chars('t', 'f', 'm', 't'))),
            value: PropValue::Asbd(tap_asbd_spec(desc.mono)),
            settable: false,
        },
    ]
}

impl TapDesc {
    /// A description of a stereo tap on every process except the listed
    /// ones; listing none taps everything.  The numbers are the handles of
    /// the excluded process objects.  The uid starts empty; the creator
    /// may fill it before creating the tap.
    pub fn with_stereo_global_tap_excluding_processes(processes: &Array<Number>) -> (r: TapDesc)
        ensures
            r.uid@ =~= Seq::<char>::empty(),
            r.processes@.len() == processes@.len(),
            forall|k: int|
                0 <= k < processes@.len() ==> r.processes@[k] == processes@[k].value as u32,
            r.exclude_listed == true,
            r.mono == false,
            r.private_tap == false,
    {
        let items = processes.iter();
        let mut ids: Vec<u32> = Vec::new();
        let mut k: usize = 0;
        while k < items.len()
            invariant
                k <= items@.len(),
                items@ == processes@,
                ids@.len() == k,
                forall|t: int| 0 <= t < k ==> ids@[t] == processes@[t].value as u32,
            decreases items@.len() - k,
        {
            ids.push(items[k].as_i64() as u32);
            k += 1;
        }
        TapDesc {
            uid: std::string::String::new(),
            processes: ids,
            exclude_listed: true,
            mono: false,
            private_tap: false,
        }
    }

    /// Creates a process tap on the plane under a fresh handle, holding
    /// this description.  The tap is an object until it is destroyed.
    pub fn create_process_tap(self, hw: &mut Hardware) -> (r: Result<Tap, Error>)
        requires
            old(hw).wf(),
            old(hw).next_id < 0xFFFF_FFFFu32,
        ensures
            final(hw).wf(),
            r == Ok::<Tap, Error>(Tap(Obj(old(hw).next_id))),
            final(hw).objects@.len() == old(hw).objects@.len() + 1,
            final(hw).objects@.subrange(0, old(hw).objects@.len() as int) == old(hw).objects@,
            final(hw).objects@.last().id == old(hw).next_id,
            final(hw).objects@.last().class == Class(four_cc_chars('t', 'c', 'l', 's')),
            final(hw).objects@.last().base_class == Some(
                Class(four_cc_chars('a', 'o', 'b', 'j')),
            ),
            final(hw).objects@.last().props@ == tap_props_spec(self),
            final(hw).regs@ == old(hw).regs@,
            final(hw).pending@ == old(hw).pending@,
            final(hw).next_id == old(hw).next_id + 1,
            final(hw).default_input == old(hw).default_input,
            final(hw).default_output == old(hw).default_output,
    {
        let id = hw.next_id;
        let channels: u32 = if self.mono {
            1
        } else {
            2
        };
        let asbd = AudioBasicStreamDesc {
            sample_rate: 48000,
            format: crate::four_cc::four_cc('l' as u8, 'p' as u8, 'c' as u8, 'm' as u8),
            format_flags: 9,
            bytes_per_packet: 4 * channels,
            frames_per_packet: 1,
            bytes_per_frame: 4 * channels,
            channels_per_frame: channels,
            bits_per_channel: 32,
            reserved: 0,
        };
        let mut props: Vec<PropEntry> = Vec::new();
        props.push(
            PropEntry {
                addr: PropSelector::tap_uid().global_addr(),
                value: PropValue::Str(self.uid.clone()),
                settable: false,
            },
        );
        props.push(
            PropEntry {
                addr: PropSelector::tap_description().global_addr(),
                value: PropValue::TapDescription(self),
                settable: false,
            },
        );
        props.push(
            PropEntry {
                addr: PropSelector::tap_format().global_addr(),
                value: PropValue::Asbd(asbd),
                settable: false,
            },
        );
        let entry = ObjEntry {
            id,
            class: Class::tap(),
            base_class: Some(Class::object()),
            props,
        };
        let ghost old_objs = hw.objects@;
        hw.objects.push(entry);
        hw.next_id = id + 1;
        proof {
            assert(hw.objects@.subrange(0, old_objs.len() as int) =~= old_objs);
            assert(hw.objects@.last().props@ =~= tap_props_spec(self));
            assert forall|k1: int, k2: int|
                0 <= k1 < k2 < hw.objects@.len() implies hw.objects@[k1].id != hw
                .objects@[k2].id by {
                if k2 == hw.objects@.len() - 1 {
                    assert(old(hw).wf());
                    assert(old_objs[k1].id < old(hw).next_id);
                }
            }
        }
        Ok(Tap(Obj(id)))
    }
}

/// A live process tap.  Destroy consumes it, so its teardown can fire at
/// most once.
#[derive(Debug, PartialEq, Eq, Structural)]
pub struct Tap(pub Obj);

impl Tap {
    /// The persistent uid of the tap.
    pub fn uid(&self, hw: &Hardware) -> (r: Result<std::string::String, Error>)
        ensures
            r == spec_str_prop(
                *hw,
                self.0.0,
                global_addr_spec(PropSelector(four_cc_chars('t', 'u', 'i', 'd'))),
            ),
    {
        self.0.cf_prop(hw, &PropSelector::tap_uid().global_addr())
    }

    /// The description the tap was created with.
    pub fn desc<'a>(&self, hw: &'a Hardware) -> (r: Result<&'a TapDesc, Error>)
        ensures
            match (
                r,
                spec_prop(
                    *hw,
                    self.0.0,
                    global_addr_spec(PropSelector(four_cc_chars('t', 'd', 's', 'c'))),
                ),
            ) {
                (Ok(d), Ok(v)) => v == PropValue::TapDescription(*d),
                (Err(re), Err(e)) => re == e,
                (Err(re), Ok(v)) => !(v is TapDescription) && re == Error(
                    bad_property_size_status(),
                ),
                _ => false,
            },
    {
        let addr = PropSelector::tap_description().global_addr();
        match self.0.prop(hw, &addr) {
            Ok(v) => match v {
                PropValue::TapDescription(d) => Ok(d),
                _ => Err(Error(Status::bad_property_size())),
            },
            Err(e) => Err(e),
        }
    }

    /// The stream format of the data the tap delivers.
    pub fn asbd(&self, hw: &Hardware) -> (r: Result<AudioBasicStreamDesc, Error>)
        ensures
            match (
                r,
                spec_prop(
                    *hw,
                    self.0.0,
                    global_addr_spec(PropSelector(four_cc_chars('t', 'f', 'm', 't'))),
                ),
            ) {
                (Ok(a), Ok(v)) => v == PropValue::Asbd(a),
                (Err(re), Err(e)) => re == e,
                (Err(re), Ok(v)) => !(v is Asbd) && re == Error(bad_property_size_status()),
                _ => false,
            },
    {
        let addr = PropSelector::tap_format().global_addr();
        match self.0.prop(hw, &addr) {
            Ok(v) => match v {
                PropValue::Asbd(a) => Ok(*a),
                _ => Err(Error(Status::bad_property_size())),
            },
            Err(e) => Err(e),
        }
    }

    /// Destroys the tap: its object leaves the plane.  Destroy consumes
    /// the handle, so the teardown can fire at most once per creation.
    pub fn destroy(self, hw: &mut Hardware) -> (r: Result<(), Error>)
        ensures
            old(hw).spec_has_obj(self.0.0) ==> r == Ok::<(), Error>(()) && final(hw).objects@
                == old(hw).objects@.remove(
                crate::core_audio::hardware::obj_index_of(old(hw).objects@, self.0.0),
            ),
            !old(hw).spec_has_obj(self.0.0) ==> r == Err::<(), Error>(Error(bad_object_status()))
                && final(hw).objects@ == old(hw).objects@,
            old(hw).wf() ==> final(hw).wf(),
            final(hw).regs@ == old(hw).regs@,
            final(hw).pending@ == old(hw).pending@,
            final(hw).next_id == old(hw).next_id,
            final(hw).default_input == old(hw).default_input,
            final(hw).default_output == old(hw).default_output,
    {
        let oi = match find_obj_index(&hw.objects, self.0.0) {
            Some(i) => i,
            None => {
                return Err(Error(Status::bad_object()));
            },
        };
        let ghost old_objs = hw.objects@;
        hw.objects.remove(oi);
        proof {
            if old(hw).wf() {
                assert forall|k: int|
                    0 <= k < hw.objects@.len() implies 1 <= #[trigger] hw.objects@[k].id < hw
                    .next_id by {
                    if k < oi {
                        assert(hw.objects@[k] == old_objs[k]);
                    } else {
                        assert(hw.objects@[k] == old_objs[k + 1]);
                    }
                }
                assert forall|k1: int, k2: int|
                    0 <= k1 < k2 < hw.objects@.len() implies hw.objects@[k1].id != hw
                    .objects@[k2].id by {
                    let a1: int = if k1 < oi {
                        k1
                    } else {
                        k1 + 1
                    };
                    let a2: int = if k2 < oi {
                        k2
                    } else {
                        k2 + 1
                    };
                    assert(hw.objects@[k1] == old_objs[a1]);
                    assert(hw.objects@[k2] == old_objs[a2]);
                }
            }
        }
        Ok(())
    }
}

} // verus!
