//! The audio object plane and the generic property calls against it.
//!
//! The plane is an explicit value, [`Hardware`]: a table of objects, each
//! with a class and a property table, together with the registered property
//! listeners and the notices queued for them.  Every call of the binding is
//! a function of this value, so what a get returns, what a set changes and
//! which listeners hear of it is stated exactly and checked.  The native
//! edge that populates the plane and delivers the queued notices stays
//! outside the library.

use vstd::prelude::*;

use crate::cat::AudioBuf;
use crate::cat::AudioBufList;
use crate::core_audio::hardware_tapping::TapDesc;
use crate::core_audio::types::{
    global_addr_spec, wildcard_code, Class, Obj, PropAddr, PropElement, PropScope, PropSelector,
};
use crate::four_cc::four_cc_chars;
use crate::os::{
    bad_object_status, bad_property_size_status, unknown_property_status,
    unsupported_operation_status, Error, Status,
};

verus! {

/// The value of one property: the shapes the generic get and set calls
/// carry.  A key is tied to its shape only by convention, so reading or
/// writing a key with the wrong shape fails at call time with the
/// wrong-size code, exactly as a mis-sized native call would.
#[derive(Clone, Debug, PartialEq)]
pub enum PropValue {
    U32(u32),
    I32(i32),
    Str(String),
    U32s(Vec<u32>),
    Asbd(crate::cat::AudioBasicStreamDesc),
    Composition(Composition),
    TapDescription(TapDesc),
}

/// One row of an object's property table.
#[derive(Clone, Debug, PartialEq)]
pub struct PropEntry {
    pub addr: PropAddr,
    pub value: PropValue,
    pub settable: bool,
}

/// One object of the plane: its handle, class pair and property table.
#[derive(Clone, Debug, PartialEq)]
pub struct ObjEntry {
    pub id: u32,
    pub class: Class,
    pub base_class: Option<Class>,
    pub props: Vec<PropEntry>,
}

/// One registered property listener: who listens, on which object, for
/// which addresses.  The address may hold wildcards.
#[derive(Clone, Copy, Debug, PartialEq, Eq, Structural)]
pub struct Registration {
    pub obj_id: u32,
    pub addr: PropAddr,
    pub listener: u64,
}

/// One queued notification: which listener is owed a call, for which
/// object and address.
#[derive(Clone, Copy, Debug, PartialEq, Eq, Structural)]
pub struct Notice {
    pub listener: u64,
    pub obj_id: u32,
    pub addr: PropAddr,
}

/// One sub-device of an aggregate device's composition.
#[derive(Clone, Debug, PartialEq)]
pub struct SubDevice {
    pub uid: String,
    pub drift_compensation: bool,
}

/// The composition an aggregate device is created from: the values behind
/// the documented dictionary keys.
#[derive(Clone, Debug, PartialEq)]
pub struct Composition {
    pub uid: String,
    pub name: String,
    pub main_sub_device: String,
    pub clock_device: String,
    pub sub_devices: Vec<SubDevice>,
    pub tap_uids: Vec<String>,
    pub is_private: bool,
    pub is_stacked: bool,
    pub tap_auto_start: bool,
}

impl SubDevice {
    /// An exact copy; stated so callers can rely on equality.
    pub fn duplicate(&self) -> (r: Self)
        ensures
            r == *self,
    {
        SubDevice { uid: self.uid.clone(), drift_compensation: self.drift_compensation }
    }
}

/// An exact copy of a vector of 32-bit words.
pub fn copy_u32_vec(v: &Vec<u32>) -> (r: Vec<u32>)
    ensures
        r@ == v@,
{
    let mut out: Vec<u32> = Vec::new();
    let mut k: usize = 0;
    while k < v.len()
        invariant
            k <= v@.len(),
            out@ == v@.subrange(0, k as int),
        decreases v@.len() - k,
    {
        out.push(v[k]);
        proof {
            assert(out@ =~= v@.subrange(0, k as int + 1));
        }
        k += 1;
    }
    proof {
        assert(v@.subrange(0, v@.len() as int) =~= v@);
    }
    out
}

/// An exact copy of a vector of strings.
pub fn copy_string_vec(v: &Vec<String>) -> (r: Vec<String>)
    ensures
        r@ == v@,
{
    let mut out: Vec<String> = Vec::new();
    let mut k: usize = 0;
    while k < v.len()
        invariant
            k <= v@.len(),
            out@ == v@.subrange(0, k as int),
        decreases v@.len() - k,
    {
        out.push(v[k].clone());
        proof {
            assert(out@ =~= v@.subrange(0, k as int + 1));
        }
        k += 1;
    }
    proof {
        assert(v@.subrange(0, v@.len() as int) =~= v@);
    }
    out
}

fn copy_sub_devices(v: &Vec<SubDevice>) -> (r: Vec<SubDevice>)
    ensures
        r@ == v@,
{
    let mut out: Vec<SubDevice> = Vec::new();
    let mut k: usize = 0;
    while k < v.len()
        invariant
            k <= v@.len(),
            out@ == v@.subrange(0, k as int),
        decreases v@.len() - k,
    {
        out.push(v[k].duplicate());
        proof {
            assert(out@ =~= v@.subrange(0, k as int + 1));
        }
        k += 1;
    }
    proof {
        assert(v@.subrange(0, v@.len() as int) =~= v@);
    }
    out
}

/// Whether two compositions say the same thing, field by field at the
/// level of what the fields hold.
pub open spec fn composition_like(a: Composition, b: Composition) -> bool {
    &&& a.uid@ == b.uid@
    &&& a.name@ == b.name@
    &&& a.main_sub_device@ == b.main_sub_device@
    &&& a.clock_device@ == b.clock_device@
    &&& a.sub_devices@ == b.sub_devices@
    &&& a.tap_uids@ == b.tap_uids@
    &&& a.is_private == b.is_private
    &&& a.is_stacked == b.is_stacked
    &&& a.tap_auto_start == b.tap_auto_start
}

impl Composition {
    /// A copy saying exactly what this composition says.
    pub fn duplicate(&self) -> (r: Composition)
        ensures
            composition_like(*self, r),
    {
        Composition {
            uid: self.uid.clone(),
            name: self.name.clone(),
            main_sub_device: self.main_sub_device.clone(),
            clock_device: self.clock_device.clone(),
            sub_devices: copy_sub_devices(&self.sub_devices),
            tap_uids: copy_string_vec(&self.tap_uids),
            is_private: self.is_private,
            is_stacked: self.is_stacked,
            tap_auto_start: self.tap_auto_start,
        }
    }
}

/// Whether two property values say the same thing: the same shape, with
/// equal contents at the level of what the shapes hold.
pub open spec fn value_like(a: PropValue, b: PropValue) -> bool {
    match (a, b) {
        (PropValue::U32(x), PropValue::U32(y)) => x == y,
        (PropValue::I32(x), PropValue::I32(y)) => x == y,
        (PropValue::Str(x), PropValue::Str(y)) => x@ == y@,
        (PropValue::U32s(x), PropValue::U32s(y)) => x@ == y@,
        (PropValue::Asbd(x), PropValue::Asbd(y)) => x == y,
        (PropValue::Composition(x), PropValue::Composition(y)) => composition_like(x, y),
        (PropValue::TapDescription(x), PropValue::TapDescription(y)) =>
            crate::core_audio::hardware_tapping::tap_desc_like(x, y),
        _ => false,
    }
}

impl PropValue {
    /// A copy saying exactly what this value says.
    pub fn copy_value(&self) -> (r: PropValue)
        ensures
            value_like(*self, r),
    {
        match self {
            PropValue::U32(v) => PropValue::U32(*v),
            PropValue::I32(v) => PropValue::I32(*v),
            PropValue::Str(s) => PropValue::Str(s.clone()),
            PropValue::U32s(v) => PropValue::U32s(copy_u32_vec(v)),
            PropValue::Asbd(a) => PropValue::Asbd(*a),
            PropValue::Composition(c) => PropValue::Composition(c.duplicate()),
            PropValue::TapDescription(d) => PropValue::TapDescription(d.duplicate()),
        }
    }

    /// Two values have the same shape when the generic calls may exchange
    /// one for the other.
    pub open spec fn same_shape_spec(self, other: PropValue) -> bool {
        match (self, other) {
            (PropValue::U32(_), PropValue::U32(_)) => true,
            (PropValue::I32(_), PropValue::I32(_)) => true,
            (PropValue::Str(_), PropValue::Str(_)) => true,
            (PropValue::U32s(_), PropValue::U32s(_)) => true,
            (PropValue::Asbd(_), PropValue::Asbd(_)) => true,
            (PropValue::Composition(_), PropValue::Composition(_)) => true,
            (PropValue::TapDescription(_), PropValue::TapDescription(_)) => true,
            _ => false,
        }
    }

    /// Decides whether two values have the same shape.
    pub fn same_shape(&self, other: &PropValue) -> (r: bool)
        ensures
            r == self.same_shape_spec(*other),
    {
        match (self, other) {
            (PropValue::U32(_), PropValue::U32(_)) => true,
            (PropValue::I32(_), PropValue::I32(_)) => true,
            (PropValue::Str(_), PropValue::Str(_)) => true,
            (PropValue::U32s(_), PropValue::U32s(_)) => true,
            (PropValue::Asbd(_), PropValue::Asbd(_)) => true,
            (PropValue::Composition(_), PropValue::Composition(_)) => true,
            (PropValue::TapDescription(_), PropValue::TapDescription(_)) => true,
            _ => false,
        }
    }

    /// The byte size the native calls would report for a value of this
    /// shape: four bytes per 32-bit word, eight for an object reference.
    pub open spec fn byte_size(self) -> int {
        match self {
            PropValue::U32(_) => 4,
            PropValue::I32(_) => 4,
            PropValue::Str(_) => 8,
            PropValue::U32s(v) => 4 * v@.len() as int,
            PropValue::Asbd(_) => 40,
            PropValue::Composition(_) => 8,
            PropValue::TapDescription(_) => 8,
        }
    }
}

/// Index of the first table row holding `addr`, or `-1` when no row does.
pub open spec fn prop_index_of(props: Seq<PropEntry>, addr: PropAddr) -> int
    decreases props.len(),
{
    if props.len() == 0 {
        -1
    } else if props[0].addr == addr {
        0
    } else {
        let t = prop_index_of(props.skip(1), addr);
        if t < 0 {
            -1
        } else {
            t + 1
        }
    }
}

/// Index of the first object holding handle `id`, or `-1` when none does.
pub open spec fn obj_index_of(objs: Seq<ObjEntry>, id: u32) -> int
    decreases objs.len(),
{
    if objs.len() == 0 {
        -1
    } else if objs[0].id == id {
        0
    } else {
        let t = obj_index_of(objs.skip(1), id);
        if t < 0 {
            -1
        } else {
            t + 1
        }
    }
}

proof fn lemma_prop_index_skip_step(s: Seq<PropEntry>, i: int, addr: PropAddr)
    requires
        0 <= i < s.len(),
        s[i].addr != addr,
    ensures
        prop_index_of(s.skip(i), addr) == (if prop_index_of(s.skip(i + 1), addr) < 0 {
            -1int
        } else {
            prop_index_of(s.skip(i + 1), addr) + 1
        }),
{
    assert(s.skip(i)[0] == s[i]);
    assert(s.skip(i).skip(1) =~= s.skip(i + 1));
}

proof fn lemma_obj_index_skip_step(s: Seq<ObjEntry>, i: int, id: u32)
    requires
        0 <= i < s.len(),
        s[i].id != id,
    ensures
        obj_index_of(s.skip(i), id) == (if obj_index_of(s.skip(i + 1), id) < 0 {
            -1int
        } else {
            obj_index_of(s.skip(i + 1), id) + 1
        }),
{
    assert(s.skip(i)[0] == s[i]);
    assert(s.skip(i).skip(1) =~= s.skip(i + 1));
}

/// Where an index is found it lies in range, holds the key looked for, and
/// no earlier row does; where none is found no row holds the key.
pub proof fn lemma_prop_index_of(s: Seq<PropEntry>, addr: PropAddr)
    ensures
        prop_index_of(s, addr) >= 0 ==> {
            let i = prop_index_of(s, addr);
            &&& i < s.len()
            &&& s[i].addr == addr
            &&& forall|j: int| 0 <= j < i ==> s[j].addr != addr
        },
        prop_index_of(s, addr) < 0 ==> forall|j: int| 0 <= j < s.len() ==> s[j].addr != addr,
    decreases s.len(),
{
    if s.len() == 0 {
    } else if s[0].addr == addr {
    } else {
        lemma_prop_index_of(s.skip(1), addr);
        let t = prop_index_of(s.skip(1), addr);
        if t >= 0 {
            assert(s.skip(1)[t] == s[t + 1]);
            assert forall|j: int| 0 <= j < t + 1 implies s[j].addr != addr by {
                if j > 0 {
                    assert(s.skip(1)[j - 1] == s[j]);
                }
            }
        } else {
            assert forall|j: int| 0 <= j < s.len() implies s[j].addr != addr by {
                if j > 0 {
                    assert(s.skip(1)[j - 1] == s[j]);
                }
            }
        }
    }
}

/// The object-table twin of [`lemma_prop_index_of`].
pub proof fn lemma_obj_index_of(s: Seq<ObjEntry>, id: u32)
    ensures
        obj_index_of(s, id) >= 0 ==> {
            let i = obj_index_of(s, id);
            &&& i < s.len()
            &&& s[i].id == id
            &&& forall|j: int| 0 <= j < i ==> s[j].id != id
        },
        obj_index_of(s, id) < 0 ==> forall|j: int| 0 <= j < s.len() ==> s[j].id != id,
    decreases s.len(),
{
    if s.len() == 0 {
    } else if s[0].id == id {
    } else {
        lemma_obj_index_of(s.skip(1), id);
        let t = obj_index_of(s.skip(1), id);
        if t >= 0 {
            assert(s.skip(1)[t] == s[t + 1]);
            assert forall|j: int| 0 <= j < t + 1 implies s[j].id != id by {
                if j > 0 {
                    assert(s.skip(1)[j - 1] == s[j]);
                }
            }
        } else {
            assert forall|j: int| 0 <= j < s.len() implies s[j].id != id by {
                if j > 0 {
                    assert(s.skip(1)[j - 1] == s[j]);
                }
            }
        }
    }
}

pub(crate) fn find_prop_index(props: &Vec<PropEntry>, addr: &PropAddr) -> (r: Option<usize>)
    ensures
        match r {
            Some(i) => prop_index_of(props@, *addr) == i as int && i < props@.len()
                && props@[i as int].addr == *addr,
            None => prop_index_of(props@, *addr) == -1,
        },
{
    let mut i: usize = 0;
    proof {
        assert(props@.skip(0) =~= props@);
    }
    while i < props.len()
        invariant
            i <= props@.len(),
            prop_index_of(props@, *addr) == (if prop_index_of(props@.skip(i as int), *addr) < 0 {
                -1int
            } else {
                prop_index_of(props@.skip(i as int), *addr) + i
            }),
        decreases props@.len() - i,
    {
        if props[i].addr.selector.0 == addr.selector.0 && props[i].addr.scope.0 == addr.scope.0
            && props[i].addr.element.0 == addr.element.0 {
            proof {
                assert(props@[i as int].addr == *addr);
                assert(props@.skip(i as int)[0] == props@[i as int]);
            }
            return Some(i);
        }
        proof {
            assert(props@.skip(i as int)[0] == props@[i as int]);
            lemma_prop_index_skip_step(props@, i as int, *addr);
        }
        i += 1;
    }
    proof {
        assert(props@.skip(i as int).len() == 0);
    }
    None
}

pub(crate) fn find_obj_index(objs: &Vec<ObjEntry>, id: u32) -> (r: Option<usize>)
    ensures
        match r {
            Some(i) => obj_index_of(objs@, id) == i as int && i < objs@.len()
                && objs@[i as int].id == id,
            None => obj_index_of(objs@, id) == -1,
        },
{
    let mut i: usize = 0;
    proof {
        assert(objs@.skip(0) =~= objs@);
    }
    while i < objs.len()
        invariant
            i <= objs@.len(),
            obj_index_of(objs@, id) == (if obj_index_of(objs@.skip(i as int), id) < 0 {
                -1int
            } else {
                obj_index_of(objs@.skip(i as int), id) + i
            }),
        decreases objs@.len() - i,
    {
        if objs[i].id == id {
            proof {
                assert(objs@.skip(i as int)[0] == objs@[i as int]);
            }
            return Some(i);
        }
        proof {
            assert(objs@.skip(i as int)[0] == objs@[i as int]);
            lemma_obj_index_skip_step(objs@, i as int, id);
        }
        i += 1;
    }
    proof {
        assert(objs@.skip(i as int).len() == 0);
    }
    None
}

/// A registration address covers a concrete address when each part is
/// equal or the registration holds that part's wildcard.
pub open spec fn addr_covers(reg: PropAddr, a: PropAddr) -> bool {
    &&& (reg.selector.0 == wildcard_code() || reg.selector == a.selector)
    &&& (reg.scope.0 == wildcard_code() || reg.scope == a.scope)
    &&& (reg.element.0 == 0xFFFF_FFFFu32 || reg.element == a.element)
}

fn addr_covers_exec(reg: &PropAddr, a: &PropAddr) -> (r: bool)
    ensures
        r == addr_covers(*reg, *a),
{
    let wc = crate::four_cc::four_cc('*' as u8, '*' as u8, '*' as u8, '*' as u8);
    (reg.selector.0 == wc || reg.selector.0 == a.selector.0) && (reg.scope.0 == wc || reg.scope.0
        == a.scope.0) && (reg.element.0 == 0xFFFF_FFFFu32 || reg.element.0 == a.element.0)
}

/// A registration is owed a notice for a change of `a` on object `id` when
/// it names that object and its address covers `a`.
pub open spec fn reg_covers(reg: Registration, id: u32, a: PropAddr) -> bool {
    reg.obj_id == id && addr_covers(reg.addr, a)
}

/// The notices owed to a registration list for one change, in registration
/// order.
pub open spec fn notices_for(regs: Seq<Registration>, id: u32, a: PropAddr) -> Seq<Notice>
    decreases regs.len(),
{
    if regs.len() == 0 {
        Seq::empty()
    } else {
        let init = notices_for(regs.drop_last(), id, a);
        if reg_covers(regs.last(), id, a) {
            init.push(Notice { listener: regs.last().listener, obj_id: id, addr: a })
        } else {
            init
        }
    }
}

/// The registration list after removing every registration of `listener`
/// for exactly `addr` on object `id`.
pub open spec fn regs_without(regs: Seq<Registration>, id: u32, addr: PropAddr, listener: u64)
    -> Seq<Registration>
    decreases regs.len(),
{
    if regs.len() == 0 {
        Seq::empty()
    } else {
        let init = regs_without(regs.drop_last(), id, addr, listener);
        let last = regs.last();
        if last.obj_id == id && last.addr == addr && last.listener == listener {
            init
        } else {
            init.push(last)
        }
    }
}

fn append_notices(pending: &mut Vec<Notice>, regs: &Vec<Registration>, id: u32, addr: &PropAddr)
    ensures
        final(pending)@ == old(pending)@ + notices_for(regs@, id, *addr),
{
    let mut k: usize = 0;
    proof {
        assert(notices_for(regs@.subrange(0, 0), id, *addr) =~= Seq::<Notice>::empty());
        assert(pending@ =~= pending@ + notices_for(regs@.subrange(0, 0), id, *addr));
    }
    while k < regs.len()
        invariant
            k <= regs@.len(),
            pending@ == old(pending)@ + notices_for(regs@.subrange(0, k as int), id, *addr),
        decreases regs@.len() - k,
    {
        proof {
            assert(regs@.subrange(0, k as int + 1).drop_last() =~= regs@.subrange(0, k as int));
            assert(regs@.subrange(0, k as int + 1).last() == regs@[k as int]);
        }
        let reg = regs[k];
        if reg.obj_id == id && addr_covers_exec(&reg.addr, addr) {
            pending.push(Notice { listener: reg.listener, obj_id: id, addr: *addr });
        }
        proof {
            assert(pending@ =~= old(pending)@ + notices_for(
                regs@.subrange(0, k as int + 1),
                id,
                *addr,
            ));
        }
        k += 1;
    }
    proof {
        assert(regs@.subrange(0, regs@.len() as int) =~= regs@);
    }
}

/// The audio object plane as a value: its objects, the registered property
/// listeners, the notices queued for them, and the next free handle.
#[derive(Clone, Debug)]
pub struct Hardware {
    pub objects: Vec<ObjEntry>,
    pub regs: Vec<Registration>,
    pub pending: Vec<Notice>,
    pub next_id: u32,
    pub default_input: u32,
    pub default_output: u32,
}

impl Hardware {
    /// Handles are unique, positive and below the next free handle.
    pub open spec fn wf(self) -> bool {
        &&& 1 <= self.next_id
        &&& forall|k: int|
            0 <= k < self.objects@.len() ==> 1 <= #[trigger] self.objects@[k].id < self.next_id
        &&& forall|k1: int, k2: int|
            0 <= k1 < k2 < self.objects@.len() ==> self.objects@[k1].id != self.objects@[k2].id
    }

    /// Whether an object with handle `id` exists.
    pub open spec fn spec_has_obj(self, id: u32) -> bool {
        obj_index_of(self.objects@, id) >= 0
    }

    /// A fresh plane: only the system object, with the fixed handle one and
    /// the system class, and nothing registered or queued.
    pub fn new() -> (r: Hardware)
        ensures
            r.wf(),
            r.objects@.len() == 1,
            r.objects@[0].id == 1,
            r.objects@[0].class == Class(four_cc_chars('a', 's', 'y', 's')),
            r.objects@[0].base_class is None,
            r.objects@[0].props@.len() == 0,
            r.regs@.len() == 0,
            r.pending@.len() == 0,
            r.next_id == 2,
            r.default_input == 0,
            r.default_output == 0,
    {
        let mut objects: Vec<ObjEntry> = Vec::new();
        objects.push(
            ObjEntry { id: 1, class: Class::system(), base_class: None, props: Vec::new() },
        );
        Hardware {
            objects,
            regs: Vec::new(),
            pending: Vec::new(),
            next_id: 2,
            default_input: 0,
            default_output: 0,
        }
    }

    /// Hands out the queued notices in registration order and empties the
    /// queue; nothing else changes.  This is the point where the edge that
    /// drives the real listeners picks up what it owes them.
    pub fn take_pending_notices(&mut self) -> (r: Vec<Notice>)
        ensures
            r@ == old(self).pending@,
            final(self).pending@.len() == 0,
            final(self).objects@ == old(self).objects@,
            final(self).regs@ == old(self).regs@,
            final(self).next_id == old(self).next_id,
            final(self).default_input == old(self).default_input,
            final(self).default_output == old(self).default_output,
    {
        let mut out: Vec<Notice> = Vec::new();
        let mut k: usize = 0;
        while k < self.pending.len()
            invariant
                k <= self.pending@.len(),
                out@ == self.pending@.subrange(0, k as int),
                self.pending@ == old(self).pending@,
                self.objects@ == old(self).objects@,
                self.regs@ == old(self).regs@,
                self.next_id == old(self).next_id,
                self.default_input == old(self).default_input,
                self.default_output == old(self).default_output,
            decreases self.pending@.len() - k,
        {
            out.push(self.pending[k]);
            proof {
                assert(out@ =~= self.pending@.subrange(0, k as int + 1));
            }
            k += 1;
        }
        proof {
            assert(out@ =~= old(self).pending@);
        }
        self.pending.clear();
        out
    }
}

/// What a generic property read returns: the value where object and
/// property exist, the exact failure code where one is missing.
pub open spec fn spec_prop(hw: Hardware, id: u32, addr: PropAddr) -> Result<PropValue, Error> {
    let i = obj_index_of(hw.objects@, id);
    if i < 0 {
        Err(Error(bad_object_status()))
    } else {
        let j = prop_index_of(hw.objects@[i].props@, addr);
        if j < 0 {
            Err(Error(unknown_property_status()))
        } else {
            Ok(hw.objects@[i].props@[j].value)
        }
    }
}

/// What a generic property write returns, and whether it changes anything:
/// missing object or property and read-only or mis-shaped data each give
/// their exact failure code.
pub open spec fn spec_set_outcome(hw: Hardware, id: u32, addr: PropAddr, v: PropValue) -> Result<
    (),
    Error,
> {
    let i = obj_index_of(hw.objects@, id);
    if i < 0 {
        Err(Error(bad_object_status()))
    } else {
        let j = prop_index_of(hw.objects@[i].props@, addr);
        if j < 0 {
            Err(Error(unknown_property_status()))
        } else if !hw.objects@[i].props@[j].settable {
            Err(Error(unsupported_operation_status()))
        } else if !hw.objects@[i].props@[j].value.same_shape_spec(v) {
            Err(Error(bad_property_size_status()))
        } else {
            Ok(())
        }
    }
}

/// The 32-bit word behind a property, or the wrong-size code where the
/// property has another shape.
pub open spec fn spec_u32_prop(hw: Hardware, id: u32, addr: PropAddr) -> Result<u32, Error> {
    match spec_prop(hw, id, addr) {
        Err(e) => Err(e),
        Ok(PropValue::U32(x)) => Ok(x),
        Ok(_) => Err(Error(bad_property_size_status())),
    }
}

/// The signed 32-bit word behind a property, or the wrong-size code.
pub open spec fn spec_i32_prop(hw: Hardware, id: u32, addr: PropAddr) -> Result<i32, Error> {
    match spec_prop(hw, id, addr) {
        Err(e) => Err(e),
        Ok(PropValue::I32(x)) => Ok(x),
        Ok(_) => Err(Error(bad_property_size_status())),
    }
}

/// The string behind a property, or the wrong-size code.
pub open spec fn spec_str_prop(hw: Hardware, id: u32, addr: PropAddr) -> Result<String, Error> {
    match spec_prop(hw, id, addr) {
        Err(e) => Err(e),
        Ok(PropValue::Str(s)) => Ok(s),
        Ok(_) => Err(Error(bad_property_size_status())),
    }
}

/// The word list behind a property, or the wrong-size code.
pub open spec fn spec_u32s_prop(hw: Hardware, id: u32, addr: PropAddr) -> Result<Vec<u32>, Error> {
    match spec_prop(hw, id, addr) {
        Err(e) => Err(e),
        Ok(PropValue::U32s(v)) => Ok(v),
        Ok(_) => Err(Error(bad_property_size_status())),
    }
}

/// A boolean property is a 32-bit word; one means true.
pub open spec fn spec_bool_prop(hw: Hardware, id: u32, addr: PropAddr) -> Result<bool, Error> {
    match spec_u32_prop(hw, id, addr) {
        Err(e) => Err(e),
        Ok(x) => Ok(x == 1),
    }
}

/// How a successful generic write changes the plane: the addressed row is
/// replaced by the written value, one notice per covering registration is
/// queued in registration order, and nothing else moves.
pub open spec fn set_prop_transition(
    pre: Hardware,
    post: Hardware,
    id: u32,
    addr: PropAddr,
    v: PropValue,
) -> bool {
    let i = obj_index_of(pre.objects@, id);
    let o = pre.objects@[i];
    let j = prop_index_of(o.props@, addr);
    &&& post.objects@.len() == pre.objects@.len()
    &&& forall|k: int|
        0 <= k < pre.objects@.len() && k != i ==> post.objects@[k] == pre.objects@[k]
    &&& post.objects@[i].id == o.id
    &&& post.objects@[i].class == o.class
    &&& post.objects@[i].base_class == o.base_class
    &&& post.objects@[i].props@ == o.props@.update(
        j,
        PropEntry { addr, value: v, settable: true },
    )
    &&& post.regs@ == pre.regs@
    &&& post.pending@ == pre.pending@ + notices_for(pre.regs@, id, addr)
    &&& post.next_id == pre.next_id
    &&& post.default_input == pre.default_input
    &&& post.default_output == pre.default_output
}

impl Obj {
    /// Reads a property generically.  Returns exactly what the plane
    /// holds: the value where object and property exist, the
    /// missing-object or missing-property code otherwise.
    pub fn prop<'a>(&self, hw: &'a Hardware, address: &PropAddr) -> (r: Result<
        &'a PropValue,
        Error,
    >)
        ensures
            match (r, spec_prop(*hw, self.0, *address)) {
                (Ok(rv), Ok(v)) => *rv == v,
                (Err(re), Err(e)) => re == e,
                _ => false,
            },
    {
        let oi = match find_obj_index(&hw.objects, self.0) {
            Some(i) => i,
            None => {
                return Err(Error(Status::bad_object()));
            },
        };
        let pi = match find_prop_index(&hw.objects[oi].props, address) {
            Some(j) => j,
            None => {
                return Err(Error(Status::unknown_property()));
            },
        };
        Ok(&hw.objects[oi].props[pi].value)
    }

    /// Reads a property generically with a qualifier: the system object's
    /// translation selectors answer the handle the qualifier names, every
    /// other address ignores the qualifier and answers a copy of the
    /// stored value.
    #[verifier::loop_isolation(false)]
    pub fn prop_with_qualifier(
        &self,
        hw: &Hardware,
        address: &PropAddr,
        qualifier: &PropValue,
    ) -> (r: Result<PropValue, Error>)
        ensures
            match (r, spec_prop_with_qualifier(*hw, self.0, *address, *qualifier)) {
                (Ok(rv), Ok(v)) => value_like(v, rv),
                (Err(re), Err(e)) => re == e,
                _ => false,
            },
    {
        let id2p = PropSelector::hardware_translate_pid_to_process_obj();
        let uidd = PropSelector::hardware_translate_uid_to_device();
        let glob = PropScope::global();
        let is_global_main = address.scope.0 == glob.0 && address.element.0 == 0;
        if self.0 == 1 && address.selector.0 == id2p.0 && is_global_main {
            proof {
                assert(*address == global_addr_spec(
                    PropSelector(four_cc_chars('i', 'd', '2', 'p')),
                ));
            }
            return match qualifier {
                PropValue::I32(pid) => match Process::with_pid(hw, *pid) {
                    Ok(p) => Ok(PropValue::U32(p.0.0)),
                    Err(e) => Err(e),
                },
                _ => Err(Error(Status::bad_property_size())),
            };
        }
        if self.0 == 1 && address.selector.0 == uidd.0 && is_global_main {
            proof {
                assert(*address == global_addr_spec(
                    PropSelector(four_cc_chars('u', 'i', 'd', 'd')),
                ));
                assert(four_cc_chars('i', 'd', '2', 'p') != four_cc_chars('u', 'i', 'd', 'd'));
                assert(*address != global_addr_spec(
                    PropSelector(four_cc_chars('i', 'd', '2', 'p')),
                ));
            }
            return match qualifier {
                PropValue::Str(uid) => {
                    let mut k: usize = 0;
                    proof {
                        assert(hw.objects@.skip(0) =~= hw.objects@);
                    }
                    while k < hw.objects.len()
                        invariant
                            k <= hw.objects@.len(),
                            uid_lookup(hw.objects@, uid@) == uid_lookup(
                                hw.objects@.skip(k as int),
                                uid@,
                            ),
                        decreases hw.objects@.len() - k,
                    {
                        let matches_here = obj_matches_uid_exec(&hw.objects[k], uid);
                        proof {
                            assert(hw.objects@.skip(k as int)[0] == hw.objects@[k as int]);
                        }
                        if matches_here {
                            proof {
                                assert(uid_lookup(hw.objects@.skip(k as int), uid@) == hw
                                    .objects@[k as int].id);
                            }
                            return Ok(PropValue::U32(hw.objects[k].id));
                        }
                        proof {
                            lemma_uid_lookup_skip_step(hw.objects@, k as int, uid@);
                        }
                        k += 1;
                    }
                    proof {
                        assert(hw.objects@.skip(k as int).len() == 0);
                    }
                    Ok(PropValue::U32(0))
                },
                _ => Err(Error(Status::bad_property_size())),
            };
        }
        match self.prop(hw, address) {
            Ok(v) => Ok(v.copy_value()),
            Err(e) => Err(e),
        }
    }

    /// Writes a property generically.  Success replaces the value and
    /// queues one notice per covering registration, in registration order;
    /// failure leaves the plane untouched and reports the exact code: a
    /// missing object or property, a read-only property, or data of the
    /// wrong shape.
    pub fn set_prop(&self, hw: &mut Hardware, address: &PropAddr, val: PropValue) -> (r: Result<
        (),
        Error,
    >)
        ensures
            r == spec_set_outcome(*old(hw), self.0, *address, val),
            r is Err ==> *final(hw) == *old(hw),
            r is Ok ==> set_prop_transition(*old(hw), *final(hw), self.0, *address, val),
            old(hw).wf() ==> final(hw).wf(),
    {
        let oi = match find_obj_index(&hw.objects, self.0) {
            Some(i) => i,
            None => {
                return Err(Error(Status::bad_object()));
            },
        };
        let pi = match find_prop_index(&hw.objects[oi].props, address) {
            Some(j) => j,
            None => {
                return Err(Error(Status::unknown_property()));
            },
        };
        if !hw.objects[oi].props[pi].settable {
            return Err(Error(Status::unsupported_operation()));
        }
        if !hw.objects[oi].props[pi].value.same_shape(&val) {
            return Err(Error(Status::bad_property_size()));
        }
        let entry = PropEntry { addr: *address, value: val, settable: true };
        let o = &mut hw.objects[oi];
        o.props[pi] = entry;
        append_notices(&mut hw.pending, &hw.regs, self.0, address);
        proof {
            if old(hw).wf() {
                assert forall|k: int|
                    0 <= k < hw.objects@.len() implies 1 <= #[trigger] hw.objects@[k].id < hw
                    .next_id by {
                    if k != oi as int {
                        assert(hw.objects@[k] == old(hw).objects@[k]);
                    }
                }
                assert forall|k1: int, k2: int|
                    0 <= k1 < k2 < hw.objects@.len() implies hw.objects@[k1].id != hw
                    .objects@[k2].id by {
                    assert(hw.objects@[k1].id == old(hw).objects@[k1].id);
                    assert(hw.objects@[k2].id == old(hw).objects@[k2].id);
                }
            }
        }
        Ok(())
    }

    /// Whether the object exists and has a property at the address.
    pub fn has_prop(&self, hw: &Hardware, address: &PropAddr) -> (r: bool)
        ensures
            r == (spec_prop(*hw, self.0, *address) is Ok),
    {
        let oi = match find_obj_index(&hw.objects, self.0) {
            Some(i) => i,
            None => {
                return false;
            },
        };
        match find_prop_index(&hw.objects[oi].props, address) {
            Some(_) => true,
            None => false,
        }
    }

    /// Whether the property can be set; missing object or property give
    /// the same codes as a read.
    pub fn is_prop_settable(&self, hw: &Hardware, address: &PropAddr) -> (r: Result<bool, Error>)
        ensures
            r == ({
                let i = obj_index_of(hw.objects@, self.0);
                if i < 0 {
                    Err::<bool, Error>(Error(bad_object_status()))
                } else {
                    let j = prop_index_of(hw.objects@[i].props@, *address);
                    if j < 0 {
                        Err::<bool, Error>(Error(unknown_property_status()))
                    } else {
                        Ok::<bool, Error>(hw.objects@[i].props@[j].settable)
                    }
                }
            }),
    {
        let oi = match find_obj_index(&hw.objects, self.0) {
            Some(i) => i,
            None => {
                return Err(Error(Status::bad_object()));
            },
        };
        let pi = match find_prop_index(&hw.objects[oi].props, address) {
            Some(j) => j,
            None => {
                return Err(Error(Status::unknown_property()));
            },
        };
        Ok(hw.objects[oi].props[pi].settable)
    }

    /// The byte size a read of the property would hand back.
    pub fn prop_size(&self, hw: &Hardware, address: &PropAddr) -> (r: Result<u32, Error>)
        ensures
            r == ({
                match spec_prop(*hw, self.0, *address) {
                    Err(e) => Err::<u32, Error>(e),
                    Ok(v) => if v.byte_size() <= u32::MAX as int {
                        Ok::<u32, Error>(v.byte_size() as u32)
                    } else {
                        Err::<u32, Error>(Error(bad_property_size_status()))
                    },
                }
            }),
    {
        let oi = match find_obj_index(&hw.objects, self.0) {
            Some(i) => i,
            None => {
                return Err(Error(Status::bad_object()));
            },
        };
        let pi = match find_prop_index(&hw.objects[oi].props, address) {
            Some(j) => j,
            None => {
                return Err(Error(Status::unknown_property()));
            },
        };
        match &hw.objects[oi].props[pi].value {
            PropValue::U32(_) => Ok(4),
            PropValue::I32(_) => Ok(4),
            PropValue::Str(_) => Ok(8),
            PropValue::U32s(v) => {
                let n: u64 = v.len() as u64;
                if n <= (u32::MAX as u64) / 4 {
                    Ok((n as u32) * 4)
                } else {
                    Err(Error(Status::bad_property_size()))
                }
            },
            PropValue::Asbd(_) => Ok(40),
            PropValue::Composition(_) => Ok(8),
            PropValue::TapDescription(_) => Ok(8),
        }
    }

    /// Reads a property as a boolean: a 32-bit word where one means true.
    pub fn bool_prop(&self, hw: &Hardware, address: &PropAddr) -> (r: Result<bool, Error>)
        ensures
            r == spec_bool_prop(*hw, self.0, *address),
    {
        let oi = match find_obj_index(&hw.objects, self.0) {
            Some(i) => i,
            None => {
                return Err(Error(Status::bad_object()));
            },
        };
        let pi = match find_prop_index(&hw.objects[oi].props, address) {
            Some(j) => j,
            None => {
                return Err(Error(Status::unknown_property()));
            },
        };
        match &hw.objects[oi].props[pi].value {
            PropValue::U32(x) => Ok(*x == 1),
            _ => Err(Error(Status::bad_property_size())),
        }
    }

    /// Reads a property whose value is a string object, handing the caller
    /// an owned copy.
    pub fn cf_prop(&self, hw: &Hardware, address: &PropAddr) -> (r: Result<String, Error>)
        ensures
            r == spec_str_prop(*hw, self.0, *address),
    {
        let oi = match find_obj_index(&hw.objects, self.0) {
            Some(i) => i,
            None => {
                return Err(Error(Status::bad_object()));
            },
        };
        let pi = match find_prop_index(&hw.objects[oi].props, address) {
            Some(j) => j,
            None => {
                return Err(Error(Status::unknown_property()));
            },
        };
        match &hw.objects[oi].props[pi].value {
            PropValue::Str(s) => Ok(s.clone()),
            _ => Err(Error(Status::bad_property_size())),
        }
    }

    /// Reads a property whose value is a list of 32-bit words.
    pub fn prop_vec(&self, hw: &Hardware, address: &PropAddr) -> (r: Result<Vec<u32>, Error>)
        ensures
            match (r, spec_u32s_prop(*hw, self.0, *address)) {
                (Ok(rv), Ok(v)) => rv@ == v@,
                (Err(re), Err(e)) => re == e,
                _ => false,
            },
    {
        let oi = match find_obj_index(&hw.objects, self.0) {
            Some(i) => i,
            None => {
                return Err(Error(Status::bad_object()));
            },
        };
        let pi = match find_prop_index(&hw.objects[oi].props, address) {
            Some(j) => j,
            None => {
                return Err(Error(Status::unknown_property()));
            },
        };
        match &hw.objects[oi].props[pi].value {
            PropValue::U32s(v) => Ok(copy_u32_vec(v)),
            _ => Err(Error(Status::bad_property_size())),
        }
    }

    /// Registers a property listener on this object; the address may hold
    /// wildcards.  The registration is appended; everything else stays.
    pub fn add_prop_listener(&self, hw: &mut Hardware, address: &PropAddr, listener: u64) -> (r:
        Result<(), Error>)
        ensures
            old(hw).spec_has_obj(self.0) ==> r == Ok::<(), Error>(()) && final(hw).regs@ == old(
                hw,
            ).regs@.push(Registration { obj_id: self.0, addr: *address, listener }),
            !old(hw).spec_has_obj(self.0) ==> r == Err::<(), Error>(Error(bad_object_status()))
                && final(hw).regs@ == old(hw).regs@,
            final(hw).objects@ == old(hw).objects@,
            final(hw).pending@ == old(hw).pending@,
            final(hw).next_id == old(hw).next_id,
            final(hw).default_input == old(hw).default_input,
            final(hw).default_output == old(hw).default_output,
    {
        match find_obj_index(&hw.objects, self.0) {
            Some(_) => {
                hw.regs.push(Registration { obj_id: self.0, addr: *address, listener });
                Ok(())
            },
            None => Err(Error(Status::bad_object())),
        }
    }

    /// Removes every registration of `listener` for exactly this address
    /// on this object.  Removing what was never registered, or was already
    /// removed, succeeds and removes nothing.
    pub fn remove_prop_listener(&self, hw: &mut Hardware, address: &PropAddr, listener: u64) -> (r:
        Result<(), Error>)
        ensures
            old(hw).spec_has_obj(self.0) ==> r == Ok::<(), Error>(()) && final(hw).regs@ == regs_without(
                old(hw).regs@,
                self.0,
                *address,
                listener,
            ),
            !old(hw).spec_has_obj(self.0) ==> r == Err::<(), Error>(Error(bad_object_status()))
                && final(hw).regs@ == old(hw).regs@,
            final(hw).objects@ == old(hw).objects@,
            final(hw).pending@ == old(hw).pending@,
            final(hw).next_id == old(hw).next_id,
            final(hw).default_input == old(hw).default_input,
            final(hw).default_output == old(hw).default_output,
    {
        match find_obj_index(&hw.objects, self.0) {
            Some(_) => {},
            None => {
                return Err(Error(Status::bad_object()));
            },
        };
        let mut kept: Vec<Registration> = Vec::new();
        let mut k: usize = 0;
        proof {
            assert(regs_without(hw.regs@.subrange(0, 0), self.0, *address, listener) =~= Seq::<
                Registration,
            >::empty());
        }
        while k < hw.regs.len()
            invariant
                k <= hw.regs@.len(),
                kept@ == regs_without(hw.regs@.subrange(0, k as int), self.0, *address, listener),
                hw == old(hw),
            decreases hw.regs@.len() - k,
        {
            proof {
                assert(hw.regs@.subrange(0, k as int + 1).drop_last() =~= hw.regs@.subrange(
                    0,
                    k as int,
                ));
                assert(hw.regs@.subrange(0, k as int + 1).last() == hw.regs@[k as int]);
            }
            let reg = hw.regs[k];
            if !(reg.obj_id == self.0 && reg.addr.selector.0 == address.selector.0
                && reg.addr.scope.0 == address.scope.0 && reg.addr.element.0 == address.element.0
                && reg.listener == listener) {
                kept.push(reg);
            }
            k += 1;
        }
        proof {
            assert(hw.regs@.subrange(0, hw.regs@.len() as int) =~= hw.regs@);
        }
        hw.regs = kept;
        Ok(())
    }

    /// The human-readable name of the object, from its name property.
    pub fn name(&self, hw: &Hardware) -> (r: Result<String, Error>)
        ensures
            r == spec_str_prop(
                *hw,
                self.0,
                global_addr_spec(PropSelector(four_cc_chars('l', 'n', 'a', 'm'))),
            ),
    {
        self.cf_prop(hw, &PropSelector::name().global_addr())
    }

    /// The class of the object, or the missing-object code.
    pub fn class(&self, hw: &Hardware) -> (r: Result<Class, Error>)
        ensures
            r == ({
                let i = obj_index_of(hw.objects@, self.0);
                if i < 0 {
                    Err::<Class, Error>(Error(bad_object_status()))
                } else {
                    Ok::<Class, Error>(hw.objects@[i].class)
                }
            }),
    {
        match find_obj_index(&hw.objects, self.0) {
            Some(i) => Ok(hw.objects[i].class),
            None => Err(Error(Status::bad_object())),
        }
    }

    /// The class this object's class inherits from; the root of the class
    /// tree has none and reports the missing-property code.
    pub fn base_class(&self, hw: &Hardware) -> (r: Result<Class, Error>)
        ensures
            r == ({
                let i = obj_index_of(hw.objects@, self.0);
                if i < 0 {
                    Err::<Class, Error>(Error(bad_object_status()))
                } else {
                    match hw.objects@[i].base_class {
                        Some(c) => Ok::<Class, Error>(c),
                        None => Err::<Class, Error>(Error(unknown_property_status())),
                    }
                }
            }),
    {
        match find_obj_index(&hw.objects, self.0) {
            Some(i) => match hw.objects[i].base_class {
                Some(c) => Ok(c),
                None => Err(Error(Status::unknown_property())),
            },
            None => Err(Error(Status::bad_object())),
        }
    }
}


/// A client process, seen as an object of the plane.
#[derive(Clone, Copy, Debug, PartialEq, Eq, Structural)]
pub struct Process(pub Obj);

/// The one system object.
#[derive(Clone, Copy, Debug, PartialEq, Eq, Structural)]
pub struct System(pub Obj);

/// A device of the plane.
#[derive(Clone, Copy, Debug, PartialEq, Eq, Structural)]
pub struct Device(pub Obj);

/// A device composed of other devices and taps.  Creating one adds it to
/// the plane; destroying one removes it, exactly once, because destroy
/// consumes the handle.
#[derive(Debug, PartialEq, Eq, Structural)]
pub struct AggregateDevice(pub Device);

/// The classes whose objects the system lists as devices.
pub open spec fn is_device_class(c: Class) -> bool {
    c.0 == four_cc_chars('a', 'd', 'e', 'v') || c.0 == four_cc_chars('a', 'a', 'g', 'g')
}

/// The handles of the objects of device classes, in table order.
pub open spec fn device_ids(objs: Seq<ObjEntry>) -> Seq<u32>
    decreases objs.len(),
{
    if objs.len() == 0 {
        Seq::empty()
    } else {
        let init = device_ids(objs.drop_last());
        if is_device_class(objs.last().class) {
            init.push(objs.last().id)
        } else {
            init
        }
    }
}

/// The handles of the objects of one class, in table order.
pub open spec fn class_ids(objs: Seq<ObjEntry>, class: Class) -> Seq<u32>
    decreases objs.len(),
{
    if objs.len() == 0 {
        Seq::empty()
    } else {
        let init = class_ids(objs.drop_last(), class);
        if objs.last().class == class {
            init.push(objs.last().id)
        } else {
            init
        }
    }
}

/// Whether an object is the process object of process id `pid`.
pub open spec fn obj_matches_pid(o: ObjEntry, pid: i32) -> bool {
    &&& o.class.0 == four_cc_chars('p', 'r', 'o', 'c')
    &&& {
        let j = prop_index_of(
            o.props@,
            global_addr_spec(PropSelector(four_cc_chars('p', 'p', 'i', 'd'))),
        );
        j >= 0 && o.props@[j].value == PropValue::I32(pid)
    }
}

/// The handle of the first process object of process id `pid`, or zero --
/// the unknown handle -- when no process object has that id.
pub open spec fn pid_lookup(objs: Seq<ObjEntry>, pid: i32) -> u32
    decreases objs.len(),
{
    if objs.len() == 0 {
        0
    } else if obj_matches_pid(objs[0], pid) {
        objs[0].id
    } else {
        pid_lookup(objs.skip(1), pid)
    }
}

fn obj_matches_pid_exec(o: &ObjEntry, pid: i32) -> (r: bool)
    ensures
        r == obj_matches_pid(*o, pid),
{
    let proc_class = Class::process();
    if o.class.0 != proc_class.0 {
        return false;
    }
    let ppid_addr = PropSelector::process_pid().global_addr();
    match find_prop_index(&o.props, &ppid_addr) {
        Some(j) => match &o.props[j].value {
            PropValue::I32(x) => *x == pid,
            _ => false,
        },
        None => false,
    }
}

/// Whether an object is a device carrying the given uid.
pub open spec fn obj_matches_uid(o: ObjEntry, uid: Seq<char>) -> bool {
    &&& is_device_class(o.class)
    &&& {
        let j = prop_index_of(
            o.props@,
            global_addr_spec(PropSelector(four_cc_chars('u', 'i', 'd', ' '))),
        );
        j >= 0 && (o.props@[j].value matches PropValue::Str(s) && s@ == uid)
    }
}

/// The handle of the first device carrying the given uid, or zero -- the
/// unknown handle -- when no device carries it, which is not an error.
pub open spec fn uid_lookup(objs: Seq<ObjEntry>, uid: Seq<char>) -> u32
    decreases objs.len(),
{
    if objs.len() == 0 {
        0
    } else if obj_matches_uid(objs[0], uid) {
        objs[0].id
    } else {
        uid_lookup(objs.skip(1), uid)
    }
}

proof fn lemma_uid_lookup_skip_step(s: Seq<ObjEntry>, i: int, uid: Seq<char>)
    requires
        0 <= i < s.len(),
        !obj_matches_uid(s[i], uid),
    ensures
        uid_lookup(s.skip(i), uid) == uid_lookup(s.skip(i + 1), uid),
{
    assert(s.skip(i)[0] == s[i]);
    assert(s.skip(i).skip(1) =~= s.skip(i + 1));
}

fn obj_matches_uid_exec(o: &ObjEntry, uid: &String) -> (r: bool)
    ensures
        r == obj_matches_uid(*o, uid@),
{
    let dev_c = Class::device();
    let agg_c = Class::aggregate_device();
    if !(o.class.0 == dev_c.0 || o.class.0 == agg_c.0) {
        return false;
    }
    let uid_addr = PropSelector::device_uid().global_addr();
    match find_prop_index(&o.props, &uid_addr) {
        Some(j) => match &o.props[j].value {
            PropValue::Str(s) => *s == *uid,
            _ => false,
        },
        None => false,
    }
}

/// What a qualified property read answers.  The two translation selectors
/// of the system object turn the qualifier into a handle: a process id
/// into its process object, a device uid into its device, each answering
/// the unknown handle rather than an error when nothing matches, and the
/// wrong-size failure on a qualifier of the wrong shape.  Every other
/// address ignores the qualifier and reads as a plain get.
pub open spec fn spec_prop_with_qualifier(
    hw: Hardware,
    id: u32,
    addr: PropAddr,
    q: PropValue,
) -> Result<PropValue, Error> {
    if id == 1 && addr == global_addr_spec(PropSelector(four_cc_chars('i', 'd', '2', 'p'))) {
        match q {
            PropValue::I32(pid) => Ok(PropValue::U32(pid_lookup(hw.objects@, pid))),
            _ => Err(Error(bad_property_size_status())),
        }
    } else if id == 1 && addr == global_addr_spec(
        PropSelector(four_cc_chars('u', 'i', 'd', 'd')),
    ) {
        match q {
            PropValue::Str(uid) => Ok(PropValue::U32(uid_lookup(hw.objects@, uid@))),
            _ => Err(Error(bad_property_size_status())),
        }
    } else {
        spec_prop(hw, id, addr)
    }
}

proof fn lemma_pid_lookup_skip_step(s: Seq<ObjEntry>, i: int, pid: i32)
    requires
        0 <= i < s.len(),
        !obj_matches_pid(s[i], pid),
    ensures
        pid_lookup(s.skip(i), pid) == pid_lookup(s.skip(i + 1), pid),
{
    assert(s.skip(i)[0] == s[i]);
    assert(s.skip(i).skip(1) =~= s.skip(i + 1));
}

/// The property table a plain device is installed with: its uid, its name,
/// a settable io buffer frame size, and one stream layout per side, listed
/// on the wildcard element as the stream configuration call expects.
pub open spec fn device_props_spec(
    uid: String,
    name: String,
    input_channels: Vec<u32>,
    output_channels: Vec<u32>,
) -> Seq<PropEntry> {
    seq![
        PropEntry {
            addr: global_addr_spec(PropSelector(four_cc_chars('u', 'i', 'd', ' '))),
            value: PropValue::Str(uid),
            settable: false,
        },
        PropEntry {
            addr: global_addr_spec(PropSelector(four_cc_chars('l', 'n', 'a', 'm'))),
            value: PropValue::Str(name),
            settable: false,
        },
        PropEntry {
            addr: global_addr_spec(PropSelector(four_cc_chars('f', 's', 'i', 'z'))),
            value: PropValue::U32(512),
            settable: true,
        },
        PropEntry {
            addr: PropAddr {
                selector: PropSelector(four_cc_chars('s', 'l', 'a', 'y')),
                scope: PropScope(crate::core_audio::types::input_scope()),
                element: PropElement(0xFFFF_FFFFu32),
            },
            value: PropValue::U32s(input_channels),
            settable: false,
        },
        PropEntry {
            addr: PropAddr {
                selector: PropSelector(four_cc_chars('s', 'l', 'a', 'y')),
                scope: PropScope(crate::core_audio::types::output_scope()),
                element: PropElement(0xFFFF_FFFFu32),
            },
            value: PropValue::U32s(output_channels),
            settable: false,
        },
    ]
}

/// The property table a process object is installed with: its process id
/// and bundle id, the three settable io flags -- all idle -- and the
/// devices it uses.
pub open spec fn process_props_spec(pid: i32, bundle_id: String, devices: Vec<u32>) -> Seq<
    PropEntry,
> {
    seq![
        PropEntry {
            addr: global_addr_spec(PropSelector(four_cc_chars('p', 'p', 'i', 'd'))),
            value: PropValue::I32(pid),
            settable: false,
        },
        PropEntry {
            addr: global_addr_spec(PropSelector(four_cc_chars('p', 'b', 'i', 'd'))),
            value: PropValue::Str(bundle_id),
            settable: false,
        },
        PropEntry {
            addr: global_addr_spec(PropSelector(four_cc_chars('p', 'i', 'r', '?'))),
            value: PropValue::U32(0),
            settable: true,
        },
        PropEntry {
            addr: global_addr_spec(PropSelector(four_cc_chars('p', 'i', 'r', 'i'))),
            value: PropValue::U32(0),
            settable: true,
        },
        PropEntry {
            addr: global_addr_spec(PropSelector(four_cc_chars('p', 'i', 'r', 'o'))),
            value: PropValue::U32(0),
            settable: true,
        },
        PropEntry {
            addr: global_addr_spec(PropSelector(four_cc_chars('p', 'd', 'v', '#'))),
            value: PropValue::U32s(devices),
            settable: false,
        },
    ]
}

/// The property table an aggregate device is created with: its uid and
/// name from the composition, and the composition itself.
pub open spec fn aggregate_props_spec(desc: Composition) -> Seq<PropEntry> {
    seq![
        PropEntry {
            addr: global_addr_spec(PropSelector(four_cc_chars('u', 'i', 'd', ' '))),
            value: PropValue::Str(desc.uid),
            settable: false,
        },
        PropEntry {
            addr: global_addr_spec(PropSelector(four_cc_chars('l', 'n', 'a', 'm'))),
            value: PropValue::Str(desc.name),
            settable: false,
        },
        PropEntry {
            addr: global_addr_spec(PropSelector(four_cc_chars('a', 'c', 'o', 'm'))),
            value: PropValue::Composition(desc),
            settable: false,
        },
    ]
}

impl Hardware {
    /// Installs a plain device with the given uid, name and per-side
    /// stream layouts, under a fresh handle.  This is how the edge that
    /// reads the real plane populates the model.
    pub fn install_device(
        &mut self,
        uid: String,
        name: String,
        input_channels: Vec<u32>,
        output_channels: Vec<u32>,
    ) -> (r: Device)
        requires
            old(self).wf(),
            old(self).next_id < 0xFFFF_FFFFu32,
        ensures
            final(self).wf(),
            r == Device(Obj(old(self).next_id)),
            final(self).objects@.len() == old(self).objects@.len() + 1,
            final(self).objects@.subrange(0, old(self).objects@.len() as int) == old(
                self,
            ).objects@,
            final(self).objects@.last().id == old(self).next_id,
            final(self).objects@.last().class == Class(four_cc_chars('a', 'd', 'e', 'v')),
            final(self).objects@.last().base_class == Some(
                Class(four_cc_chars('a', 'o', 'b', 'j')),
            ),
            final(self).objects@.last().props@ == device_props_spec(
                uid,
                name,
                input_channels,
                output_channels,
            ),
            final(self).regs@ == old(self).regs@,
            final(self).pending@ == old(self).pending@,
            final(self).next_id == old(self).next_id + 1,
            final(self).default_input == old(self).default_input,
            final(self).default_output == old(self).default_output,
    {
        let id = self.next_id;
        let mut props: Vec<PropEntry> = Vec::new();
        props.push(
            PropEntry {
                addr: PropSelector::device_uid().global_addr(),
                value: PropValue::Str(uid),
                settable: false,
            },
        );
        props.push(
            PropEntry {
                addr: PropSelector::name().global_addr(),
                value: PropValue::Str(name),
                settable: false,
            },
        );
        props.push(
            PropEntry {
                addr: PropSelector::device_buf_frame_size().global_addr(),
                value: PropValue::U32(512),
                settable: true,
            },
        );
        props.push(
            PropEntry {
                addr: PropAddr {
                    selector: PropSelector::device_stream_cfg(),
                    scope: PropScope::input(),
                    element: PropElement::wildcard(),
                },
                value: PropValue::U32s(input_channels),
                settable: false,
            },
        );
        props.push(
            PropEntry {
                addr: PropAddr {
                    selector: PropSelector::device_stream_cfg(),
                    scope: PropScope::output(),
                    element: PropElement::wildcard(),
                },
                value: PropValue::U32s(output_channels),
                settable: false,
            },
        );
        let entry = ObjEntry {
            id,
            class: Class::device(),
            base_class: Some(Class::object()),
            props,
        };
        let ghost old_objs = self.objects@;
        self.objects.push(entry);
        self.next_id = id + 1;
        proof {
            assert(self.objects@.subrange(0, old_objs.len() as int) =~= old_objs);
            assert(self.objects@.last().props@ =~= device_props_spec(
                uid,
                name,
                input_channels,
                output_channels,
            ));
            assert forall|k1: int, k2: int|
                0 <= k1 < k2 < self.objects@.len() implies self.objects@[k1].id != self
                .objects@[k2].id by {
                if k2 == self.objects@.len() - 1 {
                    assert(old(self).wf());
                    assert(old_objs[k1].id < old(self).next_id);
                }
            }
        }
        Device(Obj(id))
    }

    /// Installs a process object with the given process id, bundle id and
    /// used devices, under a fresh handle.
    pub fn install_process(&mut self, pid: i32, bundle_id: String, devices: Vec<u32>) -> (r:
        Process)
        requires
            old(self).wf(),
            old(self).next_id < 0xFFFF_FFFFu32,
        ensures
            final(self).wf(),
            r == Process(Obj(old(self).next_id)),
            final(self).objects@.len() == old(self).objects@.len() + 1,
            final(self).objects@.subrange(0, old(self).objects@.len() as int) == old(
                self,
            ).objects@,
            final(self).objects@.last().id == old(self).next_id,
            final(self).objects@.last().class == Class(four_cc_chars('p', 'r', 'o', 'c')),
            final(self).objects@.last().base_class == Some(
                Class(four_cc_chars('a', 'o', 'b', 'j')),
            ),
            final(self).objects@.last().props@ == process_props_spec(pid, bundle_id, devices),
            final(self).regs@ == old(self).regs@,
            final(self).pending@ == old(self).pending@,
            final(self).next_id == old(self).next_id + 1,
            final(self).default_input == old(self).default_input,
            final(self).default_output == old(self).default_output,
    {
        let id = self.next_id;
        let mut props: Vec<PropEntry> = Vec::new();
        props.push(
            PropEntry {
                addr: PropSelector::process_pid().global_addr(),
                value: PropValue::I32(pid),
                settable: false,
            },
        );
        props.push(
            PropEntry {
                addr: PropSelector::process_bundle_id().global_addr(),
                value: PropValue::Str(bundle_id),
                settable: false,
            },
        );
        props.push(
            PropEntry {
                addr: PropSelector::process_is_running().global_addr(),
                value: PropValue::U32(0),
                settable: true,
            },
        );
        props.push(
            PropEntry {
                addr: PropSelector::process_is_running_input().global_addr(),
                value: PropValue::U32(0),
                settable: true,
            },
        );
        props.push(
            PropEntry {
                addr: PropSelector::process_is_running_output().global_addr(),
                value: PropValue::U32(0),
                settable: true,
            },
        );
        props.push(
            PropEntry {
                addr: PropSelector::process_devices().global_addr(),
                value: PropValue::U32s(devices),
                settable: false,
            },
        );
        let entry = ObjEntry {
            id,
            class: Class::process(),
            base_class: Some(Class::object()),
            props,
        };
        let ghost old_objs = self.objects@;
        self.objects.push(entry);
        self.next_id = id + 1;
        proof {
            assert(self.objects@.subrange(0, old_objs.len() as int) =~= old_objs);
            assert(self.objects@.last().props@ =~= process_props_spec(pid, bundle_id, devices));
            assert forall|k1: int, k2: int|
                0 <= k1 < k2 < self.objects@.len() implies self.objects@[k1].id != self
                .objects@[k2].id by {
                if k2 == self.objects@.len() - 1 {
                    assert(old(self).wf());
                    assert(old_objs[k1].id < old(self).next_id);
                }
            }
        }
        Process(Obj(id))
    }

    /// Marks a device as the system's default input device.
    pub fn set_default_input_device(&mut self, device: &Device)
        ensures
            *final(self) == (Hardware { default_input: device.0.0, ..*old(self) }),
    {
        self.default_input = device.0.0;
    }

    /// Marks a device as the system's default output device.
    pub fn set_default_output_device(&mut self, device: &Device)
        ensures
            *final(self) == (Hardware { default_output: device.0.0, ..*old(self) }),
    {
        self.default_output = device.0.0;
    }
}

impl System {
    /// The handle of the one system object.
    pub fn obj() -> (r: Obj)
        ensures
            r.0 == 1,
    {
        Obj(1)
    }

    /// Every device of the plane, plain and aggregate, in table order.
    pub fn devices(hw: &Hardware) -> (r: Result<Vec<Device>, Error>)
        ensures
            r is Ok,
            r->Ok_0@.len() == device_ids(hw.objects@).len(),
            forall|k: int|
                0 <= k < device_ids(hw.objects@).len() ==> r->Ok_0@[k] == Device(
                    Obj(device_ids(hw.objects@)[k]),
                ),
    {
        let mut out: Vec<Device> = Vec::new();
        let mut k: usize = 0;
        proof {
            assert(device_ids(hw.objects@.subrange(0, 0)) =~= Seq::<u32>::empty());
        }
        while k < hw.objects.len()
            invariant
                k <= hw.objects@.len(),
                out@.len() == device_ids(hw.objects@.subrange(0, k as int)).len(),
                forall|t: int|
                    0 <= t < out@.len() ==> out@[t] == Device(
                        Obj(device_ids(hw.objects@.subrange(0, k as int))[t]),
                    ),
            decreases hw.objects@.len() - k,
        {
            proof {
                assert(hw.objects@.subrange(0, k as int + 1).drop_last() =~= hw.objects@.subrange(
                    0,
                    k as int,
                ));
                assert(hw.objects@.subrange(0, k as int + 1).last() == hw.objects@[k as int]);
            }
            let c = hw.objects[k].class;
            let dev_c = Class::device();
            let agg_c = Class::aggregate_device();
            if c.0 == dev_c.0 || c.0 == agg_c.0 {
                out.push(Device(Obj(hw.objects[k].id)));
            }
            k += 1;
        }
        proof {
            assert(hw.objects@.subrange(0, hw.objects@.len() as int) =~= hw.objects@);
        }
        Ok(out)
    }

    /// The system's default input device; the unknown handle when none is
    /// set.
    pub fn default_input_device(hw: &Hardware) -> (r: Result<Device, Error>)
        ensures
            r == Ok::<Device, Error>(Device(Obj(hw.default_input))),
    {
        Ok(Device(Obj(hw.default_input)))
    }

    /// The system's default output device; the unknown handle when none is
    /// set.
    pub fn default_output_device(hw: &Hardware) -> (r: Result<Device, Error>)
        ensures
            r == Ok::<Device, Error>(Device(Obj(hw.default_output))),
    {
        Ok(Device(Obj(hw.default_output)))
    }
}

impl Process {
    /// The process id behind this process object.
    pub fn pid(&self, hw: &Hardware) -> (r: Result<i32, Error>)
        ensures
            r == spec_i32_prop(
                *hw,
                self.0.0,
                global_addr_spec(PropSelector(four_cc_chars('p', 'p', 'i', 'd'))),
            ),
    {
        let oi = match find_obj_index(&hw.objects, self.0.0) {
            Some(i) => i,
            None => {
                return Err(Error(Status::bad_object()));
            },
        };
        let addr = PropSelector::process_pid().global_addr();
        let pi = match find_prop_index(&hw.objects[oi].props, &addr) {
            Some(j) => j,
            None => {
                return Err(Error(Status::unknown_property()));
            },
        };
        match &hw.objects[oi].props[pi].value {
            PropValue::I32(x) => Ok(*x),
            _ => Err(Error(Status::bad_property_size())),
        }
    }

    /// The bundle identifier of the process.
    pub fn bundle_id(&self, hw: &Hardware) -> (r: Result<String, Error>)
        ensures
            r == spec_str_prop(
                *hw,
                self.0.0,
                global_addr_spec(PropSelector(four_cc_chars('p', 'b', 'i', 'd'))),
            ),
    {
        self.0.cf_prop(hw, &PropSelector::process_bundle_id().global_addr())
    }

    /// Whether audio io runs in the process.
    pub fn is_running(&self, hw: &Hardware) -> (r: Result<bool, Error>)
        ensures
            r == spec_bool_prop(
                *hw,
                self.0.0,
                global_addr_spec(PropSelector(four_cc_chars('p', 'i', 'r', '?'))),
            ),
    {
        self.0.bool_prop(hw, &PropSelector::process_is_running().global_addr())
    }

    /// Whether the process runs io with an active input stream.
    pub fn is_running_input(&self, hw: &Hardware) -> (r: Result<bool, Error>)
        ensures
            r == spec_bool_prop(
                *hw,
                self.0.0,
                global_addr_spec(PropSelector(four_cc_chars('p', 'i', 'r', 'i'))),
            ),
    {
        self.0.bool_prop(hw, &PropSelector::process_is_running_input().global_addr())
    }

    /// Whether the process runs io with an active output stream.
    pub fn is_running_output(&self, hw: &Hardware) -> (r: Result<bool, Error>)
        ensures
            r == spec_bool_prop(
                *hw,
                self.0.0,
                global_addr_spec(PropSelector(four_cc_chars('p', 'i', 'r', 'o'))),
            ),
    {
        self.0.bool_prop(hw, &PropSelector::process_is_running_output().global_addr())
    }

    /// The devices the process currently uses.
    pub fn devices(&self, hw: &Hardware) -> (r: Result<Vec<Device>, Error>)
        ensures
            match (
                r,
                spec_u32s_prop(
                    *hw,
                    self.0.0,
                    global_addr_spec(PropSelector(four_cc_chars('p', 'd', 'v', '#'))),
                ),
            ) {
                (Ok(ds), Ok(v)) => ds@.len() == v@.len() && forall|t: int|
                    0 <= t < v@.len() ==> ds@[t] == Device(Obj(v@[t])),
                (Err(re), Err(e)) => re == e,
                _ => false,
            },
    {
        let ids = match self.0.prop_vec(hw, &PropSelector::process_devices().global_addr()) {
            Ok(v) => v,
            Err(e) => {
                return Err(e);
            },
        };
        let mut out: Vec<Device> = Vec::new();
        let mut k: usize = 0;
        while k < ids.len()
            invariant
                k <= ids@.len(),
                out@.len() == k,
                forall|t: int| 0 <= t < k ==> out@[t] == Device(Obj(ids@[t])),
            decreases ids@.len() - k,
        {
            out.push(Device(Obj(ids[k])));
            k += 1;
        }
        Ok(out)
    }

    /// The process object behind a process id; the unknown handle when the
    /// id names no process, which is not an error.
    pub fn with_pid(hw: &Hardware, pid: i32) -> (r: Result<Process, Error>)
        ensures
            r == Ok::<Process, Error>(Process(Obj(pid_lookup(hw.objects@, pid)))),
    {
        let mut k: usize = 0;
        proof {
            assert(hw.objects@.skip(0) =~= hw.objects@);
        }
        while k < hw.objects.len()
            invariant
                k <= hw.objects@.len(),
                pid_lookup(hw.objects@, pid) == pid_lookup(hw.objects@.skip(k as int), pid),
            decreases hw.objects@.len() - k,
        {
            let matches_here = obj_matches_pid_exec(&hw.objects[k], pid);
            proof {
                assert(hw.objects@.skip(k as int)[0] == hw.objects@[k as int]);
            }
            if matches_here {
                return Ok(Process(Obj(hw.objects[k].id)));
            }
            proof {
                lemma_pid_lookup_skip_step(hw.objects@, k as int, pid);
            }
            k += 1;
        }
        proof {
            assert(hw.objects@.skip(k as int).len() == 0);
        }
        Ok(Process(Obj(0)))
    }

    /// Every process object of the plane, in table order.
    pub fn list(hw: &Hardware) -> (r: Result<Vec<Process>, Error>)
        ensures
            r is Ok,
            r->Ok_0@.len() == class_ids(
                hw.objects@,
                Class(four_cc_chars('p', 'r', 'o', 'c')),
            ).len(),
            forall|k: int|
                0 <= k < r->Ok_0@.len() ==> r->Ok_0@[k] == Process(
                    Obj(class_ids(hw.objects@, Class(four_cc_chars('p', 'r', 'o', 'c')))[k]),
                ),
    {
        let proc_class = Class::process();
        let mut out: Vec<Process> = Vec::new();
        let mut k: usize = 0;
        proof {
            assert(class_ids(hw.objects@.subrange(0, 0), proc_class) =~= Seq::<u32>::empty());
        }
        while k < hw.objects.len()
            invariant
                k <= hw.objects@.len(),
                proc_class == Class(four_cc_chars('p', 'r', 'o', 'c')),
                out@.len() == class_ids(hw.objects@.subrange(0, k as int), proc_class).len(),
                forall|t: int|
                    0 <= t < out@.len() ==> out@[t] == Process(
                        Obj(class_ids(hw.objects@.subrange(0, k as int), proc_class)[t]),
                    ),
            decreases hw.objects@.len() - k,
        {
            proof {
                assert(hw.objects@.subrange(0, k as int + 1).drop_last() =~= hw.objects@.subrange(
                    0,
                    k as int,
                ));
                assert(hw.objects@.subrange(0, k as int + 1).last() == hw.objects@[k as int]);
            }
            if hw.objects[k].class.0 == proc_class.0 {
                out.push(Process(Obj(hw.objects[k].id)));
            }
            k += 1;
        }
        proof {
            assert(hw.objects@.subrange(0, hw.objects@.len() as int) =~= hw.objects@);
        }
        Ok(out)
    }
}

impl Device {
    /// The persistent uid of the device.
    pub fn uid(&self, hw: &Hardware) -> (r: Result<String, Error>)
        ensures
            r == spec_str_prop(
                *hw,
                self.0.0,
                global_addr_spec(PropSelector(four_cc_chars('u', 'i', 'd', ' '))),
            ),
    {
        self.0.cf_prop(hw, &PropSelector::device_uid().global_addr())
    }

    /// The stream configuration of one side of the device: one buffer per
    /// stream, carrying its channel count and no data.
    pub fn stream_cfg(&self, hw: &Hardware, scope: PropScope) -> (r: Result<AudioBufList, Error>)
        ensures
            match (
                r,
                spec_u32s_prop(
                    *hw,
                    self.0.0,
                    PropAddr {
                        selector: PropSelector(four_cc_chars('s', 'l', 'a', 'y')),
                        scope,
                        element: PropElement(0xFFFF_FFFFu32),
                    },
                ),
            ) {
                (Ok(cfg), Ok(v)) => cfg.buffers@.len() == v@.len() && forall|t: int|
                    0 <= t < v@.len() ==> cfg.buffers@[t] == (AudioBuf {
                        number_channels: v@[t],
                        data_byte_size: 0,
                    }),
                (Err(re), Err(e)) => re == e,
                _ => false,
            },
    {
        let addr = PropAddr {
            selector: PropSelector::device_stream_cfg(),
            scope,
            element: PropElement::wildcard(),
        };
        let chans = match self.0.prop_vec(hw, &addr) {
            Ok(v) => v,
            Err(e) => {
                return Err(e);
            },
        };
        let mut bufs: Vec<AudioBuf> = Vec::new();
        let mut k: usize = 0;
        while k < chans.len()
            invariant
                k <= chans@.len(),
                bufs@.len() == k,
                forall|t: int|
                    0 <= t < k ==> bufs@[t] == (AudioBuf {
                        number_channels: chans@[t],
                        data_byte_size: 0,
                    }),
            decreases chans@.len() - k,
        {
            bufs.push(AudioBuf { number_channels: chans[k], data_byte_size: 0 });
            k += 1;
        }
        Ok(AudioBufList { buffers: bufs })
    }

    /// The stream configuration of the input side.
    pub fn input_stream_cfg(&self, hw: &Hardware) -> (r: Result<AudioBufList, Error>)
        ensures
            match (
                r,
                spec_u32s_prop(
                    *hw,
                    self.0.0,
                    PropAddr {
                        selector: PropSelector(four_cc_chars('s', 'l', 'a', 'y')),
                        scope: PropScope(crate::core_audio::types::input_scope()),
                        element: PropElement(0xFFFF_FFFFu32),
                    },
                ),
            ) {
                (Ok(cfg), Ok(v)) => cfg.buffers@.len() == v@.len() && forall|t: int|
                    0 <= t < v@.len() ==> cfg.buffers@[t] == (AudioBuf {
                        number_channels: v@[t],
                        data_byte_size: 0,
                    }),
                (Err(re), Err(e)) => re == e,
                _ => false,
            },
    {
        self.stream_cfg(hw, PropScope::input())
    }

    /// The stream configuration of the output side.
    pub fn output_stream_cfg(&self, hw: &Hardware) -> (r: Result<AudioBufList, Error>)
        ensures
            match (
                r,
                spec_u32s_prop(
                    *hw,
                    self.0.0,
                    PropAddr {
                        selector: PropSelector(four_cc_chars('s', 'l', 'a', 'y')),
                        scope: PropScope(crate::core_audio::types::output_scope()),
                        element: PropElement(0xFFFF_FFFFu32),
                    },
                ),
            ) {
                (Ok(cfg), Ok(v)) => cfg.buffers@.len() == v@.len() && forall|t: int|
                    0 <= t < v@.len() ==> cfg.buffers@[t] == (AudioBuf {
                        number_channels: v@[t],
                        data_byte_size: 0,
                    }),
                (Err(re), Err(e)) => re == e,
                _ => false,
            },
    {
        self.stream_cfg(hw, PropScope::output())
    }
}

impl AggregateDevice {
    /// Creates an aggregate device from a composition, under a fresh
    /// handle.  The new object is a device: it appears in the system's
    /// device list until it is destroyed.
    pub fn with_desc(hw: &mut Hardware, desc: Composition) -> (r: Result<AggregateDevice, Error>)
        requires
            old(hw).wf(),
            old(hw).next_id < 0xFFFF_FFFFu32,
        ensures
            final(hw).wf(),
            r == Ok::<AggregateDevice, Error>(
                AggregateDevice(Device(Obj(old(hw).next_id))),
            ),
            final(hw).objects@.len() == old(hw).objects@.len() + 1,
            final(hw).objects@.subrange(0, old(hw).objects@.len() as int) == old(hw).objects@,
            final(hw).objects@.last().id == old(hw).next_id,
            final(hw).objects@.last().class == Class(four_cc_chars('a', 'a', 'g', 'g')),
            final(hw).objects@.last().base_class == Some(
                Class(four_cc_chars('a', 'd', 'e', 'v')),
            ),
            final(hw).objects@.last().props@ == aggregate_props_spec(desc),
            final(hw).regs@ == old(hw).regs@,
            final(hw).pending@ == old(hw).pending@,
            final(hw).next_id == old(hw).next_id + 1,
            final(hw).default_input == old(hw).default_input,
            final(hw).default_output == old(hw).default_output,
    {
        let id = hw.next_id;
        let mut props: Vec<PropEntry> = Vec::new();
        props.push(
            PropEntry {
                addr: PropSelector::device_uid().global_addr(),
                value: PropValue::Str(desc.uid.clone()),
                settable: false,
            },
        );
        props.push(
            PropEntry {
                addr: PropSelector::name().global_addr(),
                value: PropValue::Str(desc.name.clone()),
                settable: false,
            },
        );
        props.push(
            PropEntry {
                addr: PropSelector::aggregate_device_composition().global_addr(),
                value: PropValue::Composition(desc),
                settable: false,
            },
        );
        let entry = ObjEntry {
            id,
            class: Class::aggregate_device(),
            base_class: Some(Class::device()),
            props,
        };
        let ghost old_objs = hw.objects@;
        hw.objects.push(entry);
        hw.next_id = id + 1;
        proof {
            assert(hw.objects@.subrange(0, old_objs.len() as int) =~= old_objs);
            assert(hw.objects@.last().props@ =~= aggregate_props_spec(desc));
            assert forall|k1: int, k2: int|
                0 <= k1 < k2 < hw.objects@.len() implies hw.objects@[k1].id != hw
                .objects@[k2].id by {
                if k2 == hw.objects@.len() - 1 {
                    assert(old(hw).wf());
                    assert(old_objs[k1].id < old(hw).next_id);
                }
            }
        }
        Ok(AggregateDevice(Device(Obj(id))))
    }

    /// The composition the aggregate device was created with.
    pub fn composition<'a>(&self, hw: &'a Hardware) -> (r: Result<&'a Composition, Error>)
        ensures
            match (
                r,
                spec_prop(
                    *hw,
                    self.0.0.0,
                    global_addr_spec(PropSelector(four_cc_chars('a', 'c', 'o', 'm'))),
                ),
            ) {
                (Ok(c), Ok(v)) => v == PropValue::Composition(*c),
                (Err(re), Err(e)) => re == e,
                (Err(re), Ok(v)) => !(v is Composition) && re == Error(
                    bad_property_size_status(),
                ),
                _ => false,
            },
    {
        let oi = match find_obj_index(&hw.objects, self.0.0.0) {
            Some(i) => i,
            None => {
                return Err(Error(Status::bad_object()));
            },
        };
        let addr = PropSelector::aggregate_device_composition().global_addr();
        let pi = match find_prop_index(&hw.objects[oi].props, &addr) {
            Some(j) => j,
            None => {
                return Err(Error(Status::unknown_property()));
            },
        };
        match &hw.objects[oi].props[pi].value {
            PropValue::Composition(c) => Ok(c),
            _ => Err(Error(Status::bad_property_size())),
        }
    }

    /// Destroys the aggregate device: its object leaves the plane, so it
    /// no longer appears in the system's device list.  Destroy consumes
    /// the handle, so the teardown can fire at most once per creation.
    pub fn destroy(self, hw: &mut Hardware) -> (r: Result<(), Error>)
        ensures
            old(hw).spec_has_obj(self.0.0.0) ==> r == Ok::<(), Error>(()) && final(hw).objects@
                == old(hw).objects@.remove(obj_index_of(old(hw).objects@, self.0.0.0)),
            !old(hw).spec_has_obj(self.0.0.0) ==> r == Err::<(), Error>(
                Error(bad_object_status()),
            ) && final(hw).objects@ == old(hw).objects@,
            old(hw).wf() ==> final(hw).wf(),
            final(hw).regs@ == old(hw).regs@,
            final(hw).pending@ == old(hw).pending@,
            final(hw).next_id == old(hw).next_id,
            final(hw).default_input == old(hw).default_input,
            final(hw).default_output == old(hw).default_output,
    {
        let oi = match find_obj_index(&hw.objects, self.0.0.0) {
            Some(i) => i,
            None => {
                return Err(Error(Status::bad_object()));
            },
        };
        let ghost old_objs = hw.objects@;
        hw.objects.remove(oi);
        proof {
            if old(hw).wf() {
                assert forall|k: int|
                    0 <= k < hw.objects@.len() implies 1 <= #[trigger] hw.objects@[k].id < hw
                    .next_id by {
                    if k < oi {
                        assert(hw.objects@[k] == old_objs[k]);
                    } else {
                        assert(hw.objects@[k] == old_objs[k + 1]);
                    }
                }
                assert forall|k1: int, k2: int|
                    0 <= k1 < k2 < hw.objects@.len() implies hw.objects@[k1].id != hw
                    .objects@[k2].id by {
                    let a1: int = if k1 < oi {
                        k1
                    } else {
                        k1 + 1
                    };
                    let a2: int = if k2 < oi {
                        k2
                    } else {
                        k2 + 1
                    };
                    assert(hw.objects@[k1] == old_objs[a1]);
                    assert(hw.objects@[k2] == old_objs[a2]);
                }
            }
        }
        Ok(())
    }
}

} // verus!
