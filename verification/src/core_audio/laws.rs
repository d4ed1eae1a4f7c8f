//! The laws the audio object plane obeys, stated over its model and proved
//! for every state: a written property reads back exactly, a covering
//! listener is notified and a removed one is not, and creating or
//! destroying an object adds it to or removes it from the device list
//! exactly once.

use vstd::prelude::*;

use crate::core_audio::hardware::{
    device_ids, is_device_class, notices_for, obj_index_of, prop_index_of, reg_covers,
    regs_without, set_prop_transition, spec_prop, spec_set_outcome, Hardware, lemma_obj_index_of,
    lemma_prop_index_of, Notice, ObjEntry, PropEntry, PropValue, Registration,
};
use crate::core_audio::types::{PropAddr, PropSelector};
use crate::four_cc::four_cc_chars;
use crate::os::Error;

verus! {

proof fn lemma_obj_index_same_ids(s1: Seq<ObjEntry>, s2: Seq<ObjEntry>, id: u32)
    requires
        s1.len() == s2.len(),
        forall|k: int| 0 <= k < s1.len() ==> s1[k].id == s2[k].id,
    ensures
        obj_index_of(s1, id) == obj_index_of(s2, id),
    decreases s1.len(),
{
    if s1.len() > 0 {
        assert(s1[0].id == s2[0].id);
        if s1[0].id != id {
            assert forall|k: int| 0 <= k < s1.skip(1).len() implies s1.skip(1)[k].id == s2.skip(
                1,
            )[k].id by {
                assert(s1.skip(1)[k] == s1[k + 1]);
                assert(s2.skip(1)[k] == s2[k + 1]);
            }
            lemma_obj_index_same_ids(s1.skip(1), s2.skip(1), id);
        }
    }
}

proof fn lemma_prop_index_of_update(s: Seq<PropEntry>, j: int, e: PropEntry, a: PropAddr)
    requires
        0 <= j < s.len(),
        s[j].addr == e.addr,
    ensures
        prop_index_of(s.update(j, e), a) == prop_index_of(s, a),
    decreases s.len(),
{
    let s2 = s.update(j, e);
    assert(s2.len() == s.len());
    if j == 0 {
        assert(s2[0].addr == s[0].addr);
        if s[0].addr != a {
            assert(s2.skip(1) =~= s.skip(1));
        }
    } else {
        assert(s2[0] == s[0]);
        if s[0].addr != a {
            assert(s2.skip(1) =~= s.skip(1).update(j - 1, e));
            assert(s.skip(1)[j - 1] == s[j]);
            lemma_prop_index_of_update(s.skip(1), j - 1, e, a);
        }
    }
}

/// Round trip of the generic property calls: after a successful write of a
/// value at an address, a read of that address returns exactly the written
/// value, and every other property of every object reads as before.
pub proof fn lemma_set_then_get(pre: Hardware, post: Hardware, id: u32, addr: PropAddr, v: PropValue)
    requires
        spec_set_outcome(pre, id, addr, v) is Ok,
        set_prop_transition(pre, post, id, addr, v),
    ensures
        spec_prop(post, id, addr) == Ok::<PropValue, Error>(v),
        forall|id2: u32, a2: PropAddr|
            !(id2 == id && a2 == addr) ==> spec_prop(post, id2, a2) == spec_prop(pre, id2, a2),
{
    let i = obj_index_of(pre.objects@, id);
    let o = pre.objects@[i];
    let j = prop_index_of(o.props@, addr);
    let e = PropEntry { addr, value: v, settable: true };
    lemma_obj_index_of(pre.objects@, id);
    lemma_prop_index_of(o.props@, addr);
    assert forall|k: int| 0 <= k < pre.objects@.len() implies post.objects@[k].id == pre
        .objects@[k].id by {}
    lemma_obj_index_same_ids(post.objects@, pre.objects@, id);
    lemma_prop_index_of_update(o.props@, j, e, addr);
    assert(spec_prop(post, id, addr) == Ok::<PropValue, Error>(v));
    assert forall|id2: u32, a2: PropAddr| !(id2 == id && a2 == addr) implies spec_prop(
        post,
        id2,
        a2,
    ) == spec_prop(pre, id2, a2) by {
        lemma_obj_index_same_ids(post.objects@, pre.objects@, id2);
        let i2 = obj_index_of(pre.objects@, id2);
        if i2 >= 0 {
            lemma_obj_index_of(pre.objects@, id2);
            if i2 != i {
                assert(post.objects@[i2] == pre.objects@[i2]);
            } else {
                assert(id2 == id);
                lemma_prop_index_of_update(o.props@, j, e, a2);
                let j2 = prop_index_of(o.props@, a2);
                if j2 >= 0 {
                    lemma_prop_index_of(o.props@, a2);
                    assert(o.props@[j2].addr == a2);
                    assert(j2 != j);
                    assert(o.props@.update(j, e)[j2] == o.props@[j2]);
                }
            }
        }
    }
}

proof fn lemma_notices_for_covering(regs: Seq<Registration>, id: u32, a: PropAddr, k: int)
    requires
        0 <= k < regs.len(),
        reg_covers(regs[k], id, a),
    ensures
        notices_for(regs, id, a).contains(
            Notice { listener: regs[k].listener, obj_id: id, addr: a },
        ),
    decreases regs.len(),
{
    let n = Notice { listener: regs[k].listener, obj_id: id, addr: a };
    let init = notices_for(regs.drop_last(), id, a);
    if k == regs.len() - 1 {
        let full = init.push(n);
        assert(full[full.len() - 1] == n);
        assert(full.contains(n));
    } else {
        assert(regs.drop_last()[k] == regs[k]);
        lemma_notices_for_covering(regs.drop_last(), id, a, k);
        let t = choose|t: int| 0 <= t < init.len() && init[t] == n;
        if reg_covers(regs.last(), id, a) {
            assert(notices_for(regs, id, a)[t] == n);
        } else {
            assert(notices_for(regs, id, a)[t] == n);
        }
    }
}

/// A listener registered with a covering address hears of a successful
/// write: among the notices the write queues stands one carrying the
/// changed address, addressed to that listener.
pub proof fn lemma_set_notifies_listener(
    pre: Hardware,
    post: Hardware,
    id: u32,
    addr: PropAddr,
    v: PropValue,
    k: int,
)
    requires
        spec_set_outcome(pre, id, addr, v) is Ok,
        set_prop_transition(pre, post, id, addr, v),
        0 <= k < pre.regs@.len(),
        reg_covers(pre.regs@[k], id, addr),
    ensures
        post.pending@.skip(pre.pending@.len() as int).contains(
            Notice { listener: pre.regs@[k].listener, obj_id: id, addr },
        ),
{
    lemma_notices_for_covering(pre.regs@, id, addr, k);
    assert(post.pending@.skip(pre.pending@.len() as int) =~= notices_for(pre.regs@, id, addr));
}

proof fn lemma_without_no_listener(regs: Seq<Registration>, id: u32, a: PropAddr, l: u64)
    requires
        forall|k: int|
            0 <= k < regs.len() && regs[k].listener == l ==> regs[k].obj_id == id && regs[k].addr
                == a,
    ensures
        forall|t: int|
            0 <= t < regs_without(regs, id, a, l).len() ==> regs_without(regs, id, a, l)[t].listener
                != l,
    decreases regs.len(),
{
    if regs.len() > 0 {
        assert(forall|k: int|
            0 <= k < regs.drop_last().len() ==> regs.drop_last()[k] == regs[k]);
        lemma_without_no_listener(regs.drop_last(), id, a, l);
        let init = regs_without(regs.drop_last(), id, a, l);
        let last = regs.last();
        if !(last.obj_id == id && last.addr == a && last.listener == l) {
            assert(last == regs[regs.len() - 1]);
            assert forall|t: int|
                0 <= t < regs_without(regs, id, a, l).len() implies regs_without(
                regs,
                id,
                a,
                l,
            )[t].listener != l by {
                if t < init.len() {
                    assert(regs_without(regs, id, a, l)[t] == init[t]);
                } else {
                    assert(regs_without(regs, id, a, l)[t] == last);
                }
            }
        }
    }
}

proof fn lemma_no_cover_no_notice(regs: Seq<Registration>, id: u32, a: PropAddr, l: u64)
    requires
        forall|k: int|
            0 <= k < regs.len() ==> !(regs[k].listener == l && reg_covers(regs[k], id, a)),
    ensures
        forall|t: int|
            0 <= t < notices_for(regs, id, a).len() ==> notices_for(regs, id, a)[t].listener != l,
    decreases regs.len(),
{
    if regs.len() > 0 {
        assert(forall|k: int|
            0 <= k < regs.drop_last().len() ==> regs.drop_last()[k] == regs[k]);
        lemma_no_cover_no_notice(regs.drop_last(), id, a, l);
        let init = notices_for(regs.drop_last(), id, a);
        if reg_covers(regs.last(), id, a) {
            assert(regs.last() == regs[regs.len() - 1]);
            assert(regs.last().listener != l);
            assert forall|t: int|
                0 <= t < notices_for(regs, id, a).len() implies notices_for(regs, id, a)[t].listener
                != l by {
                if t < init.len() {
                    assert(notices_for(regs, id, a)[t] == init[t]);
                }
            }
        }
    }
}

/// Unregistering silences a listener: once its registrations -- all of
/// which named one object and address -- are removed, no later write
/// queues a notice for it, whatever object and address the write touches.
pub proof fn lemma_removed_listener_hears_nothing(
    regs: Seq<Registration>,
    id: u32,
    a: PropAddr,
    l: u64,
    change_id: u32,
    change_addr: PropAddr,
)
    requires
        forall|k: int|
            0 <= k < regs.len() && regs[k].listener == l ==> regs[k].obj_id == id && regs[k].addr
                == a,
    ensures
        forall|t: int|
            0 <= t < notices_for(regs_without(regs, id, a, l), change_id, change_addr).len()
                ==> notices_for(regs_without(regs, id, a, l), change_id, change_addr)[t].listener
                != l,
{
    lemma_without_no_listener(regs, id, a, l);
    lemma_no_cover_no_notice(regs_without(regs, id, a, l), change_id, change_addr, l);
}

proof fn lemma_device_ids_contains(objs: Seq<ObjEntry>, id: u32)
    ensures
        device_ids(objs).contains(id) <==> exists|k: int|
            0 <= k < objs.len() && objs[k].id == id && is_device_class(#[trigger] objs[k].class),
    decreases objs.len(),
{
    if objs.len() > 0 {
        lemma_device_ids_contains(objs.drop_last(), id);
        let init = device_ids(objs.drop_last());
        let full = device_ids(objs);
        if is_device_class(objs.last().class) {
            assert(full == init.push(objs.last().id));
            if device_ids(objs).contains(id) {
                let t = choose|t: int| 0 <= t < full.len() && full[t] == id;
                if t < init.len() {
                    assert(init[t] == id);
                    assert(init.contains(id));
                    let k = choose|k: int|
                        0 <= k < objs.drop_last().len() && objs.drop_last()[k].id == id
                            && is_device_class(#[trigger] objs.drop_last()[k].class);
                    assert(objs[k] == objs.drop_last()[k]);
                    assert(objs[k].id == id && is_device_class(objs[k].class));
                } else {
                    assert(objs.last().id == id);
                    assert(objs[objs.len() - 1].id == id && is_device_class(
                        objs[objs.len() - 1].class,
                    ));
                }
            }
            if exists|k: int|
                0 <= k < objs.len() && objs[k].id == id && is_device_class(
                    #[trigger] objs[k].class,
                ) {
                let k = choose|k: int|
                    0 <= k < objs.len() && objs[k].id == id && is_device_class(
                        #[trigger] objs[k].class,
                    );
                if k < objs.len() - 1 {
                    assert(objs.drop_last()[k] == objs[k]);
                    assert(init.contains(id));
                    let t = choose|t: int| 0 <= t < init.len() && init[t] == id;
                    assert(full[t] == id);
                } else {
                    assert(full[full.len() - 1] == id);
                }
                assert(full.contains(id));
            }
        } else {
            assert(full == init);
            if device_ids(objs).contains(id) {
                let k = choose|k: int|
                    0 <= k < objs.drop_last().len() && objs.drop_last()[k].id == id
                        && is_device_class(#[trigger] objs.drop_last()[k].class);
                assert(objs[k] == objs.drop_last()[k]);
                assert(objs[k].id == id && is_device_class(objs[k].class));
            }
            if exists|k: int|
                0 <= k < objs.len() && objs[k].id == id && is_device_class(
                    #[trigger] objs[k].class,
                ) {
                let k = choose|k: int|
                    0 <= k < objs.len() && objs[k].id == id && is_device_class(
                        #[trigger] objs[k].class,
                    );
                if k < objs.len() - 1 {
                    assert(objs.drop_last()[k] == objs[k]);
                } else {
                    assert(!is_device_class(objs[k].class));
                }
                assert(init.contains(id));
            }
        }
    }
}

/// A created object is present: a plane extended with an object answers
/// for its handle.
pub proof fn lemma_created_object_present(objs: Seq<ObjEntry>, e: ObjEntry)
    ensures
        obj_index_of(objs.push(e), e.id) >= 0,
{
    let full = objs.push(e);
    lemma_obj_index_of(full, e.id);
    if obj_index_of(full, e.id) < 0 {
        assert(full[full.len() - 1].id != e.id);
        assert(false);
    }
}

/// Creating an object of a device class lists it: a plane extended with
/// such an object reports its handle among the devices.
pub proof fn lemma_created_device_listed(objs: Seq<ObjEntry>, e: ObjEntry)
    requires
        is_device_class(e.class),
    ensures
        device_ids(objs.push(e)).contains(e.id),
        obj_index_of(objs.push(e), e.id) >= 0,
{
    let full = objs.push(e);
    assert(full.drop_last() =~= objs);
    assert(full.last() == e);
    assert(device_ids(full) == device_ids(objs).push(e.id));
    assert(device_ids(full)[device_ids(full).len() - 1] == e.id);
    lemma_created_object_present(objs, e);
}

/// Destroying a device unlists it exactly once: with unique handles, the
/// removed handle is gone from the plane and from the device list, while
/// every other handle is listed exactly as before.
pub proof fn lemma_destroyed_device_unlisted(objs: Seq<ObjEntry>, i: int)
    requires
        0 <= i < objs.len(),
        forall|k1: int, k2: int| 0 <= k1 < k2 < objs.len() ==> objs[k1].id != objs[k2].id,
    ensures
        obj_index_of(objs.remove(i), objs[i].id) == -1,
        !device_ids(objs.remove(i)).contains(objs[i].id),
        forall|id2: u32|
            id2 != objs[i].id ==> (device_ids(objs.remove(i)).contains(id2) <==> device_ids(
                objs,
            ).contains(id2)),
{
    let removed = objs.remove(i);
    let id = objs[i].id;
    lemma_obj_index_of(removed, id);
    if obj_index_of(removed, id) >= 0 {
        let t = obj_index_of(removed, id);
        let orig: int = if t < i {
            t
        } else {
            t + 1
        };
        assert(removed[t] == objs[orig]);
        assert(objs[orig].id == id && orig != i);
        assert(false);
    }
    lemma_device_ids_contains(removed, id);
    if device_ids(removed).contains(id) {
        let k = choose|k: int|
            0 <= k < removed.len() && removed[k].id == id && is_device_class(
                #[trigger] removed[k].class,
            );
        let orig: int = if k < i {
            k
        } else {
            k + 1
        };
        assert(removed[k] == objs[orig]);
        assert(false);
    }
    assert forall|id2: u32| id2 != id implies (device_ids(removed).contains(id2) <==> device_ids(
        objs,
    ).contains(id2)) by {
        lemma_device_ids_contains(removed, id2);
        lemma_device_ids_contains(objs, id2);
        if device_ids(removed).contains(id2) {
            let k = choose|k: int|
                0 <= k < removed.len() && removed[k].id == id2 && is_device_class(
                    #[trigger] removed[k].class,
                );
            let orig: int = if k < i {
                k
            } else {
                k + 1
            };
            assert(removed[k] == objs[orig]);
            assert(objs[orig].id == id2 && is_device_class(objs[orig].class));
        }
        if device_ids(objs).contains(id2) {
            let k = choose|k: int|
                0 <= k < objs.len() && objs[k].id == id2 && is_device_class(
                    #[trigger] objs[k].class,
                );
            assert(k != i);
            let new_k: int = if k < i {
                k
            } else {
                k - 1
            };
            assert(removed[new_k] == objs[k]);
            assert(removed[new_k].id == id2 && is_device_class(removed[new_k].class));
        }
    }
}

/// Two selectors of different object classes share one code: the clock
/// device selector of a plain device and that of an aggregate device both
/// pack the same mnemonic.  Both names are kept; this records that they
/// collide by value rather than letting the pair be deduplicated silently.
pub proof fn lemma_clock_device_selector_collision()
    ensures
        sel_device_clock_device() == sel_aggregate_device_clock_device(),
{
}

/// The code behind [`PropSelector::device_clock_device`].
pub open spec fn sel_device_clock_device() -> PropSelector {
    PropSelector(four_cc_chars('a', 'p', 'c', 'd'))
}

/// The code behind [`PropSelector::aggregate_device_clock_device`].
pub open spec fn sel_aggregate_device_clock_device() -> PropSelector {
    PropSelector(four_cc_chars('a', 'p', 'c', 'd'))
}

} // verus!
