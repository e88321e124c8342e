//! Which extended attributes to copy and which to remove.
//!
//! Attributes whose name starts with `system.` belong to the operating system:
//! they are neither copied nor removed.

use vstd::prelude::*;
use crate::bytes::{contains_name, copy_bytes, names_of, starts_with};
use crate::text::{ascii, text_bytes};

verus! {

/// What the names of reserved attributes begin with.
pub open spec fn reserved_prefix() -> Seq<u8> {
    ascii("system."@)
}

/// Whether an attribute of this name is left alone.
pub open spec fn is_reserved(name: Seq<u8>) -> bool {
    reserved_prefix().len() <= name.len() && name.subrange(0, reserved_prefix().len() as int)
        == reserved_prefix()
}

/// The names among `names` that are not reserved, in the same order.
pub open spec fn wanted(names: Seq<Seq<u8>>) -> Seq<Seq<u8>> {
    names.filter(|name: Seq<u8>| !is_reserved(name))
}

/// The names among `names` that are neither reserved nor among `kept`, in the
/// same order.
pub open spec fn stale(names: Seq<Seq<u8>>, kept: Seq<Seq<u8>>) -> Seq<Seq<u8>> {
    names.filter(|name: Seq<u8>| !is_reserved(name) && !kept.contains(name))
}

/// Whether the attribute called `name` is left alone.
pub fn is_system_attr(name: &[u8]) -> (reserved: bool)
    ensures
        reserved == is_reserved(name@),
{
    proof {
        reveal_strlit("system.");
    }
    starts_with(name, text_bytes("system."))
}

/// The attributes of the source to copy: all that `source_names` lists but the
/// reserved ones.
pub fn attrs_to_copy(source_names: &Vec<Vec<u8>>) -> (names: Vec<Vec<u8>>)
    ensures
        names_of(names@) == wanted(names_of(source_names@)),
{
    let ghost all = names_of(source_names@);
    let ghost keep = |name: Seq<u8>| !is_reserved(name);
    let n = source_names.len();
    let mut names: Vec<Vec<u8>> = Vec::new();
    let mut i: usize = 0;
    proof {
        reveal(Seq::filter);
        assert(all.subrange(0, 0) =~= Seq::<Seq<u8>>::empty());
        assert(names_of(names@) =~= Seq::<Seq<u8>>::empty());
    }
    while i < n
        invariant
            n == source_names@.len(),
            i <= n,
            all == names_of(source_names@),
            keep == |name: Seq<u8>| !is_reserved(name),
            names_of(names@) == all.subrange(0, i as int).filter(keep),
        decreases n - i,
    {
        let name = source_names[i].as_slice();
        let ghost before = names_of(names@);
        proof {
            reveal(Seq::filter);
            assert(all.subrange(0, i + 1).drop_last() =~= all.subrange(0, i as int));
            assert(all.subrange(0, i + 1).last() == name@);
        }
        if !is_system_attr(name) {
            names.push(copy_bytes(name));
            assert(names_of(names@) =~= before.push(name@));
        }
        i = i + 1;
    }
    assert(all.subrange(0, n as int) =~= all);
    names
}

/// The attributes of the target to remove: all that `target_names` lists but
/// the reserved ones and those among `kept`.
pub fn attrs_to_remove(target_names: &Vec<Vec<u8>>, kept: &Vec<Vec<u8>>) -> (names: Vec<Vec<u8>>)
    ensures
        names_of(names@) == stale(names_of(target_names@), names_of(kept@)),
{
    let ghost all = names_of(target_names@);
    let ghost held = names_of(kept@);
    let ghost drop = |name: Seq<u8>| !is_reserved(name) && !held.contains(name);
    let n = target_names.len();
    let mut names: Vec<Vec<u8>> = Vec::new();
    let mut i: usize = 0;
    proof {
        reveal(Seq::filter);
        assert(all.subrange(0, 0) =~= Seq::<Seq<u8>>::empty());
        assert(names_of(names@) =~= Seq::<Seq<u8>>::empty());
    }
    while i < n
        invariant
            n == target_names@.len(),
            i <= n,
            all == names_of(target_names@),
            held == names_of(kept@),
            drop == |name: Seq<u8>| !is_reserved(name) && !held.contains(name),
            names_of(names@) == all.subrange(0, i as int).filter(drop),
        decreases n - i,
    {
        let name = target_names[i].as_slice();
        let ghost before = names_of(names@);
        proof {
            reveal(Seq::filter);
            assert(all.subrange(0, i + 1).drop_last() =~= all.subrange(0, i as int));
            assert(all.subrange(0, i + 1).last() == name@);
        }
        if !is_system_attr(name) && !contains_name(kept, name) {
            names.push(copy_bytes(name));
            assert(names_of(names@) =~= before.push(name@));
        }
        i = i + 1;
    }
    assert(all.subrange(0, n as int) =~= all);
    names
}

/// The attributes of an entry: values by name.
pub type Attrs = Map<Seq<u8>, Seq<u8>>;

/// The attributes of the target once those of the source that `copied` names
/// have been set on it.
pub open spec fn after_copying(source: Attrs, target: Attrs, copied: Seq<Seq<u8>>) -> Attrs {
    target.union_prefer_right(source.restrict(copied.to_set()))
}

/// The attributes of the target once those that `removed` names are gone.
pub open spec fn after_removing(target: Attrs, removed: Seq<Seq<u8>>) -> Attrs {
    target.remove_keys(removed.to_set())
}

/// After the attributes to copy were set on the target and the stale ones
/// removed from it, the target has, outside the reserved names, exactly the
/// attributes of the source, with the source's values; and under the reserved
/// names exactly what it had before.
pub proof fn lemma_attributes_end_up_equal(
    source: Attrs,
    target: Attrs,
    source_names: Seq<Seq<u8>>,
    target_names: Seq<Seq<u8>>,
)
    requires
        source_names.to_set() == source.dom(),
        target_names.to_set() == after_copying(source, target, wanted(source_names)).dom(),
    ensures
        ({
            let copied = wanted(source_names);
            let set = after_copying(source, target, copied);
            let result = after_removing(set, stale(target_names, copied));
            &&& forall|name: Seq<u8>|
                !is_reserved(name) ==> (#[trigger] result.dom().contains(name)
                    <==> source.dom().contains(name))
            &&& forall|name: Seq<u8>|
                !is_reserved(name) && source.dom().contains(name) ==> #[trigger] result[name]
                    == source[name]
            &&& forall|name: Seq<u8>|
                is_reserved(name) ==> (#[trigger] result.dom().contains(name)
                    <==> target.dom().contains(name))
            &&& forall|name: Seq<u8>|
                is_reserved(name) && target.dom().contains(name) ==> #[trigger] result[name]
                    == target[name]
        }),
{
    let keep = |name: Seq<u8>| !is_reserved(name);
    let copied = wanted(source_names);
    let drop = |name: Seq<u8>| !is_reserved(name) && !copied.contains(name);
    let gone = stale(target_names, copied);
    let set = after_copying(source, target, copied);
    let result = after_removing(set, gone);
    assert forall|name: Seq<u8>| copied.contains(name) <==> (source.dom().contains(name)
        && !is_reserved(name)) by {
        lemma_filter_holds(source_names, keep, name);
        assert(source_names.to_set().contains(name) <==> source_names.contains(name));
    }
    assert forall|name: Seq<u8>| gone.contains(name) <==> (set.dom().contains(name) && !is_reserved(
        name,
    ) && !copied.contains(name)) by {
        lemma_filter_holds(target_names, drop, name);
        assert(target_names.to_set().contains(name) <==> target_names.contains(name));
    }
    assert forall|name: Seq<u8>| !is_reserved(name) implies (#[trigger] result.dom().contains(name)
        <==> source.dom().contains(name)) by {
        assert(gone.to_set().contains(name) <==> gone.contains(name));
        assert(copied.to_set().contains(name) <==> copied.contains(name));
    }
    assert forall|name: Seq<u8>|
        !is_reserved(name) && source.dom().contains(name) implies #[trigger] result[name]
        == source[name] by {
        assert(gone.to_set().contains(name) <==> gone.contains(name));
        assert(copied.to_set().contains(name) <==> copied.contains(name));
    }
    assert forall|name: Seq<u8>| is_reserved(name) implies (#[trigger] result.dom().contains(name)
        <==> target.dom().contains(name)) by {
        assert(gone.to_set().contains(name) <==> gone.contains(name));
        assert(copied.to_set().contains(name) <==> copied.contains(name));
    }
    assert forall|name: Seq<u8>|
        is_reserved(name) && target.dom().contains(name) implies #[trigger] result[name]
        == target[name] by {
        assert(gone.to_set().contains(name) <==> gone.contains(name));
        assert(copied.to_set().contains(name) <==> copied.contains(name));
    }
}

/// What a filter keeps is what the list holds and the test accepts.
proof fn lemma_filter_holds(list: Seq<Seq<u8>>, test: spec_fn(Seq<u8>) -> bool, name: Seq<u8>)
    ensures
        list.filter(test).contains(name) <==> (list.contains(name) && test(name)),
    decreases list.len(),
{
    reveal(Seq::filter);
    if list.len() == 0 {
    } else {
        let front = list.drop_last();
        lemma_filter_holds(front, test, name);
        let kept = front.filter(test);
        if test(list.last()) {
            assert(list.filter(test) == kept.push(list.last()));
            if list.filter(test).contains(name) {
                let k = choose|k: int|
                    0 <= k < list.filter(test).len() && list.filter(test)[k] == name;
                if k < kept.len() {
                    assert(kept[k] == name);
                    assert(kept.contains(name));
                }
            }
            if kept.contains(name) {
                let k = choose|k: int| 0 <= k < kept.len() && kept[k] == name;
                assert(kept.push(list.last())[k] == name);
            }
            if name == list.last() {
                assert(kept.push(list.last())[kept.len() as int] == name);
            }
        } else {
            assert(list.filter(test) == kept);
        }
        if list.contains(name) {
            let k = choose|k: int| 0 <= k < list.len() && list[k] == name;
            if k < front.len() {
                assert(front[k] == name);
                assert(front.contains(name));
            } else {
                assert(name == list.last());
            }
        }
        if front.contains(name) {
            let k = choose|k: int| 0 <= k < front.len() && front[k] == name;
            assert(list[k] == name);
        }
        assert(list[list.len() - 1] == list.last());
    }
}

} // verus!
