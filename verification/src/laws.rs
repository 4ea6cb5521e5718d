//! The builders' set laws.
//!
//! The accumulating calls (`with_id`, `with_type`, `with_subtype`) promise
//! only how the *set* of accumulated values changes. The lemmas here close
//! the argument that this determines serialization completely:
//!
//! - any sequence of add calls drives the set to the union of the initial
//!   set with the values added, so neither the order of the calls nor
//!   repetition of a value matters (`lemma_added_is_union`);
//! - a builder state is determined by those sets (and the other fields), so
//!   equal sets give the very same URL (`lemma_thing_state_set_determined`,
//!   `lemma_collection_state_set_determined`);
//! - in particular, adding a value twice leaves the state a second add
//!   would have produced identical to the first (`lemma_add_id_idempotent`,
//!   `lemma_add_subtype_idempotent`).

use vstd::prelude::*;
use crate::collection::CollectionView;
use crate::collection::collection_url;
use crate::collection::collection_wf;
use crate::sorted::lemma_sorted_ids_unique;
use crate::sorted::lemma_sorted_types_unique;
use crate::thing::ThingView;
use crate::thing::thing_url;
use crate::thing::thing_wf;

verus! {

/// The set reached from `init` by adding each value of `calls` in turn.
pub open spec fn added<T>(init: Set<T>, calls: Seq<T>) -> Set<T>
    decreases calls.len(),
{
    if calls.len() == 0 {
        init
    } else {
        added(init, calls.drop_last()).insert(calls.last())
    }
}

/// Adding values one by one reaches the union of the initial set with the
/// set of values added: the order of the calls and any repetition among
/// them are irrelevant.
pub proof fn lemma_added_is_union<T>(init: Set<T>, calls: Seq<T>)
    ensures
        added(init, calls) == init + calls.to_set(),
    decreases calls.len(),
{
    if calls.len() == 0 {
        assert(calls.to_set() =~= Set::<T>::empty()) by {
            assert forall|x: T| !calls.to_set().contains(x) by {
                if calls.contains(x) {
                    let i = choose|i: int| 0 <= i < calls.len() && calls[i] == x;
                    assert(false);
                }
            }
        }
        assert(added(init, calls) =~= init + calls.to_set());
    } else {
        let head = calls.drop_last();
        lemma_added_is_union(init, head);
        assert(calls.to_set() =~= head.to_set().insert(calls.last())) by {
            assert forall|x: T| calls.to_set().contains(x) <==> head.to_set().insert(
                calls.last(),
            ).contains(x) by {
                if calls.contains(x) {
                    let i = choose|i: int| 0 <= i < calls.len() && calls[i] == x;
                    if i < calls.len() - 1 {
                        assert(head[i] == x);
                        assert(head.contains(x));
                    }
                }
                if head.contains(x) {
                    let i = choose|i: int| 0 <= i < head.len() && head[i] == x;
                    assert(calls[i] == x);
                    assert(calls.contains(x));
                }
                if x == calls.last() {
                    assert(calls.contains(x));
                }
            }
        }
        assert(added(init, calls) =~= init + calls.to_set());
    }
}

/// A `thing` builder state — and with it the URL it serializes to — is
/// determined by its id set, its category set, and the remaining fields:
/// two well-formed states built from the same sets in any order coincide.
pub proof fn lemma_thing_state_set_determined(v1: ThingView, v2: ThingView)
    requires
        thing_wf(v1),
        thing_wf(v2),
        v1.ids.to_set() == v2.ids.to_set(),
        v1.types.to_set() == v2.types.to_set(),
        v1 == (ThingView { ids: v1.ids, types: v1.types, ..v2 }),
    ensures
        v1 == v2,
        thing_url(v1) == thing_url(v2),
{
    lemma_sorted_ids_unique(v1.ids, v2.ids);
    lemma_sorted_types_unique(v1.types, v2.types);
}

/// A `collection` builder state — and with it its URL — is determined by
/// its subtype set and the remaining fields.
pub proof fn lemma_collection_state_set_determined(v1: CollectionView, v2: CollectionView)
    requires
        collection_wf(v1),
        collection_wf(v2),
        v1.subtype.to_set() == v2.subtype.to_set(),
        v1 == (CollectionView { subtype: v1.subtype, ..v2 }),
    ensures
        v1 == v2,
        collection_url(v1) == collection_url(v2),
{
    lemma_sorted_types_unique(v1.subtype, v2.subtype);
}

/// Adding an id a second time is a no-op: the state after the second add
/// equals the state after the first, so the serialized URLs coincide.
pub proof fn lemma_add_id_idempotent(once: ThingView, twice: ThingView, x: usize)
    requires
        thing_wf(once),
        thing_wf(twice),
        twice.ids.to_set() == once.ids.to_set().insert(x),
        once.ids.to_set().contains(x),
        twice == (ThingView { ids: twice.ids, ..once }),
    ensures
        twice == once,
        thing_url(twice) == thing_url(once),
{
    assert(twice.ids.to_set() =~= once.ids.to_set());
    lemma_sorted_ids_unique(twice.ids, once.ids);
}

/// Adding a subtype a second time is a no-op, as for ids; the same holds of
/// a `thing` builder's category set by `lemma_thing_state_set_determined`.
pub proof fn lemma_add_subtype_idempotent(
    once: CollectionView,
    twice: CollectionView,
    t: crate::types::ThingType,
)
    requires
        collection_wf(once),
        collection_wf(twice),
        twice.subtype.to_set() == once.subtype.to_set().insert(t),
        once.subtype.to_set().contains(t),
        twice == (CollectionView { subtype: twice.subtype, ..once }),
    ensures
        twice == once,
        collection_url(twice) == collection_url(once),
{
    assert(twice.subtype.to_set() =~= once.subtype.to_set());
    lemma_sorted_types_unique(twice.subtype, once.subtype);
}

} // verus!
