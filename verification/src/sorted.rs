//! Sorted, duplicate-free accumulation for the builders' id and category
//! sets, and the fact that makes serialization order-independent: a strictly
//! sorted sequence is determined by the set of its elements.

use vstd::prelude::*;
use crate::types::ThingType;

verus! {

/// Strictly increasing under `key`; in particular duplicate-free.
pub open spec fn sorted_by<T>(s: Seq<T>, key: spec_fn(T) -> int) -> bool {
    forall|i: int, j: int| 0 <= i < j < s.len() ==> key(s[i]) < key(s[j])
}

pub open spec fn id_key(x: usize) -> int {
    x as int
}

pub open spec fn type_key(t: ThingType) -> int {
    t.index_spec()
}

/// Ids sorted ascending, without duplicates.
pub open spec fn sorted_ids(s: Seq<usize>) -> bool {
    sorted_by(s, |x: usize| id_key(x))
}

/// Item categories in declaration order, without duplicates.
pub open spec fn sorted_types(s: Seq<ThingType>) -> bool {
    sorted_by(s, |t: ThingType| type_key(t))
}

/// Dropping the last element of a strictly sorted sequence removes exactly
/// that element from its membership.
proof fn lemma_drop_last_contains<T>(s: Seq<T>, key: spec_fn(T) -> int, x: T)
    requires
        sorted_by(s, key),
        s.len() > 0,
    ensures
        s.drop_last().contains(x) <==> (s.contains(x) && x != s.last()),
{
    if s.drop_last().contains(x) {
        let i = choose|i: int| 0 <= i < s.drop_last().len() && s.drop_last()[i] == x;
        assert(s[i] == x);
        assert(key(s[i]) < key(s.last()));
        assert(s.contains(x));
    }
    if s.contains(x) && x != s.last() {
        let i = choose|i: int| 0 <= i < s.len() && s[i] == x;
        assert(i != s.len() - 1);
        assert(s.drop_last()[i] == x);
        assert(s.drop_last().contains(x));
    }
}

/// Two strictly sorted sequences with the same set of elements are the same
/// sequence: the canonical form a builder keeps is unique.
pub proof fn lemma_sorted_unique<T>(a: Seq<T>, b: Seq<T>, key: spec_fn(T) -> int)
    requires
        sorted_by(a, key),
        sorted_by(b, key),
        a.to_set() == b.to_set(),
    ensures
        a == b,
    decreases a.len(),
{
    if a.len() == 0 {
        if b.len() > 0 {
            assert(b.contains(b[0]));
            assert(b.to_set().contains(b[0]));
            assert(a.to_set().contains(b[0]));
            assert(false);
        }
        assert(a =~= b);
    } else {
        assert(a.contains(a.last()));
        assert(a.to_set().contains(a.last()));
        assert(b.to_set().contains(a.last()));
        assert(b.contains(a.last()));
        let j = choose|j: int| 0 <= j < b.len() && b[j] == a.last();
        assert(b.contains(b.last()));
        assert(b.to_set().contains(b.last()));
        assert(a.to_set().contains(b.last()));
        assert(a.contains(b.last()));
        let k = choose|k: int| 0 <= k < a.len() && a[k] == b.last();
        if k < a.len() - 1 {
            assert(key(a[k]) < key(a.last()));
        }
        if j < b.len() - 1 {
            assert(key(b[j]) < key(b.last()));
        }
        assert(key(a.last()) == key(b.last()));
        if j != b.len() - 1 {
            assert(key(b[j]) < key(b.last()));
            assert(false);
        }
        assert(a.last() == b.last());
        let a1 = a.drop_last();
        let b1 = b.drop_last();
        assert(sorted_by(a1, key)) by {
            assert forall|p: int, q: int| 0 <= p < q < a1.len() implies key(a1[p]) < key(
                a1[q],
            ) by {
                assert(a1[p] == a[p]);
                assert(a1[q] == a[q]);
            }
        }
        assert(sorted_by(b1, key)) by {
            assert forall|p: int, q: int| 0 <= p < q < b1.len() implies key(b1[p]) < key(
                b1[q],
            ) by {
                assert(b1[p] == b[p]);
                assert(b1[q] == b[q]);
            }
        }
        assert(a1.to_set() =~= b1.to_set()) by {
            assert forall|x: T| a1.to_set().contains(x) <==> b1.to_set().contains(x) by {
                lemma_drop_last_contains(a, key, x);
                lemma_drop_last_contains(b, key, x);
                assert(a.contains(x) <==> a.to_set().contains(x));
                assert(b.contains(x) <==> b.to_set().contains(x));
            }
        }
        lemma_sorted_unique(a1, b1, key);
        assert(a =~= b) by {
            assert(a.len() == b.len());
            assert forall|i: int| 0 <= i < a.len() implies a[i] == b[i] by {
                if i < a.len() - 1 {
                    assert(a1[i] == b1[i]);
                }
            }
        }
    }
}

/// `lemma_sorted_unique` for id sequences.
pub proof fn lemma_sorted_ids_unique(a: Seq<usize>, b: Seq<usize>)
    requires
        sorted_ids(a),
        sorted_ids(b),
        a.to_set() == b.to_set(),
    ensures
        a == b,
{
    lemma_sorted_unique(a, b, |x: usize| id_key(x));
}

/// `lemma_sorted_unique` for category sequences.
pub proof fn lemma_sorted_types_unique(a: Seq<ThingType>, b: Seq<ThingType>)
    requires
        sorted_types(a),
        sorted_types(b),
        a.to_set() == b.to_set(),
    ensures
        a == b,
{
    lemma_sorted_unique(a, b, |t: ThingType| type_key(t));
}

/// Insert an id into a sorted duplicate-free vector, keeping it so; a
/// duplicate leaves the vector unchanged.
pub fn insert_id(v: &mut Vec<usize>, x: usize)
    requires
        sorted_ids(old(v)@),
    ensures
        sorted_ids(final(v)@),
        final(v)@.to_set() == old(v)@.to_set().insert(x),
{
    let mut i: usize = 0;
    while i < v.len() && v[i] < x
        invariant
            i <= v@.len(),
            v@ == old(v)@,
            forall|k: int| 0 <= k < i ==> v@[k] < x,
        decreases v@.len() - i,
    {
        i = i + 1;
    }
    if i < v.len() && v[i] == x {
        proof {
            assert(v@[i as int] == x);
            assert(v@.contains(x));
            assert(v@.to_set().contains(x));
            assert(v@.to_set() =~= v@.to_set().insert(x));
        }
        return ;
    }
    v.insert(i, x);
    proof {
        let ov = old(v)@;
        let nv = v@;
        let ii = i as int;
        assert(nv == ov.insert(ii, x));
        ov.insert_ensures(ii, x);
        assert(sorted_by(nv, |y: usize| id_key(y))) by {
            assert forall|p: int, q: int| 0 <= p < q < nv.len() implies nv[p] < nv[q] by {
                if q < ii {
                    assert(nv[p] == ov[p]);
                    assert(nv[q] == ov[q]);
                } else if q == ii {
                    assert(nv[p] == ov[p]);
                    assert(nv[q] == x);
                } else {
                    assert(nv[q] == ov[q - 1]);
                    if p < ii {
                        assert(nv[p] == ov[p]);
                        if p < q - 1 {
                            assert(ov[p] < ov[q - 1]);
                        }
                    } else if p == ii {
                        assert(nv[p] == x);
                        assert(ov[ii] > x);
                        if ii < q - 1 {
                            assert(ov[ii] < ov[q - 1]);
                        }
                    } else {
                        assert(nv[p] == ov[p - 1]);
                        assert(ov[p - 1] < ov[q - 1]);
                    }
                }
            }
        }
        assert(nv.to_set() =~= ov.to_set().insert(x)) by {
            assert forall|a: usize| nv.to_set().contains(a) <==> (a == x || ov.to_set().contains(
                a,
            )) by {
                if nv.contains(a) {
                    let p = choose|p: int| 0 <= p < nv.len() && nv[p] == a;
                    if p < ii {
                        assert(ov[p] == a);
                        assert(ov.contains(a));
                    } else if p > ii {
                        assert(ov[p - 1] == a);
                        assert(ov.contains(a));
                    }
                }
                if a == x {
                    assert(nv[ii] == a);
                    assert(nv.contains(a));
                }
                if ov.contains(a) {
                    let p = choose|p: int| 0 <= p < ov.len() && ov[p] == a;
                    if p < ii {
                        assert(nv[p] == a);
                    } else {
                        assert(nv[p + 1] == a);
                    }
                    assert(nv.contains(a));
                }
            }
        }
    }
}

/// Insert a category into a vector sorted by declaration order, keeping it
/// sorted and duplicate-free; a duplicate leaves the vector unchanged.
pub fn insert_type(v: &mut Vec<ThingType>, t: ThingType)
    requires
        sorted_types(old(v)@),
    ensures
        sorted_types(final(v)@),
        final(v)@.to_set() == old(v)@.to_set().insert(t),
{
    let ti = t.index();
    let mut i: usize = 0;
    while i < v.len() && v[i].index() < ti
        invariant
            i <= v@.len(),
            v@ == old(v)@,
            ti as int == t.index_spec(),
            forall|k: int| 0 <= k < i ==> v@[k].index_spec() < t.index_spec(),
        decreases v@.len() - i,
    {
        i = i + 1;
    }
    if i < v.len() && v[i].index() == ti {
        proof {
            crate::types::lemma_index_injective(v@[i as int], t);
            assert(v@.contains(t));
            assert(v@.to_set().contains(t));
            assert(v@.to_set() =~= v@.to_set().insert(t));
        }
        return ;
    }
    v.insert(i, t);
    proof {
        let ov = old(v)@;
        let nv = v@;
        let ii = i as int;
        assert(nv == ov.insert(ii, t));
        ov.insert_ensures(ii, t);
        assert(sorted_by(nv, |y: ThingType| type_key(y))) by {
            assert forall|p: int, q: int| 0 <= p < q < nv.len() implies nv[p].index_spec()
                < nv[q].index_spec() by {
                if q < ii {
                    assert(nv[p] == ov[p]);
                    assert(nv[q] == ov[q]);
                } else if q == ii {
                    assert(nv[p] == ov[p]);
                    assert(nv[q] == t);
                } else {
                    assert(nv[q] == ov[q - 1]);
                    if p < ii {
                        assert(nv[p] == ov[p]);
                        if p < q - 1 {
                            assert(ov[p].index_spec() < ov[q - 1].index_spec());
                        }
                    } else if p == ii {
                        assert(nv[p] == t);
                        assert(ov[ii].index_spec() > t.index_spec());
                        if ii < q - 1 {
                            assert(ov[ii].index_spec() < ov[q - 1].index_spec());
                        }
                    } else {
                        assert(nv[p] == ov[p - 1]);
                        assert(ov[p - 1].index_spec() < ov[q - 1].index_spec());
                    }
                }
            }
        }
        assert(nv.to_set() =~= ov.to_set().insert(t)) by {
            assert forall|a: ThingType| nv.to_set().contains(a) <==> (a == t
                || ov.to_set().contains(a)) by {
                if nv.contains(a) {
                    let p = choose|p: int| 0 <= p < nv.len() && nv[p] == a;
                    if p < ii {
                        assert(ov[p] == a);
                        assert(ov.contains(a));
                    } else if p > ii {
                        assert(ov[p - 1] == a);
                        assert(ov.contains(a));
                    }
                }
                if a == t {
                    assert(nv[ii] == a);
                    assert(nv.contains(a));
                }
                if ov.contains(a) {
                    let p = choose|p: int| 0 <= p < ov.len() && ov[p] == a;
                    if p < ii {
                        assert(nv[p] == a);
                    } else {
                        assert(nv[p + 1] == a);
                    }
                    assert(nv.contains(a));
                }
            }
        }
    }
}

} // verus!
