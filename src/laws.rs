//! Laws of identity comparison, stated over the spec functions that the
//! comparisons' own contracts use.
use crate::{key_order, same_key, ByAddr};
use core::cmp::Ordering;
use core::ops::Deref;
use vstd::prelude::*;
use vstd::relations::{sorted_by, total_ordering};
use vstd::seq_lib::lemma_sorted_unique;
use vstd::std_specs::cmp::{PartialEqSpec, PartialOrdSpec};

verus! {

/// Two wrappers whose targets lie at different addresses are unequal, even
/// where the wrapped values are equal: identity decides, not value.
pub proof fn lemma_identity_not_value<T: Deref>(a: ByAddr<T>, b: ByAddr<T>)
    requires
        a.inner() == b.inner(),
        a.key() != b.key(),
    ensures
        !a.eq_spec(&b),
{
}

/// Equality of wrappers is reflexive, symmetric and transitive.
pub proof fn lemma_equality_is_equivalence<T: Deref>(a: ByAddr<T>, b: ByAddr<T>, c: ByAddr<T>)
    ensures
        a.eq_spec(&a),
        a.eq_spec(&b) ==> b.eq_spec(&a),
        a.eq_spec(&b) && b.eq_spec(&c) ==> a.eq_spec(&c),
{
}

/// The order of wrappers is total and agrees with equality: every pair is
/// comparable, a wrapper is equal to itself, `Less` one way is `Greater` the
/// other, and `Less` is transitive. The order depends on the keys alone, so
/// sorting the same wrappers again gives the same relative order.
pub proof fn lemma_order_is_total<T: Deref>(a: ByAddr<T>, b: ByAddr<T>, c: ByAddr<T>)
    ensures
        a.partial_cmp_spec(&b) is Some,
        a.partial_cmp_spec(&a) == Some(Ordering::Equal),
        a.partial_cmp_spec(&b) == Some(Ordering::Equal) <==> a.eq_spec(&b),
        a.partial_cmp_spec(&b) == Some(Ordering::Less) <==> b.partial_cmp_spec(&a) == Some(
            Ordering::Greater,
        ),
        a.partial_cmp_spec(&b) == Some(Ordering::Less) && b.partial_cmp_spec(&c) == Some(
            Ordering::Less,
        ) ==> a.partial_cmp_spec(&c) == Some(Ordering::Less),
        a.partial_cmp_spec(&b) == Some(key_order(a.key(), b.key())),
{
}

/// The identity keys of a sequence of wrappers, in order.
pub open spec fn keys_of<T: Deref>(s: Seq<ByAddr<T>>) -> Seq<usize> {
    s.map_values(|w: ByAddr<T>| w.key())
}

/// No wrapper of `s` compares `Greater` than one after it: `s` is in the
/// order that a sort by `cmp` leaves.
pub open spec fn ascending<T: Deref>(s: Seq<ByAddr<T>>) -> bool {
    forall|i: int, j: int|
        0 <= i < j < s.len() ==> #[trigger] key_order(s[i].key(), s[j].key()) != Ordering::Greater
}

/// Sorting by address leaves one arrangement of keys: two sequences of
/// wrappers over the same addresses that are both in ascending order carry
/// the same key at every position. So sorting a collection of wrappers again,
/// from any starting order, gives the same relative order.
pub proof fn lemma_sorted_order_is_unique<T: Deref>(x: Seq<ByAddr<T>>, y: Seq<ByAddr<T>>)
    requires
        ascending(x),
        ascending(y),
        keys_of(x).to_multiset() == keys_of(y).to_multiset(),
    ensures
        keys_of(x) == keys_of(y),
{
    let leq = |a: usize, b: usize| a <= b;
    assert(total_ordering(leq));
    assert(sorted_by(keys_of(x), leq)) by {
        assert forall|i: int, j: int| 0 <= i < j < keys_of(x).len() implies leq(
            keys_of(x)[i],
            keys_of(x)[j],
        ) by {
            assert(key_order(x[i].key(), x[j].key()) != Ordering::Greater);
        }
    }
    assert(sorted_by(keys_of(y), leq)) by {
        assert forall|i: int, j: int| 0 <= i < j < keys_of(y).len() implies leq(
            keys_of(y)[i],
            keys_of(y)[j],
        ) by {
            assert(key_order(y[i].key(), y[j].key()) != Ordering::Greater);
        }
    }
    lemma_sorted_unique(keys_of(x), keys_of(y), leq);
}

/// Equal wrappers hand the hasher the same value: their identity key.
pub proof fn lemma_equal_wrappers_hash_alike<T: Deref>(a: ByAddr<T>, b: ByAddr<T>)
    requires
        a.eq_spec(&b),
    ensures
        a.key() == b.key(),
{
}

/// A wrapper and its bare-reference view are the same target, and each is
/// equal to any wrapper of its own kind with the same key.
pub proof fn lemma_borrowed_view_matches<T: Deref>(
    owner: ByAddr<T>,
    view: ByAddr<&T::Target>,
    probe: ByAddr<&T::Target>,
)
    requires
        same_key(&view, &owner),
        same_key(&probe, &owner),
    ensures
        view.eq_spec(&probe),
        probe.eq_spec(&view),
{
}

} // verus!
