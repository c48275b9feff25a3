//! Comparison of coordinate components.
//!
//! Components are compared through `PartialOrd`. Two components that do not
//! compare (a NaN) never raise an error: the minimum and the maximum then
//! keep their second operand.
use core::cmp::Ordering;
use vstd::prelude::*;
use vstd::std_specs::cmp::PartialOrdSpec;

verus! {

/// `a` compares strictly below `b`.
pub open spec fn less<T: PartialOrd>(a: T, b: T) -> bool {
    a.partial_cmp_spec(&b) == Some(Ordering::Less)
}

/// `a` compares strictly above `b`.
pub open spec fn greater<T: PartialOrd>(a: T, b: T) -> bool {
    a.partial_cmp_spec(&b) == Some(Ordering::Greater)
}

/// `a` compares below or equal to `b`.
pub open spec fn less_eq<T: PartialOrd>(a: T, b: T) -> bool {
    a.partial_cmp_spec(&b) matches Some(Ordering::Less | Ordering::Equal)
}

/// The smaller of two components; `b` unless `a` is strictly below it.
pub open spec fn min_spec<T: PartialOrd>(a: T, b: T) -> T {
    if less(a, b) {
        a
    } else {
        b
    }
}

/// The larger of two components; `b` unless `a` is strictly above it.
pub open spec fn max_spec<T: PartialOrd>(a: T, b: T) -> T {
    if greater(a, b) {
        a
    } else {
        b
    }
}

/// The comparison of `T` is a total order that agrees with equality, as it
/// is for the integer types (not for floats, where NaN compares with nothing).
pub open spec fn is_total_order<T: PartialOrd>() -> bool {
    &&& T::obeys_partial_cmp_spec()
    &&& forall|a: T, b: T| #[trigger] a.partial_cmp_spec(&b) is Some
    &&& forall|a: T, b: T|
        #[trigger] a.partial_cmp_spec(&b) == Some(Ordering::Equal) <==> a == b
    &&& forall|a: T, b: T|
        #[trigger] a.partial_cmp_spec(&b) == Some(Ordering::Less) <==> b.partial_cmp_spec(&a)
            == Some(Ordering::Greater)
    &&& forall|a: T, b: T, c: T| #[trigger]
        less(a, b) && #[trigger] less(b, c) ==> less(a, c)
}

/// The smaller of two components, NaN-safe: `b` unless `a < b`.
pub fn partial_min<T: PartialOrd + Copy>(a: T, b: T) -> (r: T)
    ensures
        T::obeys_partial_cmp_spec() ==> r == min_spec(a, b),
{
    if a < b {
        a
    } else {
        b
    }
}

/// The larger of two components, NaN-safe: `b` unless `a > b`.
pub fn partial_max<T: PartialOrd + Copy>(a: T, b: T) -> (r: T)
    ensures
        T::obeys_partial_cmp_spec() ==> r == max_spec(a, b),
{
    if a > b {
        a
    } else {
        b
    }
}

/// The machine integer types are totally ordered.
pub proof fn lemma_i64_total_order()
    ensures
        is_total_order::<i64>(),
{
}

} // verus!

verus! {

/// Below-or-equal is reflexive.
pub proof fn lemma_less_eq_refl<T: PartialOrd>(a: T)
    requires
        is_total_order::<T>(),
    ensures
        less_eq(a, a),
{
    assert(a.partial_cmp_spec(&a) == Some(Ordering::Equal));
}

/// Not strictly below means above or equal.
pub proof fn lemma_not_less<T: PartialOrd>(a: T, b: T)
    requires
        is_total_order::<T>(),
        !less(a, b),
    ensures
        less_eq(b, a),
{
    assert(a.partial_cmp_spec(&b) is Some);
    if a.partial_cmp_spec(&b) == Some(Ordering::Equal) {
        assert(a == b);
        lemma_less_eq_refl(a);
    } else {
        assert(a.partial_cmp_spec(&b) == Some(Ordering::Greater));
        assert(b.partial_cmp_spec(&a) == Some(Ordering::Less));
    }
}

/// Strictly above is strictly below, seen from the other side.
pub proof fn lemma_greater_less<T: PartialOrd>(a: T, b: T)
    requires
        is_total_order::<T>(),
    ensures
        greater(a, b) == less(b, a),
{
    assert(b.partial_cmp_spec(&a) == Some(Ordering::Less) <==> a.partial_cmp_spec(&b) == Some(
        Ordering::Greater,
    ));
}

/// Strictly below is asymmetric.
pub proof fn lemma_less_asym<T: PartialOrd>(a: T, b: T)
    requires
        is_total_order::<T>(),
        less(a, b),
    ensures
        !less(b, a),
{
    assert(b.partial_cmp_spec(&a) == Some(Ordering::Greater));
}

/// Below-or-equal is transitive.
pub proof fn lemma_less_eq_trans<T: PartialOrd>(a: T, b: T, c: T)
    requires
        is_total_order::<T>(),
        less_eq(a, b),
        less_eq(b, c),
    ensures
        less_eq(a, c),
{
    if a.partial_cmp_spec(&b) == Some(Ordering::Equal) {
        assert(a == b);
    } else if b.partial_cmp_spec(&c) == Some(Ordering::Equal) {
        assert(b == c);
    } else {
        assert(less(a, b) && less(b, c));
    }
}

/// The minimum does not depend on the order of its operands.
pub proof fn lemma_min_commutative<T: PartialOrd>(a: T, b: T)
    requires
        is_total_order::<T>(),
    ensures
        min_spec(a, b) == min_spec(b, a),
{
    if less(a, b) {
        lemma_less_asym(a, b);
    } else if !less(b, a) {
        lemma_not_less(a, b);
        lemma_not_less(b, a);
        assert(a.partial_cmp_spec(&b) == Some(Ordering::Equal));
    }
}

/// The maximum does not depend on the order of its operands.
pub proof fn lemma_max_commutative<T: PartialOrd>(a: T, b: T)
    requires
        is_total_order::<T>(),
    ensures
        max_spec(a, b) == max_spec(b, a),
{
    lemma_greater_less(a, b);
    lemma_greater_less(b, a);
    lemma_min_commutative(a, b);
    if less(b, a) {
        lemma_less_asym(b, a);
    } else if !less(a, b) {
        lemma_not_less(a, b);
        lemma_not_less(b, a);
        assert(a.partial_cmp_spec(&b) == Some(Ordering::Equal));
    }
}

/// The minimum of three does not depend on how it is grouped.
pub proof fn lemma_min_associative<T: PartialOrd>(a: T, b: T, c: T)
    requires
        is_total_order::<T>(),
    ensures
        min_spec(min_spec(a, b), c) == min_spec(a, min_spec(b, c)),
{
    if less(a, b) {
        if less(b, c) {
            assert(less(a, c));
        } else {
            lemma_not_less(b, c);
            if less(a, c) {
            } else {
                lemma_not_less(a, c);
                lemma_less_eq_trans(c, a, b);
                if less(c, b) {
                    lemma_less_asym(c, b);
                } else {
                    assert(c.partial_cmp_spec(&b) == Some(Ordering::Equal));
                }
            }
        }
    } else {
        lemma_not_less(a, b);
        if !less(b, c) {
            lemma_not_less(b, c);
            lemma_less_eq_trans(c, b, a);
            if less(a, c) {
                lemma_less_asym(a, c);
                assert(a.partial_cmp_spec(&c) == Some(Ordering::Equal) || less(c, a));
            }
        }
    }
}

/// The maximum of three does not depend on how it is grouped.
pub proof fn lemma_max_associative<T: PartialOrd>(a: T, b: T, c: T)
    requires
        is_total_order::<T>(),
    ensures
        max_spec(max_spec(a, b), c) == max_spec(a, max_spec(b, c)),
{
    lemma_greater_less(a, b);
    lemma_greater_less(b, c);
    lemma_greater_less(a, c);
    lemma_greater_less(b, a);
    lemma_greater_less(c, b);
    lemma_greater_less(c, a);
    lemma_greater_less(max_spec(a, b), c);
    lemma_greater_less(a, max_spec(b, c));
    if less(b, a) {
        if less(c, b) {
            assert(less(c, a));
        } else {
            lemma_not_less(c, b);
            if !less(c, a) {
                lemma_not_less(c, a);
                lemma_less_eq_trans(b, a, c);
                if less(b, c) {
                    lemma_less_asym(b, c);
                } else {
                    assert(b.partial_cmp_spec(&c) == Some(Ordering::Equal));
                }
            }
        }
    } else {
        lemma_not_less(b, a);
        if !less(c, b) {
            lemma_not_less(c, b);
            lemma_less_eq_trans(a, b, c);
            if less(c, a) {
                lemma_less_asym(c, a);
            }
        }
    }
}

} // verus!
