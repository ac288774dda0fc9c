//! The mathematical model of the component-wise operations.
//!
//! Every vector, normal and point contract in this crate speaks of the value
//! of a tuple as a `Seq<int>` — the components read as mathematical integers,
//! in declared field order. The spec functions here say what each operation
//! does to that sequence, and the proof functions state the algebraic laws
//! the operations obey, once, for every arity and for both tuple families.

use vstd::prelude::*;
use crate::scalar::{trunc_div, trunc_rem};

verus! {

/// Component-wise sum of two same-length tuples.
pub open spec fn add_spec(a: Seq<int>, b: Seq<int>) -> Seq<int>
    recommends
        a.len() == b.len(),
{
    Seq::new(a.len(), |i: int| a[i] + b[i])
}

/// Component-wise difference of two same-length tuples.
pub open spec fn sub_spec(a: Seq<int>, b: Seq<int>) -> Seq<int>
    recommends
        a.len() == b.len(),
{
    Seq::new(a.len(), |i: int| a[i] - b[i])
}

/// Component-wise negation.
pub open spec fn neg_spec(a: Seq<int>) -> Seq<int> {
    Seq::new(a.len(), |i: int| -a[i])
}

/// Every component multiplied by the scalar on the right.
pub open spec fn mul_scalar_spec(a: Seq<int>, s: int) -> Seq<int> {
    Seq::new(a.len(), |i: int| a[i] * s)
}

/// Every component divided (truncating) by the scalar on the right.
pub open spec fn div_scalar_spec(a: Seq<int>, s: int) -> Seq<int> {
    Seq::new(a.len(), |i: int| trunc_div(a[i], s))
}

/// The truncating remainder of every component by the scalar on the right.
pub open spec fn rem_scalar_spec(a: Seq<int>, s: int) -> Seq<int> {
    Seq::new(a.len(), |i: int| trunc_rem(a[i], s))
}

/// The scalar on the left multiplied onto every component.
pub open spec fn scalar_mul_spec(s: int, a: Seq<int>) -> Seq<int> {
    Seq::new(a.len(), |i: int| s * a[i])
}

/// The scalar on the left divided (truncating) by every component.
pub open spec fn scalar_div_spec(s: int, a: Seq<int>) -> Seq<int> {
    Seq::new(a.len(), |i: int| trunc_div(s, a[i]))
}

/// The truncating remainder of the scalar on the left by every component.
pub open spec fn scalar_rem_spec(s: int, a: Seq<int>) -> Seq<int> {
    Seq::new(a.len(), |i: int| trunc_rem(s, a[i]))
}

/// Component-wise product of two same-length tuples (an element-wise
/// operation, not a linear-algebra one).
pub open spec fn mul_ew_spec(a: Seq<int>, b: Seq<int>) -> Seq<int>
    recommends
        a.len() == b.len(),
{
    Seq::new(a.len(), |i: int| a[i] * b[i])
}

/// Component-wise truncating quotient of two same-length tuples.
pub open spec fn div_ew_spec(a: Seq<int>, b: Seq<int>) -> Seq<int>
    recommends
        a.len() == b.len(),
{
    Seq::new(a.len(), |i: int| trunc_div(a[i], b[i]))
}

/// Component-wise truncating remainder of two same-length tuples.
pub open spec fn rem_ew_spec(a: Seq<int>, b: Seq<int>) -> Seq<int>
    recommends
        a.len() == b.len(),
{
    Seq::new(a.len(), |i: int| trunc_rem(a[i], b[i]))
}

/// The smaller of two values, preferring the first on a tie.
pub open spec fn min2(a: int, b: int) -> int {
    if a <= b {
        a
    } else {
        b
    }
}

/// The larger of two values, preferring the first on a tie.
pub open spec fn max2(a: int, b: int) -> int {
    if b <= a {
        a
    } else {
        b
    }
}

/// Component-wise minimum of two same-length tuples.
pub open spec fn pluck_min_spec(a: Seq<int>, b: Seq<int>) -> Seq<int>
    recommends
        a.len() == b.len(),
{
    Seq::new(a.len(), |i: int| min2(a[i], b[i]))
}

/// Component-wise maximum of two same-length tuples.
pub open spec fn pluck_max_spec(a: Seq<int>, b: Seq<int>) -> Seq<int>
    recommends
        a.len() == b.len(),
{
    Seq::new(a.len(), |i: int| max2(a[i], b[i]))
}

/// Left-to-right sum of the components.
pub open spec fn sum_spec(s: Seq<int>) -> int
    decreases s.len(),
{
    if s.len() == 0 {
        0
    } else {
        sum_spec(s.drop_last()) + s.last()
    }
}

/// Left-to-right product of the components.
pub open spec fn product_spec(s: Seq<int>) -> int
    decreases s.len(),
{
    if s.len() == 0 {
        1
    } else {
        product_spec(s.drop_last()) * s.last()
    }
}

/// Left-to-right minimum fold of a non-empty tuple.
pub open spec fn min_fold_spec(s: Seq<int>) -> int
    recommends
        s.len() >= 1,
    decreases s.len(),
{
    if s.len() <= 1 {
        s[0]
    } else {
        min2(min_fold_spec(s.drop_last()), s.last())
    }
}

/// Left-to-right maximum fold of a non-empty tuple.
pub open spec fn max_fold_spec(s: Seq<int>) -> int
    recommends
        s.len() >= 1,
    decreases s.len(),
{
    if s.len() <= 1 {
        s[0]
    } else {
        max2(max_fold_spec(s.drop_last()), s.last())
    }
}

/// The dot product: the left-to-right sum of the component-wise products.
pub open spec fn dot_spec(a: Seq<int>, b: Seq<int>) -> int
    recommends
        a.len() == b.len(),
    decreases a.len(),
{
    if a.len() == 0 {
        0
    } else {
        dot_spec(a.drop_last(), b.drop_last()) + a.last() * b.last()
    }
}

/// The perpendicular dot product of two 2-component tuples.
pub open spec fn perp_dot_spec(a: Seq<int>, b: Seq<int>) -> int
    recommends
        a.len() == 2,
        b.len() == 2,
{
    a[0] * b[1] - a[1] * b[0]
}

/// The cross product of two 3-component tuples.
pub open spec fn cross_spec(a: Seq<int>, b: Seq<int>) -> Seq<int>
    recommends
        a.len() == 3,
        b.len() == 3,
{
    seq![
        a[1] * b[2] - a[2] * b[1],
        a[2] * b[0] - a[0] * b[2],
        a[0] * b[1] - a[1] * b[0],
    ]
}

/// One scalar broadcast to every slot.
pub open spec fn broadcast_spec(n: nat, v: int) -> Seq<int> {
    Seq::new(n, |i: int| v)
}

/// Whether every component is zero.
pub open spec fn is_zero_spec(s: Seq<int>) -> bool {
    forall|i: int| 0 <= i < s.len() ==> s[i] == 0
}

// ------------------------------------------------------------------
// Closed forms of the folds at each fixed arity, for the per-arity
// implementations to rest on.
// ------------------------------------------------------------------

pub proof fn lemma_sum1(s: Seq<int>)
    requires
        s.len() == 1,
    ensures
        sum_spec(s) == s[0],
{
    assert(sum_spec(s.drop_last()) == 0);
}

pub proof fn lemma_sum2(s: Seq<int>)
    requires
        s.len() == 2,
    ensures
        sum_spec(s) == s[0] + s[1],
{
    lemma_sum1(s.drop_last());
}

pub proof fn lemma_sum3(s: Seq<int>)
    requires
        s.len() == 3,
    ensures
        sum_spec(s) == s[0] + s[1] + s[2],
{
    lemma_sum2(s.drop_last());
}

pub proof fn lemma_sum4(s: Seq<int>)
    requires
        s.len() == 4,
    ensures
        sum_spec(s) == s[0] + s[1] + s[2] + s[3],
{
    lemma_sum3(s.drop_last());
}

pub proof fn lemma_product1(s: Seq<int>)
    requires
        s.len() == 1,
    ensures
        product_spec(s) == s[0],
{
    assert(product_spec(s.drop_last()) == 1);
}

pub proof fn lemma_product2(s: Seq<int>)
    requires
        s.len() == 2,
    ensures
        product_spec(s) == s[0] * s[1],
{
    lemma_product1(s.drop_last());
}

pub proof fn lemma_product3(s: Seq<int>)
    requires
        s.len() == 3,
    ensures
        product_spec(s) == (s[0] * s[1]) * s[2],
{
    lemma_product2(s.drop_last());
}

pub proof fn lemma_product4(s: Seq<int>)
    requires
        s.len() == 4,
    ensures
        product_spec(s) == ((s[0] * s[1]) * s[2]) * s[3],
{
    lemma_product3(s.drop_last());
}

pub proof fn lemma_min_fold2(s: Seq<int>)
    requires
        s.len() == 2,
    ensures
        min_fold_spec(s) == min2(s[0], s[1]),
{
    assert(min_fold_spec(s.drop_last()) == s.drop_last()[0]);
}

pub proof fn lemma_min_fold3(s: Seq<int>)
    requires
        s.len() == 3,
    ensures
        min_fold_spec(s) == min2(min2(s[0], s[1]), s[2]),
{
    lemma_min_fold2(s.drop_last());
}

pub proof fn lemma_min_fold4(s: Seq<int>)
    requires
        s.len() == 4,
    ensures
        min_fold_spec(s) == min2(min2(min2(s[0], s[1]), s[2]), s[3]),
{
    lemma_min_fold3(s.drop_last());
}

pub proof fn lemma_max_fold2(s: Seq<int>)
    requires
        s.len() == 2,
    ensures
        max_fold_spec(s) == max2(s[0], s[1]),
{
    assert(max_fold_spec(s.drop_last()) == s.drop_last()[0]);
}

pub proof fn lemma_max_fold3(s: Seq<int>)
    requires
        s.len() == 3,
    ensures
        max_fold_spec(s) == max2(max2(s[0], s[1]), s[2]),
{
    lemma_max_fold2(s.drop_last());
}

pub proof fn lemma_max_fold4(s: Seq<int>)
    requires
        s.len() == 4,
    ensures
        max_fold_spec(s) == max2(max2(max2(s[0], s[1]), s[2]), s[3]),
{
    lemma_max_fold3(s.drop_last());
}

pub proof fn lemma_dot1(a: Seq<int>, b: Seq<int>)
    requires
        a.len() == 1,
        b.len() == 1,
    ensures
        dot_spec(a, b) == a[0] * b[0],
{
    assert(dot_spec(a.drop_last(), b.drop_last()) == 0);
}

pub proof fn lemma_dot2(a: Seq<int>, b: Seq<int>)
    requires
        a.len() == 2,
        b.len() == 2,
    ensures
        dot_spec(a, b) == a[0] * b[0] + a[1] * b[1],
{
    lemma_dot1(a.drop_last(), b.drop_last());
}

pub proof fn lemma_dot3(a: Seq<int>, b: Seq<int>)
    requires
        a.len() == 3,
        b.len() == 3,
    ensures
        dot_spec(a, b) == a[0] * b[0] + a[1] * b[1] + a[2] * b[2],
{
    lemma_dot2(a.drop_last(), b.drop_last());
}

pub proof fn lemma_dot4(a: Seq<int>, b: Seq<int>)
    requires
        a.len() == 4,
        b.len() == 4,
    ensures
        dot_spec(a, b) == a[0] * b[0] + a[1] * b[1] + a[2] * b[2] + a[3] * b[3],
{
    lemma_dot3(a.drop_last(), b.drop_last());
}

// ------------------------------------------------------------------
// The algebraic laws.
// ------------------------------------------------------------------

/// Vector addition is commutative: `a + b == b + a`, component by component.
pub proof fn lemma_add_comm(a: Seq<int>, b: Seq<int>)
    requires
        a.len() == b.len(),
    ensures
        add_spec(a, b) == add_spec(b, a),
{
    assert(add_spec(a, b) =~= add_spec(b, a));
}

/// Scaling distributes over vector addition: `(a + b) * s == a*s + b*s`,
/// exactly, component by component.
pub proof fn lemma_scale_distributes(a: Seq<int>, b: Seq<int>, s: int)
    requires
        a.len() == b.len(),
    ensures
        mul_scalar_spec(add_spec(a, b), s) == add_spec(mul_scalar_spec(a, s), mul_scalar_spec(b, s)),
{
    assert forall|i: int| 0 <= i < a.len() implies mul_scalar_spec(add_spec(a, b), s)[i]
        == add_spec(mul_scalar_spec(a, s), mul_scalar_spec(b, s))[i] by {
        assert((a[i] + b[i]) * s == a[i] * s + b[i] * s) by (nonlinear_arith);
    }
    assert(mul_scalar_spec(add_spec(a, b), s) =~= add_spec(
        mul_scalar_spec(a, s),
        mul_scalar_spec(b, s),
    ));
}

/// The dot product is symmetric: `dot(a, b) == dot(b, a)`.
pub proof fn lemma_dot_comm(a: Seq<int>, b: Seq<int>)
    requires
        a.len() == b.len(),
    ensures
        dot_spec(a, b) == dot_spec(b, a),
    decreases a.len(),
{
    if a.len() > 0 {
        lemma_dot_comm(a.drop_last(), b.drop_last());
    }
}

/// The dot product of a tuple with itself — the squared magnitude — is
/// never negative: it is a sum of squares.
pub proof fn lemma_dot_self_nonneg(a: Seq<int>)
    ensures
        dot_spec(a, a) >= 0,
    decreases a.len(),
{
    if a.len() > 0 {
        lemma_dot_self_nonneg(a.drop_last());
        assert(a.last() * a.last() >= 0) by (nonlinear_arith);
    }
}

/// The cross product is anti-symmetric: `cross(a, b) == -cross(b, a)`.
pub proof fn lemma_cross_antisym(a: Seq<int>, b: Seq<int>)
    requires
        a.len() == 3,
        b.len() == 3,
    ensures
        cross_spec(a, b) == neg_spec(cross_spec(b, a)),
{
    assert(cross_spec(a, b) =~= neg_spec(cross_spec(b, a)));
}

/// The cross product of a tuple with itself is the zero tuple.
pub proof fn lemma_cross_self(a: Seq<int>)
    requires
        a.len() == 3,
    ensures
        cross_spec(a, a) == broadcast_spec(3, 0),
{
    assert(cross_spec(a, a) =~= broadcast_spec(3, 0));
}

/// The pieces either side of any split point, re-joined, reconstruct the
/// whole component sequence (the range-indexing law).
pub proof fn lemma_split_reconstruct<T>(s: Seq<T>, k: int)
    requires
        0 <= k <= s.len(),
    ensures
        s.subrange(0, k) + s.subrange(k, s.len() as int) == s,
{
    assert(s.subrange(0, k) + s.subrange(k, s.len() as int) =~= s);
}

/// Writing a component and reading it back returns the written value, and
/// leaves every other component as it was.
pub proof fn lemma_read_after_write<T>(s: Seq<T>, i: int, v: T)
    requires
        0 <= i < s.len(),
    ensures
        s.update(i, v)[i] == v,
        forall|j: int| 0 <= j < s.len() && j != i ==> s.update(i, v)[j] == s[j],
{
}

} // verus!
