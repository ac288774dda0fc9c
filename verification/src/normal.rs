//! The fixed-arity surface-normal family: structurally the same tuples as
//! the displacement vectors, but a distinct nominal type, since a normal
//! transforms by the inverse-transpose of a linear map rather than the map
//! itself and must not be substitutable for a vector.
//!
//! Every contract speaks of a normal through its view `n@`, the components
//! read as mathematical integers in declared field order; the spec functions
//! the clauses name live in [`crate::ops`].

use vstd::prelude::*;

#[allow(unused_imports)]
use crate::scalar::{BaseNum, in_rep, seq_in_rep, trunc_div};
use crate::ops;
use vstd::std_specs::convert::FromSpec;
use crate::vector::Vector3;

verus! {

/// A 1-dimensional surface-normal vector.
#[derive(Clone, Copy, Debug, PartialEq, Eq, Hash)]
pub struct Normal1<S> {
    /// The `x` component of the vector.
    pub x: S,
}

impl<S> Normal1<S> {
    /// The components as a sequence, in declared field order.
    pub open spec fn to_seq(self) -> Seq<S> {
        seq![self.x]
    }

    /// Construct a new vector, using the provided values.
    pub fn new(x: S) -> (r: Normal1<S>)
        ensures
            r.x == x,
    {
        Normal1 { x }
    }
}

/// The short constructor.
pub fn norm1<S>(x: S) -> (r: Normal1<S>)
    ensures
        r.x == x,
{
    Normal1::new(x)
}

impl<S: Copy> Normal1<S> {
    /// Broadcast a single scalar to all components.
    pub fn from_value(scalar: S) -> (r: Normal1<S>)
        ensures
            r.x == scalar,
    {
        Normal1 { x: scalar }
    }

    /// Component `i`, in declared field order (x = 0).
    /// An index at or past the arity is ruled out by the `requires`, never
    /// clamped.
    pub fn index(&self, i: usize) -> (r: S)
        requires
            i < 1,
        ensures
            r == self.to_seq()[i as int],
    {
        self.x
    }

    /// Replace component `i`, leaving every other component as it was.
    pub fn set_index(&mut self, i: usize, value: S)
        requires
            i < 1,
        ensures
            final(self).to_seq() == old(self).to_seq().update(i as int, value),
    {
        self.x = value;
        proof {
            assert(self.to_seq() =~= old(self).to_seq().update(i as int, value));
        }
    }

    /// The components `lo..hi`, in order; an empty range is valid and yields
    /// an empty result.
    pub fn index_range(&self, lo: usize, hi: usize) -> (r: Vec<S>)
        requires
            lo <= hi <= 1,
        ensures
            r@ == self.to_seq().subrange(lo as int, hi as int),
    {
        let mut r: Vec<S> = Vec::new();
        if lo <= 0 && 0 < hi {
            r.push(self.x);
        }
        proof {
            assert(r@ =~= self.to_seq().subrange(lo as int, hi as int));
        }
        r
    }

    /// The components `..hi`.
    pub fn index_to(&self, hi: usize) -> (r: Vec<S>)
        requires
            hi <= 1,
        ensures
            r@ == self.to_seq().subrange(0, hi as int),
    {
        self.index_range(0, hi)
    }

    /// The components `lo..`.
    pub fn index_from(&self, lo: usize) -> (r: Vec<S>)
        requires
            lo <= 1,
        ensures
            r@ == self.to_seq().subrange(lo as int, 1),
    {
        self.index_range(lo, 1)
    }

    /// All the components, in order.
    pub fn components(&self) -> (r: Vec<S>)
        ensures
            r@ == self.to_seq(),
    {
        let r = self.index_range(0, 1);
        proof {
            assert(r@ =~= self.to_seq());
        }
        r
    }

    /// The components as a fixed array of the same arity.
    pub fn to_array(&self) -> (r: [S; 1])
        ensures
            r@ == self.to_seq(),
    {
        let r = [self.x];
        proof {
            assert(r@ =~= self.to_seq());
        }
        r
    }

    /// The components as a tuple of the same arity.
    pub fn to_tuple(&self) -> (r: (S,))
        ensures
            r.0 == self.x,
    {
        (self.x,)
    }
}

impl<S: Copy> From<[S; 1]> for Normal1<S> {
    fn from(v: [S; 1]) -> (r: Normal1<S>) {
        Normal1 { x: v[0] }
    }
}

impl<S: Copy> vstd::std_specs::convert::FromSpecImpl<[S; 1]> for Normal1<S> {
    open spec fn obeys_from_spec() -> bool {
        true
    }

    open spec fn from_spec(v: [S; 1]) -> Normal1<S> {
        Normal1 { x: v@[0] }
    }
}

impl<S: Copy> From<(S,)> for Normal1<S> {
    fn from(v: (S,)) -> (r: Normal1<S>) {
        Normal1 { x: v.0 }
    }
}

impl<S: Copy> vstd::std_specs::convert::FromSpecImpl<(S,)> for Normal1<S> {
    open spec fn obeys_from_spec() -> bool {
        true
    }

    open spec fn from_spec(v: (S,)) -> Normal1<S> {
        Normal1 { x: v.0 }
    }
}

impl<S: crate::scalar::BaseNum> View for Normal1<S> {
    type V = Seq<int>;

    open spec fn view(&self) -> Seq<int> {
        seq![self.x.sval()]
    }
}

impl<S: BaseNum> Normal1<S> {
    /// A unit vector in the `x` direction.
    pub fn unit_x() -> (r: Normal1<S>)
        ensures
            r@ == seq![1int],
    {
        let r = Normal1::new(S::one());
        proof {
            assert(r@ =~= seq![1int]);
        }
        r
    }

    /// Component-wise addition of two vectors of the same arity.
    pub fn plus(self, other: Normal1<S>) -> (r: Normal1<S>)
        requires
            in_rep::<S>(self@[0] + other@[0]),
        ensures
            r@ == ops::add_spec(self@, other@),
    {
        let r = Normal1::new(self.x.num_add(other.x));
        proof {
            assert(r@ =~= ops::add_spec(self@, other@));
        }
        r
    }

    /// Component-wise addition in place.
    pub fn plus_assign(&mut self, other: Normal1<S>)
        requires
            in_rep::<S>(old(self)@[0] + other@[0]),
        ensures
            final(self)@ == ops::add_spec(old(self)@, other@),
    {
        self.x = self.x.num_add(other.x);
        proof {
            assert(self@ =~= ops::add_spec(old(self)@, other@));
        }
    }

    /// Component-wise subtraction of two vectors of the same arity.
    pub fn minus(self, other: Normal1<S>) -> (r: Normal1<S>)
        requires
            in_rep::<S>(self@[0] - other@[0]),
        ensures
            r@ == ops::sub_spec(self@, other@),
    {
        let r = Normal1::new(self.x.num_sub(other.x));
        proof {
            assert(r@ =~= ops::sub_spec(self@, other@));
        }
        r
    }

    /// Component-wise subtraction in place.
    pub fn minus_assign(&mut self, other: Normal1<S>)
        requires
            in_rep::<S>(old(self)@[0] - other@[0]),
        ensures
            final(self)@ == ops::sub_spec(old(self)@, other@),
    {
        self.x = self.x.num_sub(other.x);
        proof {
            assert(self@ =~= ops::sub_spec(old(self)@, other@));
        }
    }

    /// Component-wise negation.
    pub fn negate(self) -> (r: Normal1<S>)
        requires
            in_rep::<S>(-self@[0]),
        ensures
            r@ == ops::neg_spec(self@),
    {
        let r = Normal1::new(self.x.num_neg());
        proof {
            assert(r@ =~= ops::neg_spec(self@));
        }
        r
    }

    /// Every component multiplied by the scalar.
    pub fn mul_scalar(self, scalar: S) -> (r: Normal1<S>)
        requires

            in_rep::<S>(self@[0] * scalar.sval()),
        ensures
            r@ == ops::mul_scalar_spec(self@, scalar.sval()),
    {
        let r = Normal1::new(self.x.num_mul(scalar));
        proof {
            assert(r@ =~= ops::mul_scalar_spec(self@, scalar.sval()));
        }
        r
    }

    /// Every component divided (truncating) by the scalar.
    pub fn div_scalar(self, scalar: S) -> (r: Normal1<S>)
        requires
            scalar.sval() != 0,
            in_rep::<S>(trunc_div(self@[0], scalar.sval())),
        ensures
            r@ == ops::div_scalar_spec(self@, scalar.sval()),
    {
        let r = Normal1::new(self.x.num_div(scalar));
        proof {
            assert(r@ =~= ops::div_scalar_spec(self@, scalar.sval()));
        }
        r
    }

    /// The truncating remainder of every component by the scalar.
    pub fn rem_scalar(self, scalar: S) -> (r: Normal1<S>)
        requires
            scalar.sval() != 0,
            in_rep::<S>(trunc_div(self@[0], scalar.sval())),
        ensures
            r@ == ops::rem_scalar_spec(self@, scalar.sval()),
    {
        let r = Normal1::new(self.x.num_rem(scalar));
        proof {
            assert(r@ =~= ops::rem_scalar_spec(self@, scalar.sval()));
        }
        r
    }

    /// Multiplication by the scalar, in place.
    pub fn mul_assign(&mut self, scalar: S)
        requires

            in_rep::<S>(old(self)@[0] * scalar.sval()),
        ensures
            final(self)@ == ops::mul_scalar_spec(old(self)@, scalar.sval()),
    {
        self.x = self.x.num_mul(scalar);
        proof {
            assert(self@ =~= ops::mul_scalar_spec(old(self)@, scalar.sval()));
        }
    }

    /// Truncating division by the scalar, in place.
    pub fn div_assign(&mut self, scalar: S)
        requires
            scalar.sval() != 0,
            in_rep::<S>(trunc_div(old(self)@[0], scalar.sval())),
        ensures
            final(self)@ == ops::div_scalar_spec(old(self)@, scalar.sval()),
    {
        self.x = self.x.num_div(scalar);
        proof {
            assert(self@ =~= ops::div_scalar_spec(old(self)@, scalar.sval()));
        }
    }

    /// The truncating remainder by the scalar, in place.
    pub fn rem_assign(&mut self, scalar: S)
        requires
            scalar.sval() != 0,
            in_rep::<S>(trunc_div(old(self)@[0], scalar.sval())),
        ensures
            final(self)@ == ops::rem_scalar_spec(old(self)@, scalar.sval()),
    {
        self.x = self.x.num_rem(scalar);
        proof {
            assert(self@ =~= ops::rem_scalar_spec(old(self)@, scalar.sval()));
        }
    }

    /// The scalar on the left multiplied onto every component.
    pub fn scalar_mul(scalar: S, v: Normal1<S>) -> (r: Normal1<S>)
        requires

            in_rep::<S>(scalar.sval() * v@[0]),
        ensures
            r@ == ops::scalar_mul_spec(scalar.sval(), v@),
    {
        let r = Normal1::new(scalar.num_mul(v.x));
        proof {
            assert(r@ =~= ops::scalar_mul_spec(scalar.sval(), v@));
        }
        r
    }

    /// The scalar on the left divided (truncating) by every component.
    pub fn scalar_div(scalar: S, v: Normal1<S>) -> (r: Normal1<S>)
        requires
            v@[0] != 0,
            in_rep::<S>(trunc_div(scalar.sval(), v@[0])),
        ensures
            r@ == ops::scalar_div_spec(scalar.sval(), v@),
    {
        let r = Normal1::new(scalar.num_div(v.x));
        proof {
            assert(r@ =~= ops::scalar_div_spec(scalar.sval(), v@));
        }
        r
    }

    /// The truncating remainder of the scalar on the left by every component.
    pub fn scalar_rem(scalar: S, v: Normal1<S>) -> (r: Normal1<S>)
        requires
            v@[0] != 0,
            in_rep::<S>(trunc_div(scalar.sval(), v@[0])),
        ensures
            r@ == ops::scalar_rem_spec(scalar.sval(), v@),
    {
        let r = Normal1::new(scalar.num_rem(v.x));
        proof {
            assert(r@ =~= ops::scalar_rem_spec(scalar.sval(), v@));
        }
        r
    }

    /// Component-wise addition, under its element-wise name.
    pub fn add_element_wise(self, other: Normal1<S>) -> (r: Normal1<S>)
        requires
            in_rep::<S>(self@[0] + other@[0]),
        ensures
            r@ == ops::add_spec(self@, other@),
    {
        self.plus(other)
    }

    /// Component-wise subtraction, under its element-wise name.
    pub fn sub_element_wise(self, other: Normal1<S>) -> (r: Normal1<S>)
        requires
            in_rep::<S>(self@[0] - other@[0]),
        ensures
            r@ == ops::sub_spec(self@, other@),
    {
        self.minus(other)
    }

    /// Component-wise multiplication (an element-wise operation, not a linear-algebra one).
    pub fn mul_element_wise(self, other: Normal1<S>) -> (r: Normal1<S>)
        requires
            in_rep::<S>(self@[0] * other@[0]),
        ensures
            r@ == ops::mul_ew_spec(self@, other@),
    {
        let r = Normal1::new(self.x.num_mul(other.x));
        proof {
            assert(r@ =~= ops::mul_ew_spec(self@, other@));
        }
        r
    }

    /// Component-wise truncating division.
    pub fn div_element_wise(self, other: Normal1<S>) -> (r: Normal1<S>)
        requires
            other@[0] != 0,
            in_rep::<S>(trunc_div(self@[0], other@[0])),
        ensures
            r@ == ops::div_ew_spec(self@, other@),
    {
        let r = Normal1::new(self.x.num_div(other.x));
        proof {
            assert(r@ =~= ops::div_ew_spec(self@, other@));
        }
        r
    }

    /// Component-wise truncating remainder.
    pub fn rem_element_wise(self, other: Normal1<S>) -> (r: Normal1<S>)
        requires
            other@[0] != 0,
            in_rep::<S>(trunc_div(self@[0], other@[0])),
        ensures
            r@ == ops::rem_ew_spec(self@, other@),
    {
        let r = Normal1::new(self.x.num_rem(other.x));
        proof {
            assert(r@ =~= ops::rem_ew_spec(self@, other@));
        }
        r
    }

    /// The left-to-right sum of the components.
    pub fn sum(self) -> (r: S)
        requires

        ensures
            r.sval() == ops::sum_spec(self@),
    {
        proof {
            ops::lemma_sum1(self@);
        }
        self.x
    }

    /// The left-to-right product of the components.
    pub fn product(self) -> (r: S)
        requires

        ensures
            r.sval() == ops::product_spec(self@),
    {
        proof {
            ops::lemma_product1(self@);
        }
        self.x
    }

    /// The left-to-right minimum fold of the components; the earlier
    /// value is preferred on a tie.
    pub fn min(self) -> (r: S)
        ensures
            r.sval() == ops::min_fold_spec(self@),
    {
        self.x
    }

    /// The left-to-right maximum fold of the components; the earlier
    /// value is preferred on a tie.
    pub fn max(self) -> (r: S)
        ensures
            r.sval() == ops::max_fold_spec(self@),
    {
        self.x
    }

    /// Component-wise minimum of two vectors, producing a new vector.
    pub fn pluck_min(self, other: Normal1<S>) -> (r: Normal1<S>)
        ensures
            r@ == ops::pluck_min_spec(self@, other@),
    {
        let x: S = if self.x.num_le(other.x) { self.x } else { other.x };
        let r = Normal1::new(x);
        proof {
            assert(r@ =~= ops::pluck_min_spec(self@, other@));
        }
        r
    }

    /// Component-wise maximum of two vectors, producing a new vector.
    pub fn pluck_max(self, other: Normal1<S>) -> (r: Normal1<S>)
        ensures
            r@ == ops::pluck_max_spec(self@, other@),
    {
        let x: S = if other.x.num_le(self.x) { self.x } else { other.x };
        let r = Normal1::new(x);
        proof {
            assert(r@ =~= ops::pluck_max_spec(self@, other@));
        }
        r
    }

    /// The zero vector.
    pub fn zero() -> (r: Normal1<S>)
        ensures
            r@ == ops::broadcast_spec(1, 0),
    {
        let r = Normal1::from_value(S::zero());
        proof {
            assert(r@ =~= ops::broadcast_spec(1, 0));
        }
        r
    }

    /// Whether every component is zero.
    pub fn is_zero(&self) -> (r: bool)
        ensures
            r == ops::is_zero_spec(self@),
    {
        let z: S = S::zero();
        let r = self.x.num_eq(z);
        proof {
            if r {
                assert forall|i: int| 0 <= i < self@.len() implies self@[i] == 0 by {}
            } else {
                assert(self@[0] == self.x.sval());
            }
        }
        r
    }

    /// The dot product: the left-to-right sum of the component-wise
    /// products.
    pub fn dot(self, other: Normal1<S>) -> (r: S)
        requires
            in_rep::<S>(self@[0] * other@[0]),
        ensures
            r.sval() == ops::dot_spec(self@, other@),
    {
        proof {
            ops::lemma_dot1(self@, other@);
        }
        self.x.num_mul(other.x)
    }

    /// The squared magnitude: the dot product of the vector with itself.
    pub fn magnitude2(self) -> (r: S)
        requires
            in_rep::<S>(self@[0] * self@[0]),
        ensures
            r.sval() == ops::dot_spec(self@, self@),
            r.sval() >= 0,
    {
        proof {
            ops::lemma_dot_self_nonneg(self@);
        }
        self.dot(self)
    }

    /// The squared distance between `self` and `other` read as points: the
    /// squared magnitude of their difference.
    pub fn distance2(self, other: Normal1<S>) -> (r: S)
        requires
            in_rep::<S>((other@[0] - self@[0])),
            in_rep::<S>((other@[0] - self@[0]) * (other@[0] - self@[0])),
        ensures
            r.sval() == ops::dot_spec(ops::sub_spec(other@, self@), ops::sub_spec(other@, self@)),
    {
        let d = other.minus(self);
        d.magnitude2()
    }

    /// Component-wise conversion to another scalar type: `Some` with every
    /// component carried over exactly when each is representable in the
    /// target type, `None` otherwise.
    pub fn cast<T: BaseNum>(&self) -> (r: Option<Normal1<T>>)
        ensures
            (match r {
                Some(v) => v@ == self@ && seq_in_rep::<T>(self@),
                None => !seq_in_rep::<T>(self@),
            }),
    {
        let cx: Option<T> = T::from_wide(self.x.to_wide());
        if cx.is_some() {
            let v = Normal1::new(cx.unwrap());
            proof {
                assert(v@ =~= self@);
                assert forall|i: int| 0 <= i < self@.len() implies in_rep::<T>(self@[i]) by {}
            }
            Some(v)
        } else {
            proof {
                if cx.is_none() {
                    assert(!in_rep::<T>(self@[0]));
                }
                assert(!seq_in_rep::<T>(self@));
            }
            None
        }
    }
}

/// A 2-dimensional surface-normal vector.
#[derive(Clone, Copy, Debug, PartialEq, Eq, Hash)]
pub struct Normal2<S> {
    /// The `x` component of the vector.
    pub x: S,
    /// The `y` component of the vector.
    pub y: S,
}

impl<S> Normal2<S> {
    /// The components as a sequence, in declared field order.
    pub open spec fn to_seq(self) -> Seq<S> {
        seq![self.x, self.y]
    }

    /// Construct a new vector, using the provided values.
    pub fn new(x: S, y: S) -> (r: Normal2<S>)
        ensures
            r.x == x,
            r.y == y,
    {
        Normal2 { x, y }
    }
}

/// The short constructor.
pub fn norm2<S>(x: S, y: S) -> (r: Normal2<S>)
    ensures
        r.x == x,
        r.y == y,
{
    Normal2::new(x, y)
}

impl<S: Copy> Normal2<S> {
    /// Broadcast a single scalar to all components.
    pub fn from_value(scalar: S) -> (r: Normal2<S>)
        ensures
            r.x == scalar,
            r.y == scalar,
    {
        Normal2 { x: scalar, y: scalar }
    }

    /// Component `i`, in declared field order (x = 0, y = 1).
    /// An index at or past the arity is ruled out by the `requires`, never
    /// clamped.
    pub fn index(&self, i: usize) -> (r: S)
        requires
            i < 2,
        ensures
            r == self.to_seq()[i as int],
    {
        if i == 0 {
            self.x
        } else {
            self.y
        }
    }

    /// Replace component `i`, leaving every other component as it was.
    pub fn set_index(&mut self, i: usize, value: S)
        requires
            i < 2,
        ensures
            final(self).to_seq() == old(self).to_seq().update(i as int, value),
    {
        if i == 0 {
            self.x = value;
        } else {
            self.y = value;
        }
        proof {
            assert(self.to_seq() =~= old(self).to_seq().update(i as int, value));
        }
    }

    /// The components `lo..hi`, in order; an empty range is valid and yields
    /// an empty result.
    pub fn index_range(&self, lo: usize, hi: usize) -> (r: Vec<S>)
        requires
            lo <= hi <= 2,
        ensures
            r@ == self.to_seq().subrange(lo as int, hi as int),
    {
        let mut r: Vec<S> = Vec::new();
        if lo <= 0 && 0 < hi {
            r.push(self.x);
        }
        if lo <= 1 && 1 < hi {
            r.push(self.y);
        }
        proof {
            assert(r@ =~= self.to_seq().subrange(lo as int, hi as int));
        }
        r
    }

    /// The components `..hi`.
    pub fn index_to(&self, hi: usize) -> (r: Vec<S>)
        requires
            hi <= 2,
        ensures
            r@ == self.to_seq().subrange(0, hi as int),
    {
        self.index_range(0, hi)
    }

    /// The components `lo..`.
    pub fn index_from(&self, lo: usize) -> (r: Vec<S>)
        requires
            lo <= 2,
        ensures
            r@ == self.to_seq().subrange(lo as int, 2),
    {
        self.index_range(lo, 2)
    }

    /// All the components, in order.
    pub fn components(&self) -> (r: Vec<S>)
        ensures
            r@ == self.to_seq(),
    {
        let r = self.index_range(0, 2);
        proof {
            assert(r@ =~= self.to_seq());
        }
        r
    }

    /// The components as a fixed array of the same arity.
    pub fn to_array(&self) -> (r: [S; 2])
        ensures
            r@ == self.to_seq(),
    {
        let r = [self.x, self.y];
        proof {
            assert(r@ =~= self.to_seq());
        }
        r
    }

    /// The components as a tuple of the same arity.
    pub fn to_tuple(&self) -> (r: (S, S))
        ensures
            r.0 == self.x,
            r.1 == self.y,
    {
        (self.x, self.y)
    }
}

impl<S: Copy> From<[S; 2]> for Normal2<S> {
    fn from(v: [S; 2]) -> (r: Normal2<S>) {
        Normal2 { x: v[0], y: v[1] }
    }
}

impl<S: Copy> vstd::std_specs::convert::FromSpecImpl<[S; 2]> for Normal2<S> {
    open spec fn obeys_from_spec() -> bool {
        true
    }

    open spec fn from_spec(v: [S; 2]) -> Normal2<S> {
        Normal2 { x: v@[0], y: v@[1] }
    }
}

impl<S: Copy> From<(S, S)> for Normal2<S> {
    fn from(v: (S, S)) -> (r: Normal2<S>) {
        Normal2 { x: v.0, y: v.1 }
    }
}

impl<S: Copy> vstd::std_specs::convert::FromSpecImpl<(S, S)> for Normal2<S> {
    open spec fn obeys_from_spec() -> bool {
        true
    }

    open spec fn from_spec(v: (S, S)) -> Normal2<S> {
        Normal2 { x: v.0, y: v.1 }
    }
}

impl<S: crate::scalar::BaseNum> View for Normal2<S> {
    type V = Seq<int>;

    open spec fn view(&self) -> Seq<int> {
        seq![self.x.sval(), self.y.sval()]
    }
}

impl<S: BaseNum> Normal2<S> {
    /// A unit vector in the `x` direction.
    pub fn unit_x() -> (r: Normal2<S>)
        ensures
            r@ == seq![1int, 0int],
    {
        let r = Normal2::new(S::one(), S::zero());
        proof {
            assert(r@ =~= seq![1int, 0int]);
        }
        r
    }

    /// A unit vector in the `y` direction.
    pub fn unit_y() -> (r: Normal2<S>)
        ensures
            r@ == seq![0int, 1int],
    {
        let r = Normal2::new(S::zero(), S::one());
        proof {
            assert(r@ =~= seq![0int, 1int]);
        }
        r
    }

    /// Component-wise addition of two vectors of the same arity.
    pub fn plus(self, other: Normal2<S>) -> (r: Normal2<S>)
        requires
            in_rep::<S>(self@[0] + other@[0]),
            in_rep::<S>(self@[1] + other@[1]),
        ensures
            r@ == ops::add_spec(self@, other@),
    {
        let r = Normal2::new(self.x.num_add(other.x), self.y.num_add(other.y));
        proof {
            assert(r@ =~= ops::add_spec(self@, other@));
        }
        r
    }

    /// Component-wise addition in place.
    pub fn plus_assign(&mut self, other: Normal2<S>)
        requires
            in_rep::<S>(old(self)@[0] + other@[0]),
            in_rep::<S>(old(self)@[1] + other@[1]),
        ensures
            final(self)@ == ops::add_spec(old(self)@, other@),
    {
        self.x = self.x.num_add(other.x);
        self.y = self.y.num_add(other.y);
        proof {
            assert(self@ =~= ops::add_spec(old(self)@, other@));
        }
    }

    /// Component-wise subtraction of two vectors of the same arity.
    pub fn minus(self, other: Normal2<S>) -> (r: Normal2<S>)
        requires
            in_rep::<S>(self@[0] - other@[0]),
            in_rep::<S>(self@[1] - other@[1]),
        ensures
            r@ == ops::sub_spec(self@, other@),
    {
        let r = Normal2::new(self.x.num_sub(other.x), self.y.num_sub(other.y));
        proof {
            assert(r@ =~= ops::sub_spec(self@, other@));
        }
        r
    }

    /// Component-wise subtraction in place.
    pub fn minus_assign(&mut self, other: Normal2<S>)
        requires
            in_rep::<S>(old(self)@[0] - other@[0]),
            in_rep::<S>(old(self)@[1] - other@[1]),
        ensures
            final(self)@ == ops::sub_spec(old(self)@, other@),
    {
        self.x = self.x.num_sub(other.x);
        self.y = self.y.num_sub(other.y);
        proof {
            assert(self@ =~= ops::sub_spec(old(self)@, other@));
        }
    }

    /// Component-wise negation.
    pub fn negate(self) -> (r: Normal2<S>)
        requires
            in_rep::<S>(-self@[0]),
            in_rep::<S>(-self@[1]),
        ensures
            r@ == ops::neg_spec(self@),
    {
        let r = Normal2::new(self.x.num_neg(), self.y.num_neg());
        proof {
            assert(r@ =~= ops::neg_spec(self@));
        }
        r
    }

    /// Every component multiplied by the scalar.
    pub fn mul_scalar(self, scalar: S) -> (r: Normal2<S>)
        requires

            in_rep::<S>(self@[0] * scalar.sval()),
            in_rep::<S>(self@[1] * scalar.sval()),
        ensures
            r@ == ops::mul_scalar_spec(self@, scalar.sval()),
    {
        let r = Normal2::new(self.x.num_mul(scalar), self.y.num_mul(scalar));
        proof {
            assert(r@ =~= ops::mul_scalar_spec(self@, scalar.sval()));
        }
        r
    }

    /// Every component divided (truncating) by the scalar.
    pub fn div_scalar(self, scalar: S) -> (r: Normal2<S>)
        requires
            scalar.sval() != 0,
            in_rep::<S>(trunc_div(self@[0], scalar.sval())),
            in_rep::<S>(trunc_div(self@[1], scalar.sval())),
        ensures
            r@ == ops::div_scalar_spec(self@, scalar.sval()),
    {
        let r = Normal2::new(self.x.num_div(scalar), self.y.num_div(scalar));
        proof {
            assert(r@ =~= ops::div_scalar_spec(self@, scalar.sval()));
        }
        r
    }

    /// The truncating remainder of every component by the scalar.
    pub fn rem_scalar(self, scalar: S) -> (r: Normal2<S>)
        requires
            scalar.sval() != 0,
            in_rep::<S>(trunc_div(self@[0], scalar.sval())),
            in_rep::<S>(trunc_div(self@[1], scalar.sval())),
        ensures
            r@ == ops::rem_scalar_spec(self@, scalar.sval()),
    {
        let r = Normal2::new(self.x.num_rem(scalar), self.y.num_rem(scalar));
        proof {
            assert(r@ =~= ops::rem_scalar_spec(self@, scalar.sval()));
        }
        r
    }

    /// Multiplication by the scalar, in place.
    pub fn mul_assign(&mut self, scalar: S)
        requires

            in_rep::<S>(old(self)@[0] * scalar.sval()),
            in_rep::<S>(old(self)@[1] * scalar.sval()),
        ensures
            final(self)@ == ops::mul_scalar_spec(old(self)@, scalar.sval()),
    {
        self.x = self.x.num_mul(scalar);
        self.y = self.y.num_mul(scalar);
        proof {
            assert(self@ =~= ops::mul_scalar_spec(old(self)@, scalar.sval()));
        }
    }

    /// Truncating division by the scalar, in place.
    pub fn div_assign(&mut self, scalar: S)
        requires
            scalar.sval() != 0,
            in_rep::<S>(trunc_div(old(self)@[0], scalar.sval())),
            in_rep::<S>(trunc_div(old(self)@[1], scalar.sval())),
        ensures
            final(self)@ == ops::div_scalar_spec(old(self)@, scalar.sval()),
    {
        self.x = self.x.num_div(scalar);
        self.y = self.y.num_div(scalar);
        proof {
            assert(self@ =~= ops::div_scalar_spec(old(self)@, scalar.sval()));
        }
    }

    /// The truncating remainder by the scalar, in place.
    pub fn rem_assign(&mut self, scalar: S)
        requires
            scalar.sval() != 0,
            in_rep::<S>(trunc_div(old(self)@[0], scalar.sval())),
            in_rep::<S>(trunc_div(old(self)@[1], scalar.sval())),
        ensures
            final(self)@ == ops::rem_scalar_spec(old(self)@, scalar.sval()),
    {
        self.x = self.x.num_rem(scalar);
        self.y = self.y.num_rem(scalar);
        proof {
            assert(self@ =~= ops::rem_scalar_spec(old(self)@, scalar.sval()));
        }
    }

    /// The scalar on the left multiplied onto every component.
    pub fn scalar_mul(scalar: S, v: Normal2<S>) -> (r: Normal2<S>)
        requires

            in_rep::<S>(scalar.sval() * v@[0]),
            in_rep::<S>(scalar.sval() * v@[1]),
        ensures
            r@ == ops::scalar_mul_spec(scalar.sval(), v@),
    {
        let r = Normal2::new(scalar.num_mul(v.x), scalar.num_mul(v.y));
        proof {
            assert(r@ =~= ops::scalar_mul_spec(scalar.sval(), v@));
        }
        r
    }

    /// The scalar on the left divided (truncating) by every component.
    pub fn scalar_div(scalar: S, v: Normal2<S>) -> (r: Normal2<S>)
        requires
            v@[0] != 0,
            v@[1] != 0,
            in_rep::<S>(trunc_div(scalar.sval(), v@[0])),
            in_rep::<S>(trunc_div(scalar.sval(), v@[1])),
        ensures
            r@ == ops::scalar_div_spec(scalar.sval(), v@),
    {
        let r = Normal2::new(scalar.num_div(v.x), scalar.num_div(v.y));
        proof {
            assert(r@ =~= ops::scalar_div_spec(scalar.sval(), v@));
        }
        r
    }

    /// The truncating remainder of the scalar on the left by every component.
    pub fn scalar_rem(scalar: S, v: Normal2<S>) -> (r: Normal2<S>)
        requires
            v@[0] != 0,
            v@[1] != 0,
            in_rep::<S>(trunc_div(scalar.sval(), v@[0])),
            in_rep::<S>(trunc_div(scalar.sval(), v@[1])),
        ensures
            r@ == ops::scalar_rem_spec(scalar.sval(), v@),
    {
        let r = Normal2::new(scalar.num_rem(v.x), scalar.num_rem(v.y));
        proof {
            assert(r@ =~= ops::scalar_rem_spec(scalar.sval(), v@));
        }
        r
    }

    /// Component-wise addition, under its element-wise name.
    pub fn add_element_wise(self, other: Normal2<S>) -> (r: Normal2<S>)
        requires
            in_rep::<S>(self@[0] + other@[0]),
            in_rep::<S>(self@[1] + other@[1]),
        ensures
            r@ == ops::add_spec(self@, other@),
    {
        self.plus(other)
    }

    /// Component-wise subtraction, under its element-wise name.
    pub fn sub_element_wise(self, other: Normal2<S>) -> (r: Normal2<S>)
        requires
            in_rep::<S>(self@[0] - other@[0]),
            in_rep::<S>(self@[1] - other@[1]),
        ensures
            r@ == ops::sub_spec(self@, other@),
    {
        self.minus(other)
    }

    /// Component-wise multiplication (an element-wise operation, not a linear-algebra one).
    pub fn mul_element_wise(self, other: Normal2<S>) -> (r: Normal2<S>)
        requires
            in_rep::<S>(self@[0] * other@[0]),
            in_rep::<S>(self@[1] * other@[1]),
        ensures
            r@ == ops::mul_ew_spec(self@, other@),
    {
        let r = Normal2::new(self.x.num_mul(other.x), self.y.num_mul(other.y));
        proof {
            assert(r@ =~= ops::mul_ew_spec(self@, other@));
        }
        r
    }

    /// Component-wise truncating division.
    pub fn div_element_wise(self, other: Normal2<S>) -> (r: Normal2<S>)
        requires
            other@[0] != 0,
            other@[1] != 0,
            in_rep::<S>(trunc_div(self@[0], other@[0])),
            in_rep::<S>(trunc_div(self@[1], other@[1])),
        ensures
            r@ == ops::div_ew_spec(self@, other@),
    {
        let r = Normal2::new(self.x.num_div(other.x), self.y.num_div(other.y));
        proof {
            assert(r@ =~= ops::div_ew_spec(self@, other@));
        }
        r
    }

    /// Component-wise truncating remainder.
    pub fn rem_element_wise(self, other: Normal2<S>) -> (r: Normal2<S>)
        requires
            other@[0] != 0,
            other@[1] != 0,
            in_rep::<S>(trunc_div(self@[0], other@[0])),
            in_rep::<S>(trunc_div(self@[1], other@[1])),
        ensures
            r@ == ops::rem_ew_spec(self@, other@),
    {
        let r = Normal2::new(self.x.num_rem(other.x), self.y.num_rem(other.y));
        proof {
            assert(r@ =~= ops::rem_ew_spec(self@, other@));
        }
        r
    }

    /// The left-to-right sum of the components.
    pub fn sum(self) -> (r: S)
        requires
            in_rep::<S>(self@[0] + self@[1]),
        ensures
            r.sval() == ops::sum_spec(self@),
    {
        proof {
            ops::lemma_sum2(self@);
        }
        self.x.num_add(self.y)
    }

    /// The left-to-right product of the components.
    pub fn product(self) -> (r: S)
        requires
            in_rep::<S>(self@[0] * self@[1]),
        ensures
            r.sval() == ops::product_spec(self@),
    {
        proof {
            ops::lemma_product2(self@);
        }
        self.x.num_mul(self.y)
    }

    /// The left-to-right minimum fold of the components; the earlier
    /// value is preferred on a tie.
    pub fn min(self) -> (r: S)
        ensures
            r.sval() == ops::min_fold_spec(self@),
    {
        proof {
            ops::lemma_min_fold2(self@);
        }
        let m0: S = if self.x.num_le(self.y) { self.x } else { self.y };
        m0
    }

    /// The left-to-right maximum fold of the components; the earlier
    /// value is preferred on a tie.
    pub fn max(self) -> (r: S)
        ensures
            r.sval() == ops::max_fold_spec(self@),
    {
        proof {
            ops::lemma_max_fold2(self@);
        }
        let m0: S = if self.y.num_le(self.x) { self.x } else { self.y };
        m0
    }

    /// Component-wise minimum of two vectors, producing a new vector.
    pub fn pluck_min(self, other: Normal2<S>) -> (r: Normal2<S>)
        ensures
            r@ == ops::pluck_min_spec(self@, other@),
    {
        let x: S = if self.x.num_le(other.x) { self.x } else { other.x };
        let y: S = if self.y.num_le(other.y) { self.y } else { other.y };
        let r = Normal2::new(x, y);
        proof {
            assert(r@ =~= ops::pluck_min_spec(self@, other@));
        }
        r
    }

    /// Component-wise maximum of two vectors, producing a new vector.
    pub fn pluck_max(self, other: Normal2<S>) -> (r: Normal2<S>)
        ensures
            r@ == ops::pluck_max_spec(self@, other@),
    {
        let x: S = if other.x.num_le(self.x) { self.x } else { other.x };
        let y: S = if other.y.num_le(self.y) { self.y } else { other.y };
        let r = Normal2::new(x, y);
        proof {
            assert(r@ =~= ops::pluck_max_spec(self@, other@));
        }
        r
    }

    /// The zero vector.
    pub fn zero() -> (r: Normal2<S>)
        ensures
            r@ == ops::broadcast_spec(2, 0),
    {
        let r = Normal2::from_value(S::zero());
        proof {
            assert(r@ =~= ops::broadcast_spec(2, 0));
        }
        r
    }

    /// Whether every component is zero.
    pub fn is_zero(&self) -> (r: bool)
        ensures
            r == ops::is_zero_spec(self@),
    {
        let z: S = S::zero();
        let r = self.x.num_eq(z) && self.y.num_eq(z);
        proof {
            if r {
                assert forall|i: int| 0 <= i < self@.len() implies self@[i] == 0 by {}
            } else {
                assert(self@[0] == self.x.sval());
                assert(self@[1] == self.y.sval());
            }
        }
        r
    }

    /// The dot product: the left-to-right sum of the component-wise
    /// products.
    pub fn dot(self, other: Normal2<S>) -> (r: S)
        requires
            in_rep::<S>(self@[0] * other@[0]),
            in_rep::<S>(self@[1] * other@[1]),
            in_rep::<S>(self@[0] * other@[0] + self@[1] * other@[1]),
        ensures
            r.sval() == ops::dot_spec(self@, other@),
    {
        proof {
            ops::lemma_dot2(self@, other@);
        }
        self.x.num_mul(other.x).num_add(self.y.num_mul(other.y))
    }

    /// The squared magnitude: the dot product of the vector with itself.
    pub fn magnitude2(self) -> (r: S)
        requires
            in_rep::<S>(self@[0] * self@[0]),
            in_rep::<S>(self@[1] * self@[1]),
            in_rep::<S>(self@[0] * self@[0] + self@[1] * self@[1]),
        ensures
            r.sval() == ops::dot_spec(self@, self@),
            r.sval() >= 0,
    {
        proof {
            ops::lemma_dot_self_nonneg(self@);
        }
        self.dot(self)
    }

    /// The squared distance between `self` and `other` read as points: the
    /// squared magnitude of their difference.
    pub fn distance2(self, other: Normal2<S>) -> (r: S)
        requires
            in_rep::<S>((other@[0] - self@[0])),
            in_rep::<S>((other@[1] - self@[1])),
            in_rep::<S>((other@[0] - self@[0]) * (other@[0] - self@[0])),
            in_rep::<S>((other@[1] - self@[1]) * (other@[1] - self@[1])),
            in_rep::<S>((other@[0] - self@[0]) * (other@[0] - self@[0]) + (other@[1] - self@[1]) * (other@[1] - self@[1])),
        ensures
            r.sval() == ops::dot_spec(ops::sub_spec(other@, self@), ops::sub_spec(other@, self@)),
    {
        let d = other.minus(self);
        d.magnitude2()
    }

    /// Component-wise conversion to another scalar type: `Some` with every
    /// component carried over exactly when each is representable in the
    /// target type, `None` otherwise.
    pub fn cast<T: BaseNum>(&self) -> (r: Option<Normal2<T>>)
        ensures
            (match r {
                Some(v) => v@ == self@ && seq_in_rep::<T>(self@),
                None => !seq_in_rep::<T>(self@),
            }),
    {
        let cx: Option<T> = T::from_wide(self.x.to_wide());
        let cy: Option<T> = T::from_wide(self.y.to_wide());
        if cx.is_some() && cy.is_some() {
            let v = Normal2::new(cx.unwrap(), cy.unwrap());
            proof {
                assert(v@ =~= self@);
                assert forall|i: int| 0 <= i < self@.len() implies in_rep::<T>(self@[i]) by {}
            }
            Some(v)
        } else {
            proof {
                if cx.is_none() {
                    assert(!in_rep::<T>(self@[0]));
                } else if cy.is_none() {
                    assert(!in_rep::<T>(self@[1]));
                }
                assert(!seq_in_rep::<T>(self@));
            }
            None
        }
    }

    /// The perpendicular dot product of the vector and `other`.
    pub fn perp_dot(self, other: Normal2<S>) -> (r: S)
        requires
            in_rep::<S>(self@[0] * other@[1]),
            in_rep::<S>(self@[1] * other@[0]),
            in_rep::<S>(self@[0] * other@[1] - self@[1] * other@[0]),
        ensures
            r.sval() == ops::perp_dot_spec(self@, other@),
    {
        self.x.num_mul(other.y).num_sub(self.y.num_mul(other.x))
    }

    /// Create a `Normal3`, using the `x` and `y` values from this vector, and
    /// the provided `z`.
    pub fn extend(self, z: S) -> (r: Normal3<S>)
        ensures
            r@ == self@.push(z.sval()),
    {
        let r = Normal3::new(self.x, self.y, z);
        proof {
            assert(r@ =~= self@.push(z.sval()));
        }
        r
    }
}

/// A 3-dimensional surface-normal vector.
#[derive(Clone, Copy, Debug, PartialEq, Eq, Hash)]
pub struct Normal3<S> {
    /// The `x` component of the vector.
    pub x: S,
    /// The `y` component of the vector.
    pub y: S,
    /// The `z` component of the vector.
    pub z: S,
}

impl<S> Normal3<S> {
    /// The components as a sequence, in declared field order.
    pub open spec fn to_seq(self) -> Seq<S> {
        seq![self.x, self.y, self.z]
    }

    /// Construct a new vector, using the provided values.
    pub fn new(x: S, y: S, z: S) -> (r: Normal3<S>)
        ensures
            r.x == x,
            r.y == y,
            r.z == z,
    {
        Normal3 { x, y, z }
    }
}

/// The short constructor.
pub fn norm3<S>(x: S, y: S, z: S) -> (r: Normal3<S>)
    ensures
        r.x == x,
        r.y == y,
        r.z == z,
{
    Normal3::new(x, y, z)
}

impl<S: Copy> Normal3<S> {
    /// Broadcast a single scalar to all components.
    pub fn from_value(scalar: S) -> (r: Normal3<S>)
        ensures
            r.x == scalar,
            r.y == scalar,
            r.z == scalar,
    {
        Normal3 { x: scalar, y: scalar, z: scalar }
    }

    /// Component `i`, in declared field order (x = 0, y = 1, z = 2).
    /// An index at or past the arity is ruled out by the `requires`, never
    /// clamped.
    pub fn index(&self, i: usize) -> (r: S)
        requires
            i < 3,
        ensures
            r == self.to_seq()[i as int],
    {
        if i == 0 {
            self.x
        } else if i == 1 {
            self.y
        } else {
            self.z
        }
    }

    /// Replace component `i`, leaving every other component as it was.
    pub fn set_index(&mut self, i: usize, value: S)
        requires
            i < 3,
        ensures
            final(self).to_seq() == old(self).to_seq().update(i as int, value),
    {
        if i == 0 {
            self.x = value;
        } else if i == 1 {
            self.y = value;
        } else {
            self.z = value;
        }
        proof {
            assert(self.to_seq() =~= old(self).to_seq().update(i as int, value));
        }
    }

    /// The components `lo..hi`, in order; an empty range is valid and yields
    /// an empty result.
    pub fn index_range(&self, lo: usize, hi: usize) -> (r: Vec<S>)
        requires
            lo <= hi <= 3,
        ensures
            r@ == self.to_seq().subrange(lo as int, hi as int),
    {
        let mut r: Vec<S> = Vec::new();
        if lo <= 0 && 0 < hi {
            r.push(self.x);
        }
        if lo <= 1 && 1 < hi {
            r.push(self.y);
        }
        if lo <= 2 && 2 < hi {
            r.push(self.z);
        }
        proof {
            assert(r@ =~= self.to_seq().subrange(lo as int, hi as int));
        }
        r
    }

    /// The components `..hi`.
    pub fn index_to(&self, hi: usize) -> (r: Vec<S>)
        requires
            hi <= 3,
        ensures
            r@ == self.to_seq().subrange(0, hi as int),
    {
        self.index_range(0, hi)
    }

    /// The components `lo..`.
    pub fn index_from(&self, lo: usize) -> (r: Vec<S>)
        requires
            lo <= 3,
        ensures
            r@ == self.to_seq().subrange(lo as int, 3),
    {
        self.index_range(lo, 3)
    }

    /// All the components, in order.
    pub fn components(&self) -> (r: Vec<S>)
        ensures
            r@ == self.to_seq(),
    {
        let r = self.index_range(0, 3);
        proof {
            assert(r@ =~= self.to_seq());
        }
        r
    }

    /// The components as a fixed array of the same arity.
    pub fn to_array(&self) -> (r: [S; 3])
        ensures
            r@ == self.to_seq(),
    {
        let r = [self.x, self.y, self.z];
        proof {
            assert(r@ =~= self.to_seq());
        }
        r
    }

    /// The components as a tuple of the same arity.
    pub fn to_tuple(&self) -> (r: (S, S, S))
        ensures
            r.0 == self.x,
            r.1 == self.y,
            r.2 == self.z,
    {
        (self.x, self.y, self.z)
    }
}

impl<S: Copy> From<[S; 3]> for Normal3<S> {
    fn from(v: [S; 3]) -> (r: Normal3<S>) {
        Normal3 { x: v[0], y: v[1], z: v[2] }
    }
}

impl<S: Copy> vstd::std_specs::convert::FromSpecImpl<[S; 3]> for Normal3<S> {
    open spec fn obeys_from_spec() -> bool {
        true
    }

    open spec fn from_spec(v: [S; 3]) -> Normal3<S> {
        Normal3 { x: v@[0], y: v@[1], z: v@[2] }
    }
}

impl<S: Copy> From<(S, S, S)> for Normal3<S> {
    fn from(v: (S, S, S)) -> (r: Normal3<S>) {
        Normal3 { x: v.0, y: v.1, z: v.2 }
    }
}

impl<S: Copy> vstd::std_specs::convert::FromSpecImpl<(S, S, S)> for Normal3<S> {
    open spec fn obeys_from_spec() -> bool {
        true
    }

    open spec fn from_spec(v: (S, S, S)) -> Normal3<S> {
        Normal3 { x: v.0, y: v.1, z: v.2 }
    }
}

impl<S: crate::scalar::BaseNum> View for Normal3<S> {
    type V = Seq<int>;

    open spec fn view(&self) -> Seq<int> {
        seq![self.x.sval(), self.y.sval(), self.z.sval()]
    }
}

impl<S: BaseNum> Normal3<S> {
    /// A unit vector in the `x` direction.
    pub fn unit_x() -> (r: Normal3<S>)
        ensures
            r@ == seq![1int, 0int, 0int],
    {
        let r = Normal3::new(S::one(), S::zero(), S::zero());
        proof {
            assert(r@ =~= seq![1int, 0int, 0int]);
        }
        r
    }

    /// A unit vector in the `y` direction.
    pub fn unit_y() -> (r: Normal3<S>)
        ensures
            r@ == seq![0int, 1int, 0int],
    {
        let r = Normal3::new(S::zero(), S::one(), S::zero());
        proof {
            assert(r@ =~= seq![0int, 1int, 0int]);
        }
        r
    }

    /// A unit vector in the `z` direction.
    pub fn unit_z() -> (r: Normal3<S>)
        ensures
            r@ == seq![0int, 0int, 1int],
    {
        let r = Normal3::new(S::zero(), S::zero(), S::one());
        proof {
            assert(r@ =~= seq![0int, 0int, 1int]);
        }
        r
    }

    /// Component-wise addition of two vectors of the same arity.
    pub fn plus(self, other: Normal3<S>) -> (r: Normal3<S>)
        requires
            in_rep::<S>(self@[0] + other@[0]),
            in_rep::<S>(self@[1] + other@[1]),
            in_rep::<S>(self@[2] + other@[2]),
        ensures
            r@ == ops::add_spec(self@, other@),
    {
        let r = Normal3::new(self.x.num_add(other.x), self.y.num_add(other.y), self.z.num_add(other.z));
        proof {
            assert(r@ =~= ops::add_spec(self@, other@));
        }
        r
    }

    /// Component-wise addition in place.
    pub fn plus_assign(&mut self, other: Normal3<S>)
        requires
            in_rep::<S>(old(self)@[0] + other@[0]),
            in_rep::<S>(old(self)@[1] + other@[1]),
            in_rep::<S>(old(self)@[2] + other@[2]),
        ensures
            final(self)@ == ops::add_spec(old(self)@, other@),
    {
        self.x = self.x.num_add(other.x);
        self.y = self.y.num_add(other.y);
        self.z = self.z.num_add(other.z);
        proof {
            assert(self@ =~= ops::add_spec(old(self)@, other@));
        }
    }

    /// Component-wise subtraction of two vectors of the same arity.
    pub fn minus(self, other: Normal3<S>) -> (r: Normal3<S>)
        requires
            in_rep::<S>(self@[0] - other@[0]),
            in_rep::<S>(self@[1] - other@[1]),
            in_rep::<S>(self@[2] - other@[2]),
        ensures
            r@ == ops::sub_spec(self@, other@),
    {
        let r = Normal3::new(self.x.num_sub(other.x), self.y.num_sub(other.y), self.z.num_sub(other.z));
        proof {
            assert(r@ =~= ops::sub_spec(self@, other@));
        }
        r
    }

    /// Component-wise subtraction in place.
    pub fn minus_assign(&mut self, other: Normal3<S>)
        requires
            in_rep::<S>(old(self)@[0] - other@[0]),
            in_rep::<S>(old(self)@[1] - other@[1]),
            in_rep::<S>(old(self)@[2] - other@[2]),
        ensures
            final(self)@ == ops::sub_spec(old(self)@, other@),
    {
        self.x = self.x.num_sub(other.x);
        self.y = self.y.num_sub(other.y);
        self.z = self.z.num_sub(other.z);
        proof {
            assert(self@ =~= ops::sub_spec(old(self)@, other@));
        }
    }

    /// Component-wise negation.
    pub fn negate(self) -> (r: Normal3<S>)
        requires
            in_rep::<S>(-self@[0]),
            in_rep::<S>(-self@[1]),
            in_rep::<S>(-self@[2]),
        ensures
            r@ == ops::neg_spec(self@),
    {
        let r = Normal3::new(self.x.num_neg(), self.y.num_neg(), self.z.num_neg());
        proof {
            assert(r@ =~= ops::neg_spec(self@));
        }
        r
    }

    /// Every component multiplied by the scalar.
    pub fn mul_scalar(self, scalar: S) -> (r: Normal3<S>)
        requires

            in_rep::<S>(self@[0] * scalar.sval()),
            in_rep::<S>(self@[1] * scalar.sval()),
            in_rep::<S>(self@[2] * scalar.sval()),
        ensures
            r@ == ops::mul_scalar_spec(self@, scalar.sval()),
    {
        let r = Normal3::new(self.x.num_mul(scalar), self.y.num_mul(scalar), self.z.num_mul(scalar));
        proof {
            assert(r@ =~= ops::mul_scalar_spec(self@, scalar.sval()));
        }
        r
    }

    /// Every component divided (truncating) by the scalar.
    pub fn div_scalar(self, scalar: S) -> (r: Normal3<S>)
        requires
            scalar.sval() != 0,
            in_rep::<S>(trunc_div(self@[0], scalar.sval())),
            in_rep::<S>(trunc_div(self@[1], scalar.sval())),
            in_rep::<S>(trunc_div(self@[2], scalar.sval())),
        ensures
            r@ == ops::div_scalar_spec(self@, scalar.sval()),
    {
        let r = Normal3::new(self.x.num_div(scalar), self.y.num_div(scalar), self.z.num_div(scalar));
        proof {
            assert(r@ =~= ops::div_scalar_spec(self@, scalar.sval()));
        }
        r
    }

    /// The truncating remainder of every component by the scalar.
    pub fn rem_scalar(self, scalar: S) -> (r: Normal3<S>)
        requires
            scalar.sval() != 0,
            in_rep::<S>(trunc_div(self@[0], scalar.sval())),
            in_rep::<S>(trunc_div(self@[1], scalar.sval())),
            in_rep::<S>(trunc_div(self@[2], scalar.sval())),
        ensures
            r@ == ops::rem_scalar_spec(self@, scalar.sval()),
    {
        let r = Normal3::new(self.x.num_rem(scalar), self.y.num_rem(scalar), self.z.num_rem(scalar));
        proof {
            assert(r@ =~= ops::rem_scalar_spec(self@, scalar.sval()));
        }
        r
    }

    /// Multiplication by the scalar, in place.
    pub fn mul_assign(&mut self, scalar: S)
        requires

            in_rep::<S>(old(self)@[0] * scalar.sval()),
            in_rep::<S>(old(self)@[1] * scalar.sval()),
            in_rep::<S>(old(self)@[2] * scalar.sval()),
        ensures
            final(self)@ == ops::mul_scalar_spec(old(self)@, scalar.sval()),
    {
        self.x = self.x.num_mul(scalar);
        self.y = self.y.num_mul(scalar);
        self.z = self.z.num_mul(scalar);
        proof {
            assert(self@ =~= ops::mul_scalar_spec(old(self)@, scalar.sval()));
        }
    }

    /// Truncating division by the scalar, in place.
    pub fn div_assign(&mut self, scalar: S)
        requires
            scalar.sval() != 0,
            in_rep::<S>(trunc_div(old(self)@[0], scalar.sval())),
            in_rep::<S>(trunc_div(old(self)@[1], scalar.sval())),
            in_rep::<S>(trunc_div(old(self)@[2], scalar.sval())),
        ensures
            final(self)@ == ops::div_scalar_spec(old(self)@, scalar.sval()),
    {
        self.x = self.x.num_div(scalar);
        self.y = self.y.num_div(scalar);
        self.z = self.z.num_div(scalar);
        proof {
            assert(self@ =~= ops::div_scalar_spec(old(self)@, scalar.sval()));
        }
    }

    /// The truncating remainder by the scalar, in place.
    pub fn rem_assign(&mut self, scalar: S)
        requires
            scalar.sval() != 0,
            in_rep::<S>(trunc_div(old(self)@[0], scalar.sval())),
            in_rep::<S>(trunc_div(old(self)@[1], scalar.sval())),
            in_rep::<S>(trunc_div(old(self)@[2], scalar.sval())),
        ensures
            final(self)@ == ops::rem_scalar_spec(old(self)@, scalar.sval()),
    {
        self.x = self.x.num_rem(scalar);
        self.y = self.y.num_rem(scalar);
        self.z = self.z.num_rem(scalar);
        proof {
            assert(self@ =~= ops::rem_scalar_spec(old(self)@, scalar.sval()));
        }
    }

    /// The scalar on the left multiplied onto every component.
    pub fn scalar_mul(scalar: S, v: Normal3<S>) -> (r: Normal3<S>)
        requires

            in_rep::<S>(scalar.sval() * v@[0]),
            in_rep::<S>(scalar.sval() * v@[1]),
            in_rep::<S>(scalar.sval() * v@[2]),
        ensures
            r@ == ops::scalar_mul_spec(scalar.sval(), v@),
    {
        let r = Normal3::new(scalar.num_mul(v.x), scalar.num_mul(v.y), scalar.num_mul(v.z));
        proof {
            assert(r@ =~= ops::scalar_mul_spec(scalar.sval(), v@));
        }
        r
    }

    /// The scalar on the left divided (truncating) by every component.
    pub fn scalar_div(scalar: S, v: Normal3<S>) -> (r: Normal3<S>)
        requires
            v@[0] != 0,
            v@[1] != 0,
            v@[2] != 0,
            in_rep::<S>(trunc_div(scalar.sval(), v@[0])),
            in_rep::<S>(trunc_div(scalar.sval(), v@[1])),
            in_rep::<S>(trunc_div(scalar.sval(), v@[2])),
        ensures
            r@ == ops::scalar_div_spec(scalar.sval(), v@),
    {
        let r = Normal3::new(scalar.num_div(v.x), scalar.num_div(v.y), scalar.num_div(v.z));
        proof {
            assert(r@ =~= ops::scalar_div_spec(scalar.sval(), v@));
        }
        r
    }

    /// The truncating remainder of the scalar on the left by every component.
    pub fn scalar_rem(scalar: S, v: Normal3<S>) -> (r: Normal3<S>)
        requires
            v@[0] != 0,
            v@[1] != 0,
            v@[2] != 0,
            in_rep::<S>(trunc_div(scalar.sval(), v@[0])),
            in_rep::<S>(trunc_div(scalar.sval(), v@[1])),
            in_rep::<S>(trunc_div(scalar.sval(), v@[2])),
        ensures
            r@ == ops::scalar_rem_spec(scalar.sval(), v@),
    {
        let r = Normal3::new(scalar.num_rem(v.x), scalar.num_rem(v.y), scalar.num_rem(v.z));
        proof {
            assert(r@ =~= ops::scalar_rem_spec(scalar.sval(), v@));
        }
        r
    }

    /// Component-wise addition, under its element-wise name.
    pub fn add_element_wise(self, other: Normal3<S>) -> (r: Normal3<S>)
        requires
            in_rep::<S>(self@[0] + other@[0]),
            in_rep::<S>(self@[1] + other@[1]),
            in_rep::<S>(self@[2] + other@[2]),
        ensures
            r@ == ops::add_spec(self@, other@),
    {
        self.plus(other)
    }

    /// Component-wise subtraction, under its element-wise name.
    pub fn sub_element_wise(self, other: Normal3<S>) -> (r: Normal3<S>)
        requires
            in_rep::<S>(self@[0] - other@[0]),
            in_rep::<S>(self@[1] - other@[1]),
            in_rep::<S>(self@[2] - other@[2]),
        ensures
            r@ == ops::sub_spec(self@, other@),
    {
        self.minus(other)
    }

    /// Component-wise multiplication (an element-wise operation, not a linear-algebra one).
    pub fn mul_element_wise(self, other: Normal3<S>) -> (r: Normal3<S>)
        requires
            in_rep::<S>(self@[0] * other@[0]),
            in_rep::<S>(self@[1] * other@[1]),
            in_rep::<S>(self@[2] * other@[2]),
        ensures
            r@ == ops::mul_ew_spec(self@, other@),
    {
        let r = Normal3::new(self.x.num_mul(other.x), self.y.num_mul(other.y), self.z.num_mul(other.z));
        proof {
            assert(r@ =~= ops::mul_ew_spec(self@, other@));
        }
        r
    }

    /// Component-wise truncating division.
    pub fn div_element_wise(self, other: Normal3<S>) -> (r: Normal3<S>)
        requires
            other@[0] != 0,
            other@[1] != 0,
            other@[2] != 0,
            in_rep::<S>(trunc_div(self@[0], other@[0])),
            in_rep::<S>(trunc_div(self@[1], other@[1])),
            in_rep::<S>(trunc_div(self@[2], other@[2])),
        ensures
            r@ == ops::div_ew_spec(self@, other@),
    {
        let r = Normal3::new(self.x.num_div(other.x), self.y.num_div(other.y), self.z.num_div(other.z));
        proof {
            assert(r@ =~= ops::div_ew_spec(self@, other@));
        }
        r
    }

    /// Component-wise truncating remainder.
    pub fn rem_element_wise(self, other: Normal3<S>) -> (r: Normal3<S>)
        requires
            other@[0] != 0,
            other@[1] != 0,
            other@[2] != 0,
            in_rep::<S>(trunc_div(self@[0], other@[0])),
            in_rep::<S>(trunc_div(self@[1], other@[1])),
            in_rep::<S>(trunc_div(self@[2], other@[2])),
        ensures
            r@ == ops::rem_ew_spec(self@, other@),
    {
        let r = Normal3::new(self.x.num_rem(other.x), self.y.num_rem(other.y), self.z.num_rem(other.z));
        proof {
            assert(r@ =~= ops::rem_ew_spec(self@, other@));
        }
        r
    }

    /// The left-to-right sum of the components.
    pub fn sum(self) -> (r: S)
        requires
            in_rep::<S>(self@[0] + self@[1]),
            in_rep::<S>(self@[0] + self@[1] + self@[2]),
        ensures
            r.sval() == ops::sum_spec(self@),
    {
        proof {
            ops::lemma_sum3(self@);
        }
        self.x.num_add(self.y).num_add(self.z)
    }

    /// The left-to-right product of the components.
    pub fn product(self) -> (r: S)
        requires
            in_rep::<S>(self@[0] * self@[1]),
            in_rep::<S>((self@[0] * self@[1]) * self@[2]),
        ensures
            r.sval() == ops::product_spec(self@),
    {
        proof {
            ops::lemma_product3(self@);
        }
        self.x.num_mul(self.y).num_mul(self.z)
    }

    /// The left-to-right minimum fold of the components; the earlier
    /// value is preferred on a tie.
    pub fn min(self) -> (r: S)
        ensures
            r.sval() == ops::min_fold_spec(self@),
    {
        proof {
            ops::lemma_min_fold3(self@);
        }
        let m0: S = if self.x.num_le(self.y) { self.x } else { self.y };
        let m1: S = if m0.num_le(self.z) { m0 } else { self.z };
        m1
    }

    /// The left-to-right maximum fold of the components; the earlier
    /// value is preferred on a tie.
    pub fn max(self) -> (r: S)
        ensures
            r.sval() == ops::max_fold_spec(self@),
    {
        proof {
            ops::lemma_max_fold3(self@);
        }
        let m0: S = if self.y.num_le(self.x) { self.x } else { self.y };
        let m1: S = if self.z.num_le(m0) { m0 } else { self.z };
        m1
    }

    /// Component-wise minimum of two vectors, producing a new vector.
    pub fn pluck_min(self, other: Normal3<S>) -> (r: Normal3<S>)
        ensures
            r@ == ops::pluck_min_spec(self@, other@),
    {
        let x: S = if self.x.num_le(other.x) { self.x } else { other.x };
        let y: S = if self.y.num_le(other.y) { self.y } else { other.y };
        let z: S = if self.z.num_le(other.z) { self.z } else { other.z };
        let r = Normal3::new(x, y, z);
        proof {
            assert(r@ =~= ops::pluck_min_spec(self@, other@));
        }
        r
    }

    /// Component-wise maximum of two vectors, producing a new vector.
    pub fn pluck_max(self, other: Normal3<S>) -> (r: Normal3<S>)
        ensures
            r@ == ops::pluck_max_spec(self@, other@),
    {
        let x: S = if other.x.num_le(self.x) { self.x } else { other.x };
        let y: S = if other.y.num_le(self.y) { self.y } else { other.y };
        let z: S = if other.z.num_le(self.z) { self.z } else { other.z };
        let r = Normal3::new(x, y, z);
        proof {
            assert(r@ =~= ops::pluck_max_spec(self@, other@));
        }
        r
    }

    /// The zero vector.
    pub fn zero() -> (r: Normal3<S>)
        ensures
            r@ == ops::broadcast_spec(3, 0),
    {
        let r = Normal3::from_value(S::zero());
        proof {
            assert(r@ =~= ops::broadcast_spec(3, 0));
        }
        r
    }

    /// Whether every component is zero.
    pub fn is_zero(&self) -> (r: bool)
        ensures
            r == ops::is_zero_spec(self@),
    {
        let z: S = S::zero();
        let r = self.x.num_eq(z) && self.y.num_eq(z) && self.z.num_eq(z);
        proof {
            if r {
                assert forall|i: int| 0 <= i < self@.len() implies self@[i] == 0 by {}
            } else {
                assert(self@[0] == self.x.sval());
                assert(self@[1] == self.y.sval());
                assert(self@[2] == self.z.sval());
            }
        }
        r
    }

    /// The dot product: the left-to-right sum of the component-wise
    /// products.
    pub fn dot(self, other: Normal3<S>) -> (r: S)
        requires
            in_rep::<S>(self@[0] * other@[0]),
            in_rep::<S>(self@[1] * other@[1]),
            in_rep::<S>(self@[2] * other@[2]),
            in_rep::<S>(self@[0] * other@[0] + self@[1] * other@[1]),
            in_rep::<S>(self@[0] * other@[0] + self@[1] * other@[1] + self@[2] * other@[2]),
        ensures
            r.sval() == ops::dot_spec(self@, other@),
    {
        proof {
            ops::lemma_dot3(self@, other@);
        }
        self.x.num_mul(other.x).num_add(self.y.num_mul(other.y)).num_add(self.z.num_mul(other.z))
    }

    /// The squared magnitude: the dot product of the vector with itself.
    pub fn magnitude2(self) -> (r: S)
        requires
            in_rep::<S>(self@[0] * self@[0]),
            in_rep::<S>(self@[1] * self@[1]),
            in_rep::<S>(self@[2] * self@[2]),
            in_rep::<S>(self@[0] * self@[0] + self@[1] * self@[1]),
            in_rep::<S>(self@[0] * self@[0] + self@[1] * self@[1] + self@[2] * self@[2]),
        ensures
            r.sval() == ops::dot_spec(self@, self@),
            r.sval() >= 0,
    {
        proof {
            ops::lemma_dot_self_nonneg(self@);
        }
        self.dot(self)
    }

    /// The squared distance between `self` and `other` read as points: the
    /// squared magnitude of their difference.
    pub fn distance2(self, other: Normal3<S>) -> (r: S)
        requires
            in_rep::<S>((other@[0] - self@[0])),
            in_rep::<S>((other@[1] - self@[1])),
            in_rep::<S>((other@[2] - self@[2])),
            in_rep::<S>((other@[0] - self@[0]) * (other@[0] - self@[0])),
            in_rep::<S>((other@[1] - self@[1]) * (other@[1] - self@[1])),
            in_rep::<S>((other@[2] - self@[2]) * (other@[2] - self@[2])),
            in_rep::<S>((other@[0] - self@[0]) * (other@[0] - self@[0]) + (other@[1] - self@[1]) * (other@[1] - self@[1])),
            in_rep::<S>((other@[0] - self@[0]) * (other@[0] - self@[0]) + (other@[1] - self@[1]) * (other@[1] - self@[1]) + (other@[2] - self@[2]) * (other@[2] - self@[2])),
        ensures
            r.sval() == ops::dot_spec(ops::sub_spec(other@, self@), ops::sub_spec(other@, self@)),
    {
        let d = other.minus(self);
        d.magnitude2()
    }

    /// Component-wise conversion to another scalar type: `Some` with every
    /// component carried over exactly when each is representable in the
    /// target type, `None` otherwise.
    pub fn cast<T: BaseNum>(&self) -> (r: Option<Normal3<T>>)
        ensures
            (match r {
                Some(v) => v@ == self@ && seq_in_rep::<T>(self@),
                None => !seq_in_rep::<T>(self@),
            }),
    {
        let cx: Option<T> = T::from_wide(self.x.to_wide());
        let cy: Option<T> = T::from_wide(self.y.to_wide());
        let cz: Option<T> = T::from_wide(self.z.to_wide());
        if cx.is_some() && cy.is_some() && cz.is_some() {
            let v = Normal3::new(cx.unwrap(), cy.unwrap(), cz.unwrap());
            proof {
                assert(v@ =~= self@);
                assert forall|i: int| 0 <= i < self@.len() implies in_rep::<T>(self@[i]) by {}
            }
            Some(v)
        } else {
            proof {
                if cx.is_none() {
                    assert(!in_rep::<T>(self@[0]));
                } else if cy.is_none() {
                    assert(!in_rep::<T>(self@[1]));
                } else if cz.is_none() {
                    assert(!in_rep::<T>(self@[2]));
                }
                assert(!seq_in_rep::<T>(self@));
            }
            None
        }
    }

    /// Create a `Normal4`, using the `x`, `y` and `z` values from this
    /// vector, and the provided `w`.
    pub fn extend(self, w: S) -> (r: Normal4<S>)
        ensures
            r@ == self@.push(w.sval()),
    {
        let r = Normal4::new(self.x, self.y, self.z, w);
        proof {
            assert(r@ =~= self@.push(w.sval()));
        }
        r
    }

    /// Create a `Normal2`, dropping the `z` value.
    pub fn truncate(self) -> (r: Normal2<S>)
        ensures
            r@ == self@.drop_last(),
    {
        let r = Normal2::new(self.x, self.y);
        proof {
            assert(r@ =~= self@.drop_last());
        }
        r
    }
}

/// A 4-dimensional surface-normal vector.
#[derive(Clone, Copy, Debug, PartialEq, Eq, Hash)]
pub struct Normal4<S> {
    /// The `x` component of the vector.
    pub x: S,
    /// The `y` component of the vector.
    pub y: S,
    /// The `z` component of the vector.
    pub z: S,
    /// The `w` component of the vector.
    pub w: S,
}

impl<S> Normal4<S> {
    /// The components as a sequence, in declared field order.
    pub open spec fn to_seq(self) -> Seq<S> {
        seq![self.x, self.y, self.z, self.w]
    }

    /// Construct a new vector, using the provided values.
    pub fn new(x: S, y: S, z: S, w: S) -> (r: Normal4<S>)
        ensures
            r.x == x,
            r.y == y,
            r.z == z,
            r.w == w,
    {
        Normal4 { x, y, z, w }
    }
}

/// The short constructor.
pub fn norm4<S>(x: S, y: S, z: S, w: S) -> (r: Normal4<S>)
    ensures
        r.x == x,
        r.y == y,
        r.z == z,
        r.w == w,
{
    Normal4::new(x, y, z, w)
}

impl<S: Copy> Normal4<S> {
    /// Broadcast a single scalar to all components.
    pub fn from_value(scalar: S) -> (r: Normal4<S>)
        ensures
            r.x == scalar,
            r.y == scalar,
            r.z == scalar,
            r.w == scalar,
    {
        Normal4 { x: scalar, y: scalar, z: scalar, w: scalar }
    }

    /// Component `i`, in declared field order (x = 0, y = 1, z = 2, w = 3).
    /// An index at or past the arity is ruled out by the `requires`, never
    /// clamped.
    pub fn index(&self, i: usize) -> (r: S)
        requires
            i < 4,
        ensures
            r == self.to_seq()[i as int],
    {
        if i == 0 {
            self.x
        } else if i == 1 {
            self.y
        } else if i == 2 {
            self.z
        } else {
            self.w
        }
    }

    /// Replace component `i`, leaving every other component as it was.
    pub fn set_index(&mut self, i: usize, value: S)
        requires
            i < 4,
        ensures
            final(self).to_seq() == old(self).to_seq().update(i as int, value),
    {
        if i == 0 {
            self.x = value;
        } else if i == 1 {
            self.y = value;
        } else if i == 2 {
            self.z = value;
        } else {
            self.w = value;
        }
        proof {
            assert(self.to_seq() =~= old(self).to_seq().update(i as int, value));
        }
    }

    /// The components `lo..hi`, in order; an empty range is valid and yields
    /// an empty result.
    pub fn index_range(&self, lo: usize, hi: usize) -> (r: Vec<S>)
        requires
            lo <= hi <= 4,
        ensures
            r@ == self.to_seq().subrange(lo as int, hi as int),
    {
        let mut r: Vec<S> = Vec::new();
        if lo <= 0 && 0 < hi {
            r.push(self.x);
        }
        if lo <= 1 && 1 < hi {
            r.push(self.y);
        }
        if lo <= 2 && 2 < hi {
            r.push(self.z);
        }
        if lo <= 3 && 3 < hi {
            r.push(self.w);
        }
        proof {
            assert(r@ =~= self.to_seq().subrange(lo as int, hi as int));
        }
        r
    }

    /// The components `..hi`.
    pub fn index_to(&self, hi: usize) -> (r: Vec<S>)
        requires
            hi <= 4,
        ensures
            r@ == self.to_seq().subrange(0, hi as int),
    {
        self.index_range(0, hi)
    }

    /// The components `lo..`.
    pub fn index_from(&self, lo: usize) -> (r: Vec<S>)
        requires
            lo <= 4,
        ensures
            r@ == self.to_seq().subrange(lo as int, 4),
    {
        self.index_range(lo, 4)
    }

    /// All the components, in order.
    pub fn components(&self) -> (r: Vec<S>)
        ensures
            r@ == self.to_seq(),
    {
        let r = self.index_range(0, 4);
        proof {
            assert(r@ =~= self.to_seq());
        }
        r
    }

    /// The components as a fixed array of the same arity.
    pub fn to_array(&self) -> (r: [S; 4])
        ensures
            r@ == self.to_seq(),
    {
        let r = [self.x, self.y, self.z, self.w];
        proof {
            assert(r@ =~= self.to_seq());
        }
        r
    }

    /// The components as a tuple of the same arity.
    pub fn to_tuple(&self) -> (r: (S, S, S, S))
        ensures
            r.0 == self.x,
            r.1 == self.y,
            r.2 == self.z,
            r.3 == self.w,
    {
        (self.x, self.y, self.z, self.w)
    }
}

impl<S: Copy> From<[S; 4]> for Normal4<S> {
    fn from(v: [S; 4]) -> (r: Normal4<S>) {
        Normal4 { x: v[0], y: v[1], z: v[2], w: v[3] }
    }
}

impl<S: Copy> vstd::std_specs::convert::FromSpecImpl<[S; 4]> for Normal4<S> {
    open spec fn obeys_from_spec() -> bool {
        true
    }

    open spec fn from_spec(v: [S; 4]) -> Normal4<S> {
        Normal4 { x: v@[0], y: v@[1], z: v@[2], w: v@[3] }
    }
}

impl<S: Copy> From<(S, S, S, S)> for Normal4<S> {
    fn from(v: (S, S, S, S)) -> (r: Normal4<S>) {
        Normal4 { x: v.0, y: v.1, z: v.2, w: v.3 }
    }
}

impl<S: Copy> vstd::std_specs::convert::FromSpecImpl<(S, S, S, S)> for Normal4<S> {
    open spec fn obeys_from_spec() -> bool {
        true
    }

    open spec fn from_spec(v: (S, S, S, S)) -> Normal4<S> {
        Normal4 { x: v.0, y: v.1, z: v.2, w: v.3 }
    }
}

impl<S: crate::scalar::BaseNum> View for Normal4<S> {
    type V = Seq<int>;

    open spec fn view(&self) -> Seq<int> {
        seq![self.x.sval(), self.y.sval(), self.z.sval(), self.w.sval()]
    }
}

impl<S: BaseNum> Normal4<S> {
    /// A unit vector in the `x` direction.
    pub fn unit_x() -> (r: Normal4<S>)
        ensures
            r@ == seq![1int, 0int, 0int, 0int],
    {
        let r = Normal4::new(S::one(), S::zero(), S::zero(), S::zero());
        proof {
            assert(r@ =~= seq![1int, 0int, 0int, 0int]);
        }
        r
    }

    /// A unit vector in the `y` direction.
    pub fn unit_y() -> (r: Normal4<S>)
        ensures
            r@ == seq![0int, 1int, 0int, 0int],
    {
        let r = Normal4::new(S::zero(), S::one(), S::zero(), S::zero());
        proof {
            assert(r@ =~= seq![0int, 1int, 0int, 0int]);
        }
        r
    }

    /// A unit vector in the `z` direction.
    pub fn unit_z() -> (r: Normal4<S>)
        ensures
            r@ == seq![0int, 0int, 1int, 0int],
    {
        let r = Normal4::new(S::zero(), S::zero(), S::one(), S::zero());
        proof {
            assert(r@ =~= seq![0int, 0int, 1int, 0int]);
        }
        r
    }

    /// A unit vector in the `w` direction.
    pub fn unit_w() -> (r: Normal4<S>)
        ensures
            r@ == seq![0int, 0int, 0int, 1int],
    {
        let r = Normal4::new(S::zero(), S::zero(), S::zero(), S::one());
        proof {
            assert(r@ =~= seq![0int, 0int, 0int, 1int]);
        }
        r
    }

    /// Component-wise addition of two vectors of the same arity.
    pub fn plus(self, other: Normal4<S>) -> (r: Normal4<S>)
        requires
            in_rep::<S>(self@[0] + other@[0]),
            in_rep::<S>(self@[1] + other@[1]),
            in_rep::<S>(self@[2] + other@[2]),
            in_rep::<S>(self@[3] + other@[3]),
        ensures
            r@ == ops::add_spec(self@, other@),
    {
        let r = Normal4::new(self.x.num_add(other.x), self.y.num_add(other.y), self.z.num_add(other.z), self.w.num_add(other.w));
        proof {
            assert(r@ =~= ops::add_spec(self@, other@));
        }
        r
    }

    /// Component-wise addition in place.
    pub fn plus_assign(&mut self, other: Normal4<S>)
        requires
            in_rep::<S>(old(self)@[0] + other@[0]),
            in_rep::<S>(old(self)@[1] + other@[1]),
            in_rep::<S>(old(self)@[2] + other@[2]),
            in_rep::<S>(old(self)@[3] + other@[3]),
        ensures
            final(self)@ == ops::add_spec(old(self)@, other@),
    {
        self.x = self.x.num_add(other.x);
        self.y = self.y.num_add(other.y);
        self.z = self.z.num_add(other.z);
        self.w = self.w.num_add(other.w);
        proof {
            assert(self@ =~= ops::add_spec(old(self)@, other@));
        }
    }

    /// Component-wise subtraction of two vectors of the same arity.
    pub fn minus(self, other: Normal4<S>) -> (r: Normal4<S>)
        requires
            in_rep::<S>(self@[0] - other@[0]),
            in_rep::<S>(self@[1] - other@[1]),
            in_rep::<S>(self@[2] - other@[2]),
            in_rep::<S>(self@[3] - other@[3]),
        ensures
            r@ == ops::sub_spec(self@, other@),
    {
        let r = Normal4::new(self.x.num_sub(other.x), self.y.num_sub(other.y), self.z.num_sub(other.z), self.w.num_sub(other.w));
        proof {
            assert(r@ =~= ops::sub_spec(self@, other@));
        }
        r
    }

    /// Component-wise subtraction in place.
    pub fn minus_assign(&mut self, other: Normal4<S>)
        requires
            in_rep::<S>(old(self)@[0] - other@[0]),
            in_rep::<S>(old(self)@[1] - other@[1]),
            in_rep::<S>(old(self)@[2] - other@[2]),
            in_rep::<S>(old(self)@[3] - other@[3]),
        ensures
            final(self)@ == ops::sub_spec(old(self)@, other@),
    {
        self.x = self.x.num_sub(other.x);
        self.y = self.y.num_sub(other.y);
        self.z = self.z.num_sub(other.z);
        self.w = self.w.num_sub(other.w);
        proof {
            assert(self@ =~= ops::sub_spec(old(self)@, other@));
        }
    }

    /// Component-wise negation.
    pub fn negate(self) -> (r: Normal4<S>)
        requires
            in_rep::<S>(-self@[0]),
            in_rep::<S>(-self@[1]),
            in_rep::<S>(-self@[2]),
            in_rep::<S>(-self@[3]),
        ensures
            r@ == ops::neg_spec(self@),
    {
        let r = Normal4::new(self.x.num_neg(), self.y.num_neg(), self.z.num_neg(), self.w.num_neg());
        proof {
            assert(r@ =~= ops::neg_spec(self@));
        }
        r
    }

    /// Every component multiplied by the scalar.
    pub fn mul_scalar(self, scalar: S) -> (r: Normal4<S>)
        requires

            in_rep::<S>(self@[0] * scalar.sval()),
            in_rep::<S>(self@[1] * scalar.sval()),
            in_rep::<S>(self@[2] * scalar.sval()),
            in_rep::<S>(self@[3] * scalar.sval()),
        ensures
            r@ == ops::mul_scalar_spec(self@, scalar.sval()),
    {
        let r = Normal4::new(self.x.num_mul(scalar), self.y.num_mul(scalar), self.z.num_mul(scalar), self.w.num_mul(scalar));
        proof {
            assert(r@ =~= ops::mul_scalar_spec(self@, scalar.sval()));
        }
        r
    }

    /// Every component divided (truncating) by the scalar.
    pub fn div_scalar(self, scalar: S) -> (r: Normal4<S>)
        requires
            scalar.sval() != 0,
            in_rep::<S>(trunc_div(self@[0], scalar.sval())),
            in_rep::<S>(trunc_div(self@[1], scalar.sval())),
            in_rep::<S>(trunc_div(self@[2], scalar.sval())),
            in_rep::<S>(trunc_div(self@[3], scalar.sval())),
        ensures
            r@ == ops::div_scalar_spec(self@, scalar.sval()),
    {
        let r = Normal4::new(self.x.num_div(scalar), self.y.num_div(scalar), self.z.num_div(scalar), self.w.num_div(scalar));
        proof {
            assert(r@ =~= ops::div_scalar_spec(self@, scalar.sval()));
        }
        r
    }

    /// The truncating remainder of every component by the scalar.
    pub fn rem_scalar(self, scalar: S) -> (r: Normal4<S>)
        requires
            scalar.sval() != 0,
            in_rep::<S>(trunc_div(self@[0], scalar.sval())),
            in_rep::<S>(trunc_div(self@[1], scalar.sval())),
            in_rep::<S>(trunc_div(self@[2], scalar.sval())),
            in_rep::<S>(trunc_div(self@[3], scalar.sval())),
        ensures
            r@ == ops::rem_scalar_spec(self@, scalar.sval()),
    {
        let r = Normal4::new(self.x.num_rem(scalar), self.y.num_rem(scalar), self.z.num_rem(scalar), self.w.num_rem(scalar));
        proof {
            assert(r@ =~= ops::rem_scalar_spec(self@, scalar.sval()));
        }
        r
    }

    /// Multiplication by the scalar, in place.
    pub fn mul_assign(&mut self, scalar: S)
        requires

            in_rep::<S>(old(self)@[0] * scalar.sval()),
            in_rep::<S>(old(self)@[1] * scalar.sval()),
            in_rep::<S>(old(self)@[2] * scalar.sval()),
            in_rep::<S>(old(self)@[3] * scalar.sval()),
        ensures
            final(self)@ == ops::mul_scalar_spec(old(self)@, scalar.sval()),
    {
        self.x = self.x.num_mul(scalar);
        self.y = self.y.num_mul(scalar);
        self.z = self.z.num_mul(scalar);
        self.w = self.w.num_mul(scalar);
        proof {
            assert(self@ =~= ops::mul_scalar_spec(old(self)@, scalar.sval()));
        }
    }

    /// Truncating division by the scalar, in place.
    pub fn div_assign(&mut self, scalar: S)
        requires
            scalar.sval() != 0,
            in_rep::<S>(trunc_div(old(self)@[0], scalar.sval())),
            in_rep::<S>(trunc_div(old(self)@[1], scalar.sval())),
            in_rep::<S>(trunc_div(old(self)@[2], scalar.sval())),
            in_rep::<S>(trunc_div(old(self)@[3], scalar.sval())),
        ensures
            final(self)@ == ops::div_scalar_spec(old(self)@, scalar.sval()),
    {
        self.x = self.x.num_div(scalar);
        self.y = self.y.num_div(scalar);
        self.z = self.z.num_div(scalar);
        self.w = self.w.num_div(scalar);
        proof {
            assert(self@ =~= ops::div_scalar_spec(old(self)@, scalar.sval()));
        }
    }

    /// The truncating remainder by the scalar, in place.
    pub fn rem_assign(&mut self, scalar: S)
        requires
            scalar.sval() != 0,
            in_rep::<S>(trunc_div(old(self)@[0], scalar.sval())),
            in_rep::<S>(trunc_div(old(self)@[1], scalar.sval())),
            in_rep::<S>(trunc_div(old(self)@[2], scalar.sval())),
            in_rep::<S>(trunc_div(old(self)@[3], scalar.sval())),
        ensures
            final(self)@ == ops::rem_scalar_spec(old(self)@, scalar.sval()),
    {
        self.x = self.x.num_rem(scalar);
        self.y = self.y.num_rem(scalar);
        self.z = self.z.num_rem(scalar);
        self.w = self.w.num_rem(scalar);
        proof {
            assert(self@ =~= ops::rem_scalar_spec(old(self)@, scalar.sval()));
        }
    }

    /// The scalar on the left multiplied onto every component.
    pub fn scalar_mul(scalar: S, v: Normal4<S>) -> (r: Normal4<S>)
        requires

            in_rep::<S>(scalar.sval() * v@[0]),
            in_rep::<S>(scalar.sval() * v@[1]),
            in_rep::<S>(scalar.sval() * v@[2]),
            in_rep::<S>(scalar.sval() * v@[3]),
        ensures
            r@ == ops::scalar_mul_spec(scalar.sval(), v@),
    {
        let r = Normal4::new(scalar.num_mul(v.x), scalar.num_mul(v.y), scalar.num_mul(v.z), scalar.num_mul(v.w));
        proof {
            assert(r@ =~= ops::scalar_mul_spec(scalar.sval(), v@));
        }
        r
    }

    /// The scalar on the left divided (truncating) by every component.
    pub fn scalar_div(scalar: S, v: Normal4<S>) -> (r: Normal4<S>)
        requires
            v@[0] != 0,
            v@[1] != 0,
            v@[2] != 0,
            v@[3] != 0,
            in_rep::<S>(trunc_div(scalar.sval(), v@[0])),
            in_rep::<S>(trunc_div(scalar.sval(), v@[1])),
            in_rep::<S>(trunc_div(scalar.sval(), v@[2])),
            in_rep::<S>(trunc_div(scalar.sval(), v@[3])),
        ensures
            r@ == ops::scalar_div_spec(scalar.sval(), v@),
    {
        let r = Normal4::new(scalar.num_div(v.x), scalar.num_div(v.y), scalar.num_div(v.z), scalar.num_div(v.w));
        proof {
            assert(r@ =~= ops::scalar_div_spec(scalar.sval(), v@));
        }
        r
    }

    /// The truncating remainder of the scalar on the left by every component.
    pub fn scalar_rem(scalar: S, v: Normal4<S>) -> (r: Normal4<S>)
        requires
            v@[0] != 0,
            v@[1] != 0,
            v@[2] != 0,
            v@[3] != 0,
            in_rep::<S>(trunc_div(scalar.sval(), v@[0])),
            in_rep::<S>(trunc_div(scalar.sval(), v@[1])),
            in_rep::<S>(trunc_div(scalar.sval(), v@[2])),
            in_rep::<S>(trunc_div(scalar.sval(), v@[3])),
        ensures
            r@ == ops::scalar_rem_spec(scalar.sval(), v@),
    {
        let r = Normal4::new(scalar.num_rem(v.x), scalar.num_rem(v.y), scalar.num_rem(v.z), scalar.num_rem(v.w));
        proof {
            assert(r@ =~= ops::scalar_rem_spec(scalar.sval(), v@));
        }
        r
    }

    /// Component-wise addition, under its element-wise name.
    pub fn add_element_wise(self, other: Normal4<S>) -> (r: Normal4<S>)
        requires
            in_rep::<S>(self@[0] + other@[0]),
            in_rep::<S>(self@[1] + other@[1]),
            in_rep::<S>(self@[2] + other@[2]),
            in_rep::<S>(self@[3] + other@[3]),
        ensures
            r@ == ops::add_spec(self@, other@),
    {
        self.plus(other)
    }

    /// Component-wise subtraction, under its element-wise name.
    pub fn sub_element_wise(self, other: Normal4<S>) -> (r: Normal4<S>)
        requires
            in_rep::<S>(self@[0] - other@[0]),
            in_rep::<S>(self@[1] - other@[1]),
            in_rep::<S>(self@[2] - other@[2]),
            in_rep::<S>(self@[3] - other@[3]),
        ensures
            r@ == ops::sub_spec(self@, other@),
    {
        self.minus(other)
    }

    /// Component-wise multiplication (an element-wise operation, not a linear-algebra one).
    pub fn mul_element_wise(self, other: Normal4<S>) -> (r: Normal4<S>)
        requires
            in_rep::<S>(self@[0] * other@[0]),
            in_rep::<S>(self@[1] * other@[1]),
            in_rep::<S>(self@[2] * other@[2]),
            in_rep::<S>(self@[3] * other@[3]),
        ensures
            r@ == ops::mul_ew_spec(self@, other@),
    {
        let r = Normal4::new(self.x.num_mul(other.x), self.y.num_mul(other.y), self.z.num_mul(other.z), self.w.num_mul(other.w));
        proof {
            assert(r@ =~= ops::mul_ew_spec(self@, other@));
        }
        r
    }

    /// Component-wise truncating division.
    pub fn div_element_wise(self, other: Normal4<S>) -> (r: Normal4<S>)
        requires
            other@[0] != 0,
            other@[1] != 0,
            other@[2] != 0,
            other@[3] != 0,
            in_rep::<S>(trunc_div(self@[0], other@[0])),
            in_rep::<S>(trunc_div(self@[1], other@[1])),
            in_rep::<S>(trunc_div(self@[2], other@[2])),
            in_rep::<S>(trunc_div(self@[3], other@[3])),
        ensures
            r@ == ops::div_ew_spec(self@, other@),
    {
        let r = Normal4::new(self.x.num_div(other.x), self.y.num_div(other.y), self.z.num_div(other.z), self.w.num_div(other.w));
        proof {
            assert(r@ =~= ops::div_ew_spec(self@, other@));
        }
        r
    }

    /// Component-wise truncating remainder.
    pub fn rem_element_wise(self, other: Normal4<S>) -> (r: Normal4<S>)
        requires
            other@[0] != 0,
            other@[1] != 0,
            other@[2] != 0,
            other@[3] != 0,
            in_rep::<S>(trunc_div(self@[0], other@[0])),
            in_rep::<S>(trunc_div(self@[1], other@[1])),
            in_rep::<S>(trunc_div(self@[2], other@[2])),
            in_rep::<S>(trunc_div(self@[3], other@[3])),
        ensures
            r@ == ops::rem_ew_spec(self@, other@),
    {
        let r = Normal4::new(self.x.num_rem(other.x), self.y.num_rem(other.y), self.z.num_rem(other.z), self.w.num_rem(other.w));
        proof {
            assert(r@ =~= ops::rem_ew_spec(self@, other@));
        }
        r
    }

    /// The left-to-right sum of the components.
    pub fn sum(self) -> (r: S)
        requires
            in_rep::<S>(self@[0] + self@[1]),
            in_rep::<S>(self@[0] + self@[1] + self@[2]),
            in_rep::<S>(self@[0] + self@[1] + self@[2] + self@[3]),
        ensures
            r.sval() == ops::sum_spec(self@),
    {
        proof {
            ops::lemma_sum4(self@);
        }
        self.x.num_add(self.y).num_add(self.z).num_add(self.w)
    }

    /// The left-to-right product of the components.
    pub fn product(self) -> (r: S)
        requires
            in_rep::<S>(self@[0] * self@[1]),
            in_rep::<S>((self@[0] * self@[1]) * self@[2]),
            in_rep::<S>(((self@[0] * self@[1]) * self@[2]) * self@[3]),
        ensures
            r.sval() == ops::product_spec(self@),
    {
        proof {
            ops::lemma_product4(self@);
        }
        self.x.num_mul(self.y).num_mul(self.z).num_mul(self.w)
    }

    /// The left-to-right minimum fold of the components; the earlier
    /// value is preferred on a tie.
    pub fn min(self) -> (r: S)
        ensures
            r.sval() == ops::min_fold_spec(self@),
    {
        proof {
            ops::lemma_min_fold4(self@);
        }
        let m0: S = if self.x.num_le(self.y) { self.x } else { self.y };
        let m1: S = if m0.num_le(self.z) { m0 } else { self.z };
        let m2: S = if m1.num_le(self.w) { m1 } else { self.w };
        m2
    }

    /// The left-to-right maximum fold of the components; the earlier
    /// value is preferred on a tie.
    pub fn max(self) -> (r: S)
        ensures
            r.sval() == ops::max_fold_spec(self@),
    {
        proof {
            ops::lemma_max_fold4(self@);
        }
        let m0: S = if self.y.num_le(self.x) { self.x } else { self.y };
        let m1: S = if self.z.num_le(m0) { m0 } else { self.z };
        let m2: S = if self.w.num_le(m1) { m1 } else { self.w };
        m2
    }

    /// Component-wise minimum of two vectors, producing a new vector.
    pub fn pluck_min(self, other: Normal4<S>) -> (r: Normal4<S>)
        ensures
            r@ == ops::pluck_min_spec(self@, other@),
    {
        let x: S = if self.x.num_le(other.x) { self.x } else { other.x };
        let y: S = if self.y.num_le(other.y) { self.y } else { other.y };
        let z: S = if self.z.num_le(other.z) { self.z } else { other.z };
        let w: S = if self.w.num_le(other.w) { self.w } else { other.w };
        let r = Normal4::new(x, y, z, w);
        proof {
            assert(r@ =~= ops::pluck_min_spec(self@, other@));
        }
        r
    }

    /// Component-wise maximum of two vectors, producing a new vector.
    pub fn pluck_max(self, other: Normal4<S>) -> (r: Normal4<S>)
        ensures
            r@ == ops::pluck_max_spec(self@, other@),
    {
        let x: S = if other.x.num_le(self.x) { self.x } else { other.x };
        let y: S = if other.y.num_le(self.y) { self.y } else { other.y };
        let z: S = if other.z.num_le(self.z) { self.z } else { other.z };
        let w: S = if other.w.num_le(self.w) { self.w } else { other.w };
        let r = Normal4::new(x, y, z, w);
        proof {
            assert(r@ =~= ops::pluck_max_spec(self@, other@));
        }
        r
    }

    /// The zero vector.
    pub fn zero() -> (r: Normal4<S>)
        ensures
            r@ == ops::broadcast_spec(4, 0),
    {
        let r = Normal4::from_value(S::zero());
        proof {
            assert(r@ =~= ops::broadcast_spec(4, 0));
        }
        r
    }

    /// Whether every component is zero.
    pub fn is_zero(&self) -> (r: bool)
        ensures
            r == ops::is_zero_spec(self@),
    {
        let z: S = S::zero();
        let r = self.x.num_eq(z) && self.y.num_eq(z) && self.z.num_eq(z) && self.w.num_eq(z);
        proof {
            if r {
                assert forall|i: int| 0 <= i < self@.len() implies self@[i] == 0 by {}
            } else {
                assert(self@[0] == self.x.sval());
                assert(self@[1] == self.y.sval());
                assert(self@[2] == self.z.sval());
                assert(self@[3] == self.w.sval());
            }
        }
        r
    }

    /// The dot product: the left-to-right sum of the component-wise
    /// products.
    pub fn dot(self, other: Normal4<S>) -> (r: S)
        requires
            in_rep::<S>(self@[0] * other@[0]),
            in_rep::<S>(self@[1] * other@[1]),
            in_rep::<S>(self@[2] * other@[2]),
            in_rep::<S>(self@[3] * other@[3]),
            in_rep::<S>(self@[0] * other@[0] + self@[1] * other@[1]),
            in_rep::<S>(self@[0] * other@[0] + self@[1] * other@[1] + self@[2] * other@[2]),
            in_rep::<S>(self@[0] * other@[0] + self@[1] * other@[1] + self@[2] * other@[2] + self@[3] * other@[3]),
        ensures
            r.sval() == ops::dot_spec(self@, other@),
    {
        proof {
            ops::lemma_dot4(self@, other@);
        }
        self.x.num_mul(other.x).num_add(self.y.num_mul(other.y)).num_add(self.z.num_mul(other.z)).num_add(self.w.num_mul(other.w))
    }

    /// The squared magnitude: the dot product of the vector with itself.
    pub fn magnitude2(self) -> (r: S)
        requires
            in_rep::<S>(self@[0] * self@[0]),
            in_rep::<S>(self@[1] * self@[1]),
            in_rep::<S>(self@[2] * self@[2]),
            in_rep::<S>(self@[3] * self@[3]),
            in_rep::<S>(self@[0] * self@[0] + self@[1] * self@[1]),
            in_rep::<S>(self@[0] * self@[0] + self@[1] * self@[1] + self@[2] * self@[2]),
            in_rep::<S>(self@[0] * self@[0] + self@[1] * self@[1] + self@[2] * self@[2] + self@[3] * self@[3]),
        ensures
            r.sval() == ops::dot_spec(self@, self@),
            r.sval() >= 0,
    {
        proof {
            ops::lemma_dot_self_nonneg(self@);
        }
        self.dot(self)
    }

    /// The squared distance between `self` and `other` read as points: the
    /// squared magnitude of their difference.
    pub fn distance2(self, other: Normal4<S>) -> (r: S)
        requires
            in_rep::<S>((other@[0] - self@[0])),
            in_rep::<S>((other@[1] - self@[1])),
            in_rep::<S>((other@[2] - self@[2])),
            in_rep::<S>((other@[3] - self@[3])),
            in_rep::<S>((other@[0] - self@[0]) * (other@[0] - self@[0])),
            in_rep::<S>((other@[1] - self@[1]) * (other@[1] - self@[1])),
            in_rep::<S>((other@[2] - self@[2]) * (other@[2] - self@[2])),
            in_rep::<S>((other@[3] - self@[3]) * (other@[3] - self@[3])),
            in_rep::<S>((other@[0] - self@[0]) * (other@[0] - self@[0]) + (other@[1] - self@[1]) * (other@[1] - self@[1])),
            in_rep::<S>((other@[0] - self@[0]) * (other@[0] - self@[0]) + (other@[1] - self@[1]) * (other@[1] - self@[1]) + (other@[2] - self@[2]) * (other@[2] - self@[2])),
            in_rep::<S>((other@[0] - self@[0]) * (other@[0] - self@[0]) + (other@[1] - self@[1]) * (other@[1] - self@[1]) + (other@[2] - self@[2]) * (other@[2] - self@[2]) + (other@[3] - self@[3]) * (other@[3] - self@[3])),
        ensures
            r.sval() == ops::dot_spec(ops::sub_spec(other@, self@), ops::sub_spec(other@, self@)),
    {
        let d = other.minus(self);
        d.magnitude2()
    }

    /// Component-wise conversion to another scalar type: `Some` with every
    /// component carried over exactly when each is representable in the
    /// target type, `None` otherwise.
    pub fn cast<T: BaseNum>(&self) -> (r: Option<Normal4<T>>)
        ensures
            (match r {
                Some(v) => v@ == self@ && seq_in_rep::<T>(self@),
                None => !seq_in_rep::<T>(self@),
            }),
    {
        let cx: Option<T> = T::from_wide(self.x.to_wide());
        let cy: Option<T> = T::from_wide(self.y.to_wide());
        let cz: Option<T> = T::from_wide(self.z.to_wide());
        let cw: Option<T> = T::from_wide(self.w.to_wide());
        if cx.is_some() && cy.is_some() && cz.is_some() && cw.is_some() {
            let v = Normal4::new(cx.unwrap(), cy.unwrap(), cz.unwrap(), cw.unwrap());
            proof {
                assert(v@ =~= self@);
                assert forall|i: int| 0 <= i < self@.len() implies in_rep::<T>(self@[i]) by {}
            }
            Some(v)
        } else {
            proof {
                if cx.is_none() {
                    assert(!in_rep::<T>(self@[0]));
                } else if cy.is_none() {
                    assert(!in_rep::<T>(self@[1]));
                } else if cz.is_none() {
                    assert(!in_rep::<T>(self@[2]));
                } else if cw.is_none() {
                    assert(!in_rep::<T>(self@[3]));
                }
                assert(!seq_in_rep::<T>(self@));
            }
            None
        }
    }

    /// Create a `Normal3`, dropping the `w` value.
    pub fn truncate(self) -> (r: Normal3<S>)
        ensures
            r@ == self@.drop_last(),
    {
        let r = Normal3::new(self.x, self.y, self.z);
        proof {
            assert(r@ =~= self@.drop_last());
        }
        r
    }

    /// Create a `Normal3`, dropping the `n`th component; an index past the
    /// arity is ruled out by the `requires`.
    pub fn truncate_n(&self, n: isize) -> (r: Normal3<S>)
        requires
            0 <= n <= 3,
        ensures
            r@ == self@.remove(n as int),
    {
        if n == 0 {
            let r = Normal3::new(self.y, self.z, self.w);
            proof {
                assert(r@ =~= self@.remove(n as int));
            }
            r
        } else if n == 1 {
            let r = Normal3::new(self.x, self.z, self.w);
            proof {
                assert(r@ =~= self@.remove(n as int));
            }
            r
        } else if n == 2 {
            let r = Normal3::new(self.x, self.y, self.w);
            proof {
                assert(r@ =~= self@.remove(n as int));
            }
            r
        } else {
            let r = Normal3::new(self.x, self.y, self.z);
            proof {
                assert(r@ =~= self@.remove(n as int));
            }
            r
        }
    }
}

impl<S: BaseNum> Normal3<S> {

    /// Returns the cross product of the normal and `other`. The result is
    /// a displacement vector, never a normal: a cross product involving
    /// normals is not geometrically meaningful as a normal.
    pub fn cross(self, other: Normal3<S>) -> (r: Vector3<S>)
        requires
            in_rep::<S>(self@[1] * other@[2]),
            in_rep::<S>(self@[2] * other@[1]),
            in_rep::<S>(self@[2] * other@[0]),
            in_rep::<S>(self@[0] * other@[2]),
            in_rep::<S>(self@[0] * other@[1]),
            in_rep::<S>(self@[1] * other@[0]),
            in_rep::<S>(self@[1] * other@[2] - self@[2] * other@[1]),
            in_rep::<S>(self@[2] * other@[0] - self@[0] * other@[2]),
            in_rep::<S>(self@[0] * other@[1] - self@[1] * other@[0]),
        ensures
            r@ == ops::cross_spec(self@, other@),
    {
        let r = Vector3::new(
            self.y.num_mul(other.z).num_sub(self.z.num_mul(other.y)),
            self.z.num_mul(other.x).num_sub(self.x.num_mul(other.z)),
            self.x.num_mul(other.y).num_sub(self.y.num_mul(other.x)),
        );
        proof {
            assert(r@ =~= ops::cross_spec(self@, other@));
        }
        r
    }

    /// The cross product of the normal and a displacement vector; the result is a displacement vector, never a normal.
    pub fn cross_vector(self, other: Vector3<S>) -> (r: Vector3<S>)
        requires
            in_rep::<S>(self@[1] * other@[2]),
            in_rep::<S>(self@[2] * other@[1]),
            in_rep::<S>(self@[2] * other@[0]),
            in_rep::<S>(self@[0] * other@[2]),
            in_rep::<S>(self@[0] * other@[1]),
            in_rep::<S>(self@[1] * other@[0]),
            in_rep::<S>(self@[1] * other@[2] - self@[2] * other@[1]),
            in_rep::<S>(self@[2] * other@[0] - self@[0] * other@[2]),
            in_rep::<S>(self@[0] * other@[1] - self@[1] * other@[0]),
        ensures
            r@ == ops::cross_spec(self@, other@),
    {
        let r = Vector3::new(
            self.y.num_mul(other.z).num_sub(self.z.num_mul(other.y)),
            self.z.num_mul(other.x).num_sub(self.x.num_mul(other.z)),
            self.x.num_mul(other.y).num_sub(self.y.num_mul(other.x)),
        );
        proof {
            assert(r@ =~= ops::cross_spec(self@, other@));
        }
        r
    }
}

impl<S: BaseNum> Vector3<S> {

    /// The cross product of the vector and a surface normal; the result is a displacement vector, never a normal.
    pub fn cross_normal(self, other: Normal3<S>) -> (r: Vector3<S>)
        requires
            in_rep::<S>(self@[1] * other@[2]),
            in_rep::<S>(self@[2] * other@[1]),
            in_rep::<S>(self@[2] * other@[0]),
            in_rep::<S>(self@[0] * other@[2]),
            in_rep::<S>(self@[0] * other@[1]),
            in_rep::<S>(self@[1] * other@[0]),
            in_rep::<S>(self@[1] * other@[2] - self@[2] * other@[1]),
            in_rep::<S>(self@[2] * other@[0] - self@[0] * other@[2]),
            in_rep::<S>(self@[0] * other@[1] - self@[1] * other@[0]),
        ensures
            r@ == ops::cross_spec(self@, other@),
    {
        let r = Vector3::new(
            self.y.num_mul(other.z).num_sub(self.z.num_mul(other.y)),
            self.z.num_mul(other.x).num_sub(self.x.num_mul(other.z)),
            self.x.num_mul(other.y).num_sub(self.y.num_mul(other.x)),
        );
        proof {
            assert(r@ =~= ops::cross_spec(self@, other@));
        }
        r
    }
}

/// The array/tuple round-trip law for `Normal1`: a normal built from an array
/// or tuple reads back as exactly those components, and one rebuilt from
/// its own components is itself.
pub proof fn lemma_normal1_round_trip<S: Copy>(a: [S; 1], t: (S,), v: Normal1<S>)
    ensures
        (<Normal1<S> as FromSpec<[S; 1]>>::from_spec(a)).to_seq() == a@,
        (<Normal1<S> as FromSpec<(S,)>>::from_spec(t)).to_seq() == seq![t.0],
        a@ == v.to_seq() ==> <Normal1<S> as FromSpec<[S; 1]>>::from_spec(a) == v,
        (t.0 == v.x) ==> <Normal1<S> as FromSpec<(S,)>>::from_spec(t) == v,
{
    assert((<Normal1<S> as FromSpec<[S; 1]>>::from_spec(a)).to_seq() =~= a@);
    assert((<Normal1<S> as FromSpec<(S,)>>::from_spec(t)).to_seq() =~= seq![t.0]);
}

/// The array/tuple round-trip law for `Normal2`: a normal built from an array
/// or tuple reads back as exactly those components, and one rebuilt from
/// its own components is itself.
pub proof fn lemma_normal2_round_trip<S: Copy>(a: [S; 2], t: (S, S), v: Normal2<S>)
    ensures
        (<Normal2<S> as FromSpec<[S; 2]>>::from_spec(a)).to_seq() == a@,
        (<Normal2<S> as FromSpec<(S, S)>>::from_spec(t)).to_seq() == seq![t.0, t.1],
        a@ == v.to_seq() ==> <Normal2<S> as FromSpec<[S; 2]>>::from_spec(a) == v,
        (t.0 == v.x && t.1 == v.y) ==> <Normal2<S> as FromSpec<(S, S)>>::from_spec(t) == v,
{
    assert((<Normal2<S> as FromSpec<[S; 2]>>::from_spec(a)).to_seq() =~= a@);
    assert((<Normal2<S> as FromSpec<(S, S)>>::from_spec(t)).to_seq() =~= seq![t.0, t.1]);
}

/// The array/tuple round-trip law for `Normal3`: a normal built from an array
/// or tuple reads back as exactly those components, and one rebuilt from
/// its own components is itself.
pub proof fn lemma_normal3_round_trip<S: Copy>(a: [S; 3], t: (S, S, S), v: Normal3<S>)
    ensures
        (<Normal3<S> as FromSpec<[S; 3]>>::from_spec(a)).to_seq() == a@,
        (<Normal3<S> as FromSpec<(S, S, S)>>::from_spec(t)).to_seq() == seq![t.0, t.1, t.2],
        a@ == v.to_seq() ==> <Normal3<S> as FromSpec<[S; 3]>>::from_spec(a) == v,
        (t.0 == v.x && t.1 == v.y && t.2 == v.z) ==> <Normal3<S> as FromSpec<(S, S, S)>>::from_spec(t) == v,
{
    assert((<Normal3<S> as FromSpec<[S; 3]>>::from_spec(a)).to_seq() =~= a@);
    assert((<Normal3<S> as FromSpec<(S, S, S)>>::from_spec(t)).to_seq() =~= seq![t.0, t.1, t.2]);
}

/// The array/tuple round-trip law for `Normal4`: a normal built from an array
/// or tuple reads back as exactly those components, and one rebuilt from
/// its own components is itself.
pub proof fn lemma_normal4_round_trip<S: Copy>(a: [S; 4], t: (S, S, S, S), v: Normal4<S>)
    ensures
        (<Normal4<S> as FromSpec<[S; 4]>>::from_spec(a)).to_seq() == a@,
        (<Normal4<S> as FromSpec<(S, S, S, S)>>::from_spec(t)).to_seq() == seq![t.0, t.1, t.2, t.3],
        a@ == v.to_seq() ==> <Normal4<S> as FromSpec<[S; 4]>>::from_spec(a) == v,
        (t.0 == v.x && t.1 == v.y && t.2 == v.z && t.3 == v.w) ==> <Normal4<S> as FromSpec<(S, S, S, S)>>::from_spec(t) == v,
{
    assert((<Normal4<S> as FromSpec<[S; 4]>>::from_spec(a)).to_seq() =~= a@);
    assert((<Normal4<S> as FromSpec<(S, S, S, S)>>::from_spec(t)).to_seq() =~= seq![t.0, t.1, t.2, t.3]);
}

/// A `Normal1` has exactly one component positions: its component sequence
/// has length 1, so position 1 — one past the last valid index — names no
/// component, and every indexed access to a normal demands an index below
/// the arity by `requires`, never clamping or wrapping.
pub proof fn lemma_normal1_arity<S>(v: Normal1<S>)
    ensures
        v.to_seq().len() == 1,
{
}

/// A `Normal2` has exactly two component positions: its component sequence
/// has length 2, so position 2 — one past the last valid index — names no
/// component, and every indexed access to a normal demands an index below
/// the arity by `requires`, never clamping or wrapping.
pub proof fn lemma_normal2_arity<S>(v: Normal2<S>)
    ensures
        v.to_seq().len() == 2,
{
}

/// A `Normal3` has exactly three component positions: its component sequence
/// has length 3, so position 3 — one past the last valid index — names no
/// component, and every indexed access to a normal demands an index below
/// the arity by `requires`, never clamping or wrapping.
pub proof fn lemma_normal3_arity<S>(v: Normal3<S>)
    ensures
        v.to_seq().len() == 3,
{
}

/// A `Normal4` has exactly four component positions: its component sequence
/// has length 4, so position 4 — one past the last valid index — names no
/// component, and every indexed access to a normal demands an index below
/// the arity by `requires`, never clamping or wrapping.
pub proof fn lemma_normal4_arity<S>(v: Normal4<S>)
    ensures
        v.to_seq().len() == 4,
{
}

} // verus!
