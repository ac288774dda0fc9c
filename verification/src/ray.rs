//! Rays: half-bounded lines, starting at an origin `o` and heading in a
//! direction `d`. The live stretch of the ray runs from `o + min_t * d` to
//! `o + max_t * d`; an unbounded ray carries the largest representable
//! scalar as `max_t`. `depth` counts how many bounces deep the ray is, and
//! `time` is the time point the ray samples.

use vstd::prelude::*;
#[allow(unused_imports)]
use crate::scalar::{BaseNum, in_rep};
use crate::ops;
use crate::point::{Point2, Point3};
use crate::vector::{Vector2, Vector3};

verus! {

/// A half-bounded line in 2-dimensional space, from origin `o` in direction
/// `d`, live on the parameter range `min_t ..= max_t`.
#[derive(Clone, Copy, Debug, PartialEq, Eq, Hash)]
pub struct Ray2<S> {
    /// Origin of the ray.
    pub o: Point2<S>,
    /// Direction the ray is heading.
    pub d: Vector2<S>,
    /// Parameter at which the live stretch of the ray starts.
    pub min_t: S,
    /// Parameter at which the live stretch of the ray stops; the largest
    /// representable scalar when the ray is unbounded.
    pub max_t: S,
    /// Recursion depth of the ray.
    pub depth: usize,
    /// Time point sampled by this ray.
    pub time: S,
}

/// A half-bounded line in 3-dimensional space, from origin `o` in direction
/// `d`, live on the parameter range `min_t ..= max_t`.
#[derive(Clone, Copy, Debug, PartialEq, Eq, Hash)]
pub struct Ray3<S> {
    /// Origin of the ray.
    pub o: Point3<S>,
    /// Direction the ray is heading.
    pub d: Vector3<S>,
    /// Parameter at which the live stretch of the ray starts.
    pub min_t: S,
    /// Parameter at which the live stretch of the ray stops; the largest
    /// representable scalar when the ray is unbounded.
    pub max_t: S,
    /// Recursion depth of the ray.
    pub depth: usize,
    /// Time point sampled by this ray.
    pub time: S,
}

impl<S: BaseNum> Ray2<S> {
    /// Create a new ray from `o` heading in `d`, with the whole
    /// representable parameter range live.
    pub fn new(o: Point2<S>, d: Vector2<S>, time: S) -> (r: Self)
        ensures
            r.o == o,
            r.d == d,
            r.min_t.sval() == 0,
            r.max_t.sval() == S::rep_max(),
            r.depth == 0,
            r.time == time,
    {
        Ray2 { o, d, min_t: S::zero(), max_t: S::max_value(), depth: 0, time }
    }

    /// Create a new segment ray, live from `o + min_t * d` to
    /// `o + max_t * d`.
    pub fn segment(o: Point2<S>, d: Vector2<S>, min_t: S, max_t: S, time: S) -> (r: Self)
        ensures
            r.o == o,
            r.d == d,
            r.min_t == min_t,
            r.max_t == max_t,
            r.depth == 0,
            r.time == time,
    {
        Ray2 { o, d, min_t, max_t, depth: 0, time }
    }

    /// Create a child ray of this one, starting at `o` and heading in `d`:
    /// one level deeper, sampling the same time point, unbounded.
    pub fn child(&self, o: Point2<S>, d: Vector2<S>) -> (r: Self)
        requires
            self.depth < usize::MAX,
        ensures
            r.o == o,
            r.d == d,
            r.min_t.sval() == 0,
            r.max_t.sval() == S::rep_max(),
            r.depth == self.depth + 1,
            r.time == self.time,
    {
        Ray2 {
            o,
            d,
            min_t: S::zero(),
            max_t: S::max_value(),
            depth: self.depth + 1,
            time: self.time,
        }
    }

    /// Create a child ray segment, live from `o + min_t * d` to
    /// `o + max_t * d`: one level deeper, sampling the same time point.
    pub fn child_segment(&self, o: Point2<S>, d: Vector2<S>, min_t: S, max_t: S) -> (r: Self)
        requires
            self.depth < usize::MAX,
        ensures
            r.o == o,
            r.d == d,
            r.min_t == min_t,
            r.max_t == max_t,
            r.depth == self.depth + 1,
            r.time == self.time,
    {
        Ray2 { o, d, min_t, max_t, depth: self.depth + 1, time: self.time }
    }

    /// Evaluate the ray equation at parameter `t`: the point
    /// `self.o + self.d * t`.
    pub fn at(&self, t: S) -> (r: Point2<S>)
        requires
            in_rep::<S>(self.d@[0] * t.sval()),
            in_rep::<S>(self.d@[1] * t.sval()),
            in_rep::<S>(self.o@[0] + self.d@[0] * t.sval()),
            in_rep::<S>(self.o@[1] + self.d@[1] * t.sval()),
        ensures
            r@ == ops::add_spec(self.o@, ops::mul_scalar_spec(self.d@, t.sval())),
    {
        self.o.add_vector(self.d.mul_scalar(t))
    }
}

impl<S: BaseNum> Ray3<S> {
    /// Create a new ray from `o` heading in `d`, with the whole
    /// representable parameter range live.
    pub fn new(o: Point3<S>, d: Vector3<S>, time: S) -> (r: Self)
        ensures
            r.o == o,
            r.d == d,
            r.min_t.sval() == 0,
            r.max_t.sval() == S::rep_max(),
            r.depth == 0,
            r.time == time,
    {
        Ray3 { o, d, min_t: S::zero(), max_t: S::max_value(), depth: 0, time }
    }

    /// Create a new segment ray, live from `o + min_t * d` to
    /// `o + max_t * d`.
    pub fn segment(o: Point3<S>, d: Vector3<S>, min_t: S, max_t: S, time: S) -> (r: Self)
        ensures
            r.o == o,
            r.d == d,
            r.min_t == min_t,
            r.max_t == max_t,
            r.depth == 0,
            r.time == time,
    {
        Ray3 { o, d, min_t, max_t, depth: 0, time }
    }

    /// Create a child ray of this one, starting at `o` and heading in `d`:
    /// one level deeper, sampling the same time point, unbounded.
    pub fn child(&self, o: Point3<S>, d: Vector3<S>) -> (r: Self)
        requires
            self.depth < usize::MAX,
        ensures
            r.o == o,
            r.d == d,
            r.min_t.sval() == 0,
            r.max_t.sval() == S::rep_max(),
            r.depth == self.depth + 1,
            r.time == self.time,
    {
        Ray3 {
            o,
            d,
            min_t: S::zero(),
            max_t: S::max_value(),
            depth: self.depth + 1,
            time: self.time,
        }
    }

    /// Create a child ray segment, live from `o + min_t * d` to
    /// `o + max_t * d`: one level deeper, sampling the same time point.
    pub fn child_segment(&self, o: Point3<S>, d: Vector3<S>, min_t: S, max_t: S) -> (r: Self)
        requires
            self.depth < usize::MAX,
        ensures
            r.o == o,
            r.d == d,
            r.min_t == min_t,
            r.max_t == max_t,
            r.depth == self.depth + 1,
            r.time == self.time,
    {
        Ray3 { o, d, min_t, max_t, depth: self.depth + 1, time: self.time }
    }

    /// Evaluate the ray equation at parameter `t`: the point
    /// `self.o + self.d * t`.
    pub fn at(&self, t: S) -> (r: Point3<S>)
        requires
            in_rep::<S>(self.d@[0] * t.sval()),
            in_rep::<S>(self.d@[1] * t.sval()),
            in_rep::<S>(self.d@[2] * t.sval()),
            in_rep::<S>(self.o@[0] + self.d@[0] * t.sval()),
            in_rep::<S>(self.o@[1] + self.d@[1] * t.sval()),
            in_rep::<S>(self.o@[2] + self.d@[2] * t.sval()),
        ensures
            r@ == ops::add_spec(self.o@, ops::mul_scalar_spec(self.d@, t.sval())),
    {
        self.o.add_vector(self.d.mul_scalar(t))
    }
}

/// The linearity of ray evaluation: a ray whose direction is the sum
/// `a + b` reaches, at any parameter `s`, the same point as offsetting the
/// origin by the two scaled parts added together — scaling distributes
/// over the direction sum — and the direction sum commutes.
pub proof fn lemma_at_linear(o: Seq<int>, a: Seq<int>, b: Seq<int>, s: int)
    requires
        a.len() == b.len(),
    ensures
        ops::add_spec(o, ops::mul_scalar_spec(ops::add_spec(a, b), s)) == ops::add_spec(
            o,
            ops::add_spec(ops::mul_scalar_spec(a, s), ops::mul_scalar_spec(b, s)),
        ),
        ops::add_spec(o, ops::mul_scalar_spec(ops::add_spec(a, b), s)) == ops::add_spec(
            o,
            ops::mul_scalar_spec(ops::add_spec(b, a), s),
        ),
{
    ops::lemma_scale_distributes(a, b, s);
    ops::lemma_add_comm(a, b);
}

} // verus!
