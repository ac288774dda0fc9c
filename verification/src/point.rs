//! Points in 2- and 3-dimensional space: positions rather than
//! displacements. A point can be displaced by a vector and divided by a
//! scalar (the homogeneous divide), but two points cannot be added.

use vstd::prelude::*;
#[allow(unused_imports)]
use crate::scalar::{BaseNum, in_rep, trunc_div};
use crate::ops;
use crate::vector::{Vector2, Vector3};

verus! {

/// A point in 2-dimensional space.
#[derive(Clone, Copy, Debug, PartialEq, Eq, Hash)]
pub struct Point2<S> {
    /// The `x` coordinate of the point.
    pub x: S,
    /// The `y` coordinate of the point.
    pub y: S,
}

/// A point in 3-dimensional space.
#[derive(Clone, Copy, Debug, PartialEq, Eq, Hash)]
pub struct Point3<S> {
    /// The `x` coordinate of the point.
    pub x: S,
    /// The `y` coordinate of the point.
    pub y: S,
    /// The `z` coordinate of the point.
    pub z: S,
}

impl<S> Point2<S> {
    /// The coordinates as a sequence, in declared field order.
    pub open spec fn to_seq(self) -> Seq<S> {
        seq![self.x, self.y]
    }

    /// Construct a new point, using the provided values.
    pub fn new(x: S, y: S) -> (r: Point2<S>)
        ensures
            r.x == x,
            r.y == y,
    {
        Point2 { x, y }
    }
}

impl<S> Point3<S> {
    /// The coordinates as a sequence, in declared field order.
    pub open spec fn to_seq(self) -> Seq<S> {
        seq![self.x, self.y, self.z]
    }

    /// Construct a new point, using the provided values.
    pub fn new(x: S, y: S, z: S) -> (r: Point3<S>)
        ensures
            r.x == x,
            r.y == y,
            r.z == z,
    {
        Point3 { x, y, z }
    }
}

impl<S: Copy> Point2<S> {
    /// Broadcast a single scalar to both coordinates.
    pub fn from_value(scalar: S) -> (r: Point2<S>)
        ensures
            r.x == scalar,
            r.y == scalar,
    {
        Point2 { x: scalar, y: scalar }
    }

    /// Coordinate `i`, in declared field order (x = 0, y = 1).
    pub fn index(&self, i: usize) -> (r: S)
        requires
            i < 2,
        ensures
            r == self.to_seq()[i as int],
    {
        if i == 0 {
            self.x
        } else {
            self.y
        }
    }

    /// Replace coordinate `i`, leaving the other as it was.
    pub fn set_index(&mut self, i: usize, value: S)
        requires
            i < 2,
        ensures
            final(self).to_seq() == old(self).to_seq().update(i as int, value),
    {
        if i == 0 {
            self.x = value;
        } else {
            self.y = value;
        }
        proof {
            assert(self.to_seq() =~= old(self).to_seq().update(i as int, value));
        }
    }
}

impl<S: Copy> Point3<S> {
    /// Broadcast a single scalar to all three coordinates.
    pub fn from_value(scalar: S) -> (r: Point3<S>)
        ensures
            r.x == scalar,
            r.y == scalar,
            r.z == scalar,
    {
        Point3 { x: scalar, y: scalar, z: scalar }
    }

    /// Coordinate `i`, in declared field order (x = 0, y = 1, z = 2).
    pub fn index(&self, i: usize) -> (r: S)
        requires
            i < 3,
        ensures
            r == self.to_seq()[i as int],
    {
        if i == 0 {
            self.x
        } else if i == 1 {
            self.y
        } else {
            self.z
        }
    }

    /// Replace coordinate `i`, leaving every other coordinate as it was.
    pub fn set_index(&mut self, i: usize, value: S)
        requires
            i < 3,
        ensures
            final(self).to_seq() == old(self).to_seq().update(i as int, value),
    {
        if i == 0 {
            self.x = value;
        } else if i == 1 {
            self.y = value;
        } else {
            self.z = value;
        }
        proof {
            assert(self.to_seq() =~= old(self).to_seq().update(i as int, value));
        }
    }
}

impl<S: BaseNum> View for Point2<S> {
    type V = Seq<int>;

    open spec fn view(&self) -> Seq<int> {
        seq![self.x.sval(), self.y.sval()]
    }
}

impl<S: BaseNum> View for Point3<S> {
    type V = Seq<int>;

    open spec fn view(&self) -> Seq<int> {
        seq![self.x.sval(), self.y.sval(), self.z.sval()]
    }
}

impl<S: BaseNum> Point2<S> {
    /// The point displaced by a vector.
    pub fn add_vector(self, v: Vector2<S>) -> (r: Point2<S>)
        requires
            in_rep::<S>(self@[0] + v@[0]),
            in_rep::<S>(self@[1] + v@[1]),
        ensures
            r@ == ops::add_spec(self@, v@),
    {
        let r = Point2::new(self.x.num_add(v.x), self.y.num_add(v.y));
        proof {
            assert(r@ =~= ops::add_spec(self@, v@));
        }
        r
    }

    /// The difference of two points: the displacement from `other` to
    /// `self`.
    pub fn sub_point(self, other: Point2<S>) -> (r: Vector2<S>)
        requires
            in_rep::<S>(self@[0] - other@[0]),
            in_rep::<S>(self@[1] - other@[1]),
        ensures
            r@ == ops::sub_spec(self@, other@),
    {
        let r = Vector2::new(self.x.num_sub(other.x), self.y.num_sub(other.y));
        proof {
            assert(r@ =~= ops::sub_spec(self@, other@));
        }
        r
    }

    /// Every coordinate divided (truncating) by the scalar.
    pub fn div_scalar(self, scalar: S) -> (r: Point2<S>)
        requires
            scalar.sval() != 0,
            in_rep::<S>(trunc_div(self@[0], scalar.sval())),
            in_rep::<S>(trunc_div(self@[1], scalar.sval())),
        ensures
            r@ == ops::div_scalar_spec(self@, scalar.sval()),
    {
        let r = Point2::new(self.x.num_div(scalar), self.y.num_div(scalar));
        proof {
            assert(r@ =~= ops::div_scalar_spec(self@, scalar.sval()));
        }
        r
    }
}

impl<S: BaseNum> Point3<S> {
    /// The point displaced by a vector.
    pub fn add_vector(self, v: Vector3<S>) -> (r: Point3<S>)
        requires
            in_rep::<S>(self@[0] + v@[0]),
            in_rep::<S>(self@[1] + v@[1]),
            in_rep::<S>(self@[2] + v@[2]),
        ensures
            r@ == ops::add_spec(self@, v@),
    {
        let r = Point3::new(
            self.x.num_add(v.x),
            self.y.num_add(v.y),
            self.z.num_add(v.z),
        );
        proof {
            assert(r@ =~= ops::add_spec(self@, v@));
        }
        r
    }

    /// The difference of two points: the displacement from `other` to
    /// `self`.
    pub fn sub_point(self, other: Point3<S>) -> (r: Vector3<S>)
        requires
            in_rep::<S>(self@[0] - other@[0]),
            in_rep::<S>(self@[1] - other@[1]),
            in_rep::<S>(self@[2] - other@[2]),
        ensures
            r@ == ops::sub_spec(self@, other@),
    {
        let r = Vector3::new(
            self.x.num_sub(other.x),
            self.y.num_sub(other.y),
            self.z.num_sub(other.z),
        );
        proof {
            assert(r@ =~= ops::sub_spec(self@, other@));
        }
        r
    }

    /// Every coordinate divided (truncating) by the scalar.
    pub fn div_scalar(self, scalar: S) -> (r: Point3<S>)
        requires
            scalar.sval() != 0,
            in_rep::<S>(trunc_div(self@[0], scalar.sval())),
            in_rep::<S>(trunc_div(self@[1], scalar.sval())),
            in_rep::<S>(trunc_div(self@[2], scalar.sval())),
        ensures
            r@ == ops::div_scalar_spec(self@, scalar.sval()),
    {
        let r = Point3::new(
            self.x.num_div(scalar),
            self.y.num_div(scalar),
            self.z.num_div(scalar),
        );
        proof {
            assert(r@ =~= ops::div_scalar_spec(self@, scalar.sval()));
        }
        r
    }
}

} // verus!
