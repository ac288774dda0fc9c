//! Transforms: how a 4×4 row-major matrix carries points, displacement
//! vectors and rays, and the traits a transform representation offers to
//! its users.
//!
//! A point rides through the full homogeneous form — each coordinate is a
//! row applied to the point plus the row's translation entry, and the
//! result is divided by the fourth coordinate when that is not one. A
//! displacement vector feels only the linear part: no translation column
//! and no divide. A surface normal would transform by the inverse
//! transpose, which needs a matrix inverse and therefore a scalar type
//! with division beyond these integers; that impl belongs to callers with
//! such scalars, through the [`Transform`] trait.

use vstd::prelude::*;
#[allow(unused_imports)]
use crate::scalar::{BaseNum, in_rep, trunc_div};
use crate::matrix::Matrix4;
use crate::point::Point3;
use crate::ray::Ray3;
use crate::vector::Vector3;

verus! {

/// Something a transform `T` can carry: the transform layer's entry point
/// for each geometric type. The library states exact contracts on its own
/// inherent `transform` functions; this trait is the extension point for
/// transform representations the library does not own.
pub trait Transform<T> {
    /// What `self` is carried to.
    type Output;

    /// Carry `self` through the transform `t`.
    fn transform(&self, t: &T) -> Self::Output;
}

/// A transform representation: how one is built, composed and inverted.
/// The angle, vector and point types are the implementor's choice; the
/// rotation, projection and inversion constructors demand more of the
/// scalar than this library's integer scalars offer, so the library
/// declares the surface and leaves the impls to its users.
pub trait Transformation: Sized {
    /// The scalar the representation is built over.
    type Scalar;

    /// The angle type the rotation constructors take.
    type Angle;

    /// The displacement-vector type.
    type Vector;

    /// The point type.
    type Point;

    /// The identity transform.
    fn identity() -> Self;

    /// The transform displacing every point by `vector`.
    fn translate(vector: Self::Vector) -> Self;

    /// The transform scaling each axis by the matching component.
    fn scale(vector: Self::Vector) -> Self;

    /// The transform scaling every axis by the one scalar.
    fn uniform_scale(scalar: Self::Scalar) -> Self;

    /// Rotation about the `x` axis.
    fn rotate_x(angle: Self::Angle) -> Self;

    /// Rotation about the `y` axis.
    fn rotate_y(angle: Self::Angle) -> Self;

    /// Rotation about the `z` axis.
    fn rotate_z(angle: Self::Angle) -> Self;

    /// Rotation about an arbitrary axis.
    fn rotate(axis: Self::Vector, angle: Self::Angle) -> Self;

    /// The viewing transform looking from `eye` toward `center`, with `up`
    /// fixing the roll.
    fn look_at(eye: Self::Point, center: Self::Point, up: Self::Vector) -> Self;

    /// The perspective projection with vertical field of view `fovy` and
    /// the given near and far planes.
    fn perspective(fovy: Self::Angle, near: Self::Scalar, far: Self::Scalar) -> Self;

    /// The inverse transform.
    fn inverse(&self) -> Self;

    /// The composition of two transforms.
    fn compose(&self, rhs: &Self) -> Self;

    /// Compose in place.
    fn compose_mut(&mut self, rhs: &Self) {
        *self = self.compose(rhs);
    }

    /// Carry a value through this transform.
    fn apply<V: Transform<Self>>(&self, v: V) -> V::Output {
        v.transform(self)
    }
}

/// Row `i` of the matrix applied to the first three components, without
/// the translation column.
pub open spec fn row_dot3(m: Seq<Seq<int>>, p: Seq<int>, i: int) -> int {
    m[i][0] * p[0] + m[i][1] * p[1] + m[i][2] * p[2]
}

/// Homogeneous coordinate `i` of a transformed point: row `i` applied to
/// the point, translation entry added.
pub open spec fn hom_coord(m: Seq<Seq<int>>, p: Seq<int>, i: int) -> int {
    row_dot3(m, p, i) + m[i][3]
}

/// Whether row `i` can be applied to the tuple without leaving the
/// scalar's range: each product, each partial sum left to right.
pub open spec fn row_apply_ok<S: BaseNum>(m: Seq<Seq<int>>, p: Seq<int>, i: int) -> bool {
    &&& in_rep::<S>(m[i][0] * p[0])
    &&& in_rep::<S>(m[i][1] * p[1])
    &&& in_rep::<S>(m[i][2] * p[2])
    &&& in_rep::<S>(m[i][0] * p[0] + m[i][1] * p[1])
    &&& in_rep::<S>(row_dot3(m, p, i))
}

/// `row_apply_ok`, then the translation entry added.
pub open spec fn hom_row_ok<S: BaseNum>(m: Seq<Seq<int>>, p: Seq<int>, i: int) -> bool {
    &&& row_apply_ok::<S>(m, p, i)
    &&& in_rep::<S>(hom_coord(m, p, i))
}

/// What a matrix carries a point to: the first three homogeneous
/// coordinates, each divided (truncating) by the fourth when the fourth is
/// not one.
pub open spec fn point_transform_spec(m: Seq<Seq<int>>, p: Seq<int>) -> Seq<int> {
    let w = hom_coord(m, p, 3);
    if w == 1 {
        seq![hom_coord(m, p, 0), hom_coord(m, p, 1), hom_coord(m, p, 2)]
    } else {
        seq![
            trunc_div(hom_coord(m, p, 0), w),
            trunc_div(hom_coord(m, p, 1), w),
            trunc_div(hom_coord(m, p, 2), w),
        ]
    }
}

/// Whether a point can ride through the matrix without leaving the
/// scalar's range, and without a division by a zero fourth coordinate.
pub open spec fn point_transform_ok<S: BaseNum>(m: Seq<Seq<int>>, p: Seq<int>) -> bool {
    &&& hom_row_ok::<S>(m, p, 0)
    &&& hom_row_ok::<S>(m, p, 1)
    &&& hom_row_ok::<S>(m, p, 2)
    &&& hom_row_ok::<S>(m, p, 3)
    &&& hom_coord(m, p, 3) != 0
    &&& (hom_coord(m, p, 3) != 1 ==> in_rep::<S>(
        trunc_div(hom_coord(m, p, 0), hom_coord(m, p, 3)),
    ))
    &&& (hom_coord(m, p, 3) != 1 ==> in_rep::<S>(
        trunc_div(hom_coord(m, p, 1), hom_coord(m, p, 3)),
    ))
    &&& (hom_coord(m, p, 3) != 1 ==> in_rep::<S>(
        trunc_div(hom_coord(m, p, 2), hom_coord(m, p, 3)),
    ))
}

/// What a matrix carries a displacement vector to: the linear part alone,
/// no translation column and no divide.
pub open spec fn vector_transform_spec(m: Seq<Seq<int>>, v: Seq<int>) -> Seq<int> {
    seq![row_dot3(m, v, 0), row_dot3(m, v, 1), row_dot3(m, v, 2)]
}

/// Whether a displacement vector can ride through the linear part of the
/// matrix without leaving the scalar's range.
pub open spec fn vector_transform_ok<S: BaseNum>(m: Seq<Seq<int>>, v: Seq<int>) -> bool {
    &&& row_apply_ok::<S>(m, v, 0)
    &&& row_apply_ok::<S>(m, v, 1)
    &&& row_apply_ok::<S>(m, v, 2)
}

impl<S: BaseNum> Point3<S> {
    /// The point carried through the matrix: each coordinate is a row
    /// applied to the point plus the row's translation entry, and the
    /// result is divided by the fourth homogeneous coordinate when that is
    /// not one.
    pub fn transform(&self, t: &Matrix4<S>) -> (r: Point3<S>)
        requires
            point_transform_ok::<S>(t@, self@),
        ensures
            r@ == point_transform_spec(t@, self@),
    {
        let c0: S = t.x.x.num_mul(self.x).num_add(t.x.y.num_mul(self.y)).num_add(
            t.x.z.num_mul(self.z),
        ).num_add(t.x.w);
        let c1: S = t.y.x.num_mul(self.x).num_add(t.y.y.num_mul(self.y)).num_add(
            t.y.z.num_mul(self.z),
        ).num_add(t.y.w);
        let c2: S = t.z.x.num_mul(self.x).num_add(t.z.y.num_mul(self.y)).num_add(
            t.z.z.num_mul(self.z),
        ).num_add(t.z.w);
        let w: S = t.w.x.num_mul(self.x).num_add(t.w.y.num_mul(self.y)).num_add(
            t.w.z.num_mul(self.z),
        ).num_add(t.w.w);
        let res = Point3::new(c0, c1, c2);
        if !w.num_eq(S::one()) {
            let r = res.div_scalar(w);
            proof {
                assert(r@ =~= point_transform_spec(t@, self@));
            }
            r
        } else {
            proof {
                assert(res@ =~= point_transform_spec(t@, self@));
            }
            res
        }
    }
}

impl<S: BaseNum> Vector3<S> {
    /// The displacement vector carried through the matrix: the linear part
    /// alone, no translation and no divide.
    pub fn transform(&self, t: &Matrix4<S>) -> (r: Vector3<S>)
        requires
            vector_transform_ok::<S>(t@, self@),
        ensures
            r@ == vector_transform_spec(t@, self@),
    {
        let c0: S = t.x.x.num_mul(self.x).num_add(t.x.y.num_mul(self.y)).num_add(
            t.x.z.num_mul(self.z),
        );
        let c1: S = t.y.x.num_mul(self.x).num_add(t.y.y.num_mul(self.y)).num_add(
            t.y.z.num_mul(self.z),
        );
        let c2: S = t.z.x.num_mul(self.x).num_add(t.z.y.num_mul(self.y)).num_add(
            t.z.z.num_mul(self.z),
        );
        let r = Vector3::new(c0, c1, c2);
        proof {
            assert(r@ =~= vector_transform_spec(t@, self@));
        }
        r
    }
}

impl<S: BaseNum> Ray3<S> {
    /// The ray carried through the matrix: the origin rides as a point,
    /// the direction as a displacement vector, and the parameter range,
    /// depth and time stay as they were.
    pub fn transform(&self, t: &Matrix4<S>) -> (r: Ray3<S>)
        requires
            point_transform_ok::<S>(t@, self.o@),
            vector_transform_ok::<S>(t@, self.d@),
        ensures
            r.o@ == point_transform_spec(t@, self.o@),
            r.d@ == vector_transform_spec(t@, self.d@),
            r.min_t == self.min_t,
            r.max_t == self.max_t,
            r.depth == self.depth,
            r.time == self.time,
    {
        let mut res = *self;
        res.o = self.o.transform(t);
        res.d = self.d.transform(t);
        res
    }
}

} // verus!
