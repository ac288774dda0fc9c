//! A 4×4 matrix, stored as four rows, for homogeneous transforms: a point
//! or vector is carried to the tuple of row–column products, as the
//! transform functions in [`crate::trans`] state. Only the constructions
//! that stay within integer arithmetic live here; rotations, projections
//! and inversion need transcendental scalars and are left to the callers
//! that own such scalars.

use vstd::prelude::*;
#[allow(unused_imports)]
use crate::scalar::{BaseNum, in_rep};
use crate::vector::{Vector3, Vector4};

verus! {

/// A 4×4 matrix of scalars, stored row-major: `x` is the first row, `w`
/// the last.
#[derive(Clone, Copy, Debug, PartialEq, Eq, Hash)]
pub struct Matrix4<S> {
    /// The first row.
    pub x: Vector4<S>,
    /// The second row.
    pub y: Vector4<S>,
    /// The third row.
    pub z: Vector4<S>,
    /// The fourth row.
    pub w: Vector4<S>,
}

/// Entry `(i, j)` of the product of two 4×4 matrices.
pub open spec fn mul_entry(a: Seq<Seq<int>>, b: Seq<Seq<int>>, i: int, j: int) -> int {
    a[i][0] * b[0][j] + a[i][1] * b[1][j] + a[i][2] * b[2][j] + a[i][3] * b[3][j]
}

/// The product of two 4×4 matrices.
pub open spec fn mat_mul_spec(a: Seq<Seq<int>>, b: Seq<Seq<int>>) -> Seq<Seq<int>> {
    Seq::new(4, |i: int| Seq::new(4, |j: int| mul_entry(a, b, i, j)))
}

/// Whether entry `(i, j)` of the product can be computed without leaving
/// the scalar's range: each product, then each left-to-right partial sum.
pub open spec fn mul_entry_ok<S: BaseNum>(a: Seq<Seq<int>>, b: Seq<Seq<int>>, i: int, j: int) -> bool {
    &&& in_rep::<S>(a[i][0] * b[0][j])
    &&& in_rep::<S>(a[i][1] * b[1][j])
    &&& in_rep::<S>(a[i][2] * b[2][j])
    &&& in_rep::<S>(a[i][3] * b[3][j])
    &&& in_rep::<S>(a[i][0] * b[0][j] + a[i][1] * b[1][j])
    &&& in_rep::<S>(a[i][0] * b[0][j] + a[i][1] * b[1][j] + a[i][2] * b[2][j])
    &&& in_rep::<S>(mul_entry(a, b, i, j))
}

/// Whether the whole product stays within the scalar's range.
pub open spec fn mat_mul_ok<S: BaseNum>(a: Seq<Seq<int>>, b: Seq<Seq<int>>) -> bool {
    forall|i: int, j: int| 0 <= i < 4 && 0 <= j < 4 ==> mul_entry_ok::<S>(a, b, i, j)
}

impl<S: BaseNum> View for Matrix4<S> {
    type V = Seq<Seq<int>>;

    open spec fn view(&self) -> Seq<Seq<int>> {
        seq![self.x@, self.y@, self.z@, self.w@]
    }
}

impl<S> Matrix4<S> {
    /// Construct a matrix from its four rows, first to last.
    pub fn from_rows(r0: Vector4<S>, r1: Vector4<S>, r2: Vector4<S>, r3: Vector4<S>) -> (r:
        Matrix4<S>)
        ensures
            r.x == r0,
            r.y == r1,
            r.z == r2,
            r.w == r3,
    {
        Matrix4 { x: r0, y: r1, z: r2, w: r3 }
    }
}

impl<S: BaseNum> Matrix4<S> {
    /// Row `i`, first row at 0.
    pub fn row(&self, i: usize) -> (r: Vector4<S>)
        requires
            i < 4,
        ensures
            r@ == self@[i as int],
    {
        if i == 0 {
            self.x
        } else if i == 1 {
            self.y
        } else if i == 2 {
            self.z
        } else {
            self.w
        }
    }

    /// The identity matrix.
    pub fn identity() -> (r: Matrix4<S>)
        ensures
            r@ == seq![
                seq![1int, 0int, 0int, 0int],
                seq![0int, 1int, 0int, 0int],
                seq![0int, 0int, 1int, 0int],
                seq![0int, 0int, 0int, 1int],
            ],
    {
        let o: S = S::one();
        let z: S = S::zero();
        let r = Matrix4 {
            x: Vector4::new(o, z, z, z),
            y: Vector4::new(z, o, z, z),
            z: Vector4::new(z, z, o, z),
            w: Vector4::new(z, z, z, o),
        };
        proof {
            assert(r@ =~~= seq![
                seq![1int, 0int, 0int, 0int],
                seq![0int, 1int, 0int, 0int],
                seq![0int, 0int, 1int, 0int],
                seq![0int, 0int, 0int, 1int],
            ]);
        }
        r
    }

    /// The matrix that displaces every point by `v`: the identity with `v`
    /// down the last column.
    pub fn translate(v: Vector3<S>) -> (r: Matrix4<S>)
        ensures
            r@ == seq![
                seq![1int, 0int, 0int, v@[0]],
                seq![0int, 1int, 0int, v@[1]],
                seq![0int, 0int, 1int, v@[2]],
                seq![0int, 0int, 0int, 1int],
            ],
    {
        let o: S = S::one();
        let z: S = S::zero();
        let r = Matrix4 {
            x: Vector4::new(o, z, z, v.x),
            y: Vector4::new(z, o, z, v.y),
            z: Vector4::new(z, z, o, v.z),
            w: Vector4::new(z, z, z, o),
        };
        proof {
            assert(r@ =~~= seq![
                seq![1int, 0int, 0int, v@[0]],
                seq![0int, 1int, 0int, v@[1]],
                seq![0int, 0int, 1int, v@[2]],
                seq![0int, 0int, 0int, 1int],
            ]);
        }
        r
    }

    /// The matrix that scales each axis by the matching component of `v`:
    /// the diagonal `v.x, v.y, v.z, 1`.
    pub fn scale(v: Vector3<S>) -> (r: Matrix4<S>)
        ensures
            r@ == seq![
                seq![v@[0], 0int, 0int, 0int],
                seq![0int, v@[1], 0int, 0int],
                seq![0int, 0int, v@[2], 0int],
                seq![0int, 0int, 0int, 1int],
            ],
    {
        let o: S = S::one();
        let z: S = S::zero();
        let r = Matrix4 {
            x: Vector4::new(v.x, z, z, z),
            y: Vector4::new(z, v.y, z, z),
            z: Vector4::new(z, z, v.z, z),
            w: Vector4::new(z, z, z, o),
        };
        proof {
            assert(r@ =~~= seq![
                seq![v@[0], 0int, 0int, 0int],
                seq![0int, v@[1], 0int, 0int],
                seq![0int, 0int, v@[2], 0int],
                seq![0int, 0int, 0int, 1int],
            ]);
        }
        r
    }

    /// The matrix that scales every axis by the one scalar: the diagonal
    /// `s, s, s, 1`.
    pub fn uniform_scale(scalar: S) -> (r: Matrix4<S>)
        ensures
            r@ == seq![
                seq![scalar.sval(), 0int, 0int, 0int],
                seq![0int, scalar.sval(), 0int, 0int],
                seq![0int, 0int, scalar.sval(), 0int],
                seq![0int, 0int, 0int, 1int],
            ],
    {
        let o: S = S::one();
        let z: S = S::zero();
        let r = Matrix4 {
            x: Vector4::new(scalar, z, z, z),
            y: Vector4::new(z, scalar, z, z),
            z: Vector4::new(z, z, scalar, z),
            w: Vector4::new(z, z, z, o),
        };
        proof {
            assert(r@ =~~= seq![
                seq![scalar.sval(), 0int, 0int, 0int],
                seq![0int, scalar.sval(), 0int, 0int],
                seq![0int, 0int, scalar.sval(), 0int],
                seq![0int, 0int, 0int, 1int],
            ]);
        }
        r
    }

    /// The matrix product `self * rhs`: composing the two transforms, with
    /// `rhs` applied first when points ride on the right.
    pub fn compose(&self, rhs: &Matrix4<S>) -> (r: Matrix4<S>)
        requires
            mat_mul_ok::<S>(self@, rhs@),
        ensures
            r@ == mat_mul_spec(self@, rhs@),
    {
        proof {
            assert(mul_entry_ok::<S>(self@, rhs@, 0, 0));
            assert(mul_entry_ok::<S>(self@, rhs@, 0, 1));
            assert(mul_entry_ok::<S>(self@, rhs@, 0, 2));
            assert(mul_entry_ok::<S>(self@, rhs@, 0, 3));
            assert(mul_entry_ok::<S>(self@, rhs@, 1, 0));
            assert(mul_entry_ok::<S>(self@, rhs@, 1, 1));
            assert(mul_entry_ok::<S>(self@, rhs@, 1, 2));
            assert(mul_entry_ok::<S>(self@, rhs@, 1, 3));
            assert(mul_entry_ok::<S>(self@, rhs@, 2, 0));
            assert(mul_entry_ok::<S>(self@, rhs@, 2, 1));
            assert(mul_entry_ok::<S>(self@, rhs@, 2, 2));
            assert(mul_entry_ok::<S>(self@, rhs@, 2, 3));
            assert(mul_entry_ok::<S>(self@, rhs@, 3, 0));
            assert(mul_entry_ok::<S>(self@, rhs@, 3, 1));
            assert(mul_entry_ok::<S>(self@, rhs@, 3, 2));
            assert(mul_entry_ok::<S>(self@, rhs@, 3, 3));
        }
        let e00: S = self.x.x.num_mul(rhs.x.x).num_add(self.x.y.num_mul(rhs.y.x)).num_add(self.x.z.num_mul(rhs.z.x)).num_add(self.x.w.num_mul(rhs.w.x));
        let e01: S = self.x.x.num_mul(rhs.x.y).num_add(self.x.y.num_mul(rhs.y.y)).num_add(self.x.z.num_mul(rhs.z.y)).num_add(self.x.w.num_mul(rhs.w.y));
        let e02: S = self.x.x.num_mul(rhs.x.z).num_add(self.x.y.num_mul(rhs.y.z)).num_add(self.x.z.num_mul(rhs.z.z)).num_add(self.x.w.num_mul(rhs.w.z));
        let e03: S = self.x.x.num_mul(rhs.x.w).num_add(self.x.y.num_mul(rhs.y.w)).num_add(self.x.z.num_mul(rhs.z.w)).num_add(self.x.w.num_mul(rhs.w.w));
        let e10: S = self.y.x.num_mul(rhs.x.x).num_add(self.y.y.num_mul(rhs.y.x)).num_add(self.y.z.num_mul(rhs.z.x)).num_add(self.y.w.num_mul(rhs.w.x));
        let e11: S = self.y.x.num_mul(rhs.x.y).num_add(self.y.y.num_mul(rhs.y.y)).num_add(self.y.z.num_mul(rhs.z.y)).num_add(self.y.w.num_mul(rhs.w.y));
        let e12: S = self.y.x.num_mul(rhs.x.z).num_add(self.y.y.num_mul(rhs.y.z)).num_add(self.y.z.num_mul(rhs.z.z)).num_add(self.y.w.num_mul(rhs.w.z));
        let e13: S = self.y.x.num_mul(rhs.x.w).num_add(self.y.y.num_mul(rhs.y.w)).num_add(self.y.z.num_mul(rhs.z.w)).num_add(self.y.w.num_mul(rhs.w.w));
        let e20: S = self.z.x.num_mul(rhs.x.x).num_add(self.z.y.num_mul(rhs.y.x)).num_add(self.z.z.num_mul(rhs.z.x)).num_add(self.z.w.num_mul(rhs.w.x));
        let e21: S = self.z.x.num_mul(rhs.x.y).num_add(self.z.y.num_mul(rhs.y.y)).num_add(self.z.z.num_mul(rhs.z.y)).num_add(self.z.w.num_mul(rhs.w.y));
        let e22: S = self.z.x.num_mul(rhs.x.z).num_add(self.z.y.num_mul(rhs.y.z)).num_add(self.z.z.num_mul(rhs.z.z)).num_add(self.z.w.num_mul(rhs.w.z));
        let e23: S = self.z.x.num_mul(rhs.x.w).num_add(self.z.y.num_mul(rhs.y.w)).num_add(self.z.z.num_mul(rhs.z.w)).num_add(self.z.w.num_mul(rhs.w.w));
        let e30: S = self.w.x.num_mul(rhs.x.x).num_add(self.w.y.num_mul(rhs.y.x)).num_add(self.w.z.num_mul(rhs.z.x)).num_add(self.w.w.num_mul(rhs.w.x));
        let e31: S = self.w.x.num_mul(rhs.x.y).num_add(self.w.y.num_mul(rhs.y.y)).num_add(self.w.z.num_mul(rhs.z.y)).num_add(self.w.w.num_mul(rhs.w.y));
        let e32: S = self.w.x.num_mul(rhs.x.z).num_add(self.w.y.num_mul(rhs.y.z)).num_add(self.w.z.num_mul(rhs.z.z)).num_add(self.w.w.num_mul(rhs.w.z));
        let e33: S = self.w.x.num_mul(rhs.x.w).num_add(self.w.y.num_mul(rhs.y.w)).num_add(self.w.z.num_mul(rhs.z.w)).num_add(self.w.w.num_mul(rhs.w.w));
        let r = Matrix4 {
            x: Vector4::new(e00, e01, e02, e03),
            y: Vector4::new(e10, e11, e12, e13),
            z: Vector4::new(e20, e21, e22, e23),
            w: Vector4::new(e30, e31, e32, e33),
        };
        proof {
            assert(r@ =~~= mat_mul_spec(self@, rhs@));
        }
        r
    }
}

} // verus!
