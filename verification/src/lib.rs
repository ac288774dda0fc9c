//! A low-dimensional linear algebra library, targeted at computer graphics.
//!
//! The library provides two parallel families of fixed-arity numeric tuple
//! types — displacement vectors ([`Vector1`] … [`Vector4`]) and surface
//! normals ([`Normal1`] … [`Normal4`]) — together with points, rays, a
//! row-major 4×4 matrix and the transform traits that tie them together.
//!
//! Every type is generic over a scalar implementing [`BaseNum`], the
//! numeric capability trait: a value that reads as a mathematical integer,
//! a representable range, and the four arithmetic operations with exact
//! contracts. Every operation on the tuples carries a contract that pins
//! its result down component by component over those integer values; the
//! mathematical model and the algebraic laws the operations obey live in
//! [`ops`].

pub mod scalar;
pub mod ops;
pub mod vector;
pub mod normal;
pub mod point;
pub mod ray;
pub mod matrix;
pub mod trans;

pub use scalar::BaseNum;
pub use vector::{Vector1, Vector2, Vector3, Vector4, vec1, vec2, vec3, vec4};
pub use normal::{Normal1, Normal2, Normal3, Normal4, norm1, norm2, norm3, norm4};
pub use point::{Point2, Point3};
pub use ray::{Ray2, Ray3};
pub use matrix::Matrix4;
pub use trans::{Transform, Transformation};
