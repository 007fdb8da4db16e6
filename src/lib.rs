//! Fixed-size vectors, square matrices, quaternions and Euler angles for
//! real-time graphics, generic over the scalar type.
//!
//! Every operation is stated over the scalar's own operators: a contract says
//! which additions, subtractions, multiplications and divisions the result is
//! made of, in which order. It holds for a scalar type whose operators follow
//! vstd's operator specifications (`scalar::lawful`) and accept the operands
//! involved (the `*_ok` conditions: no overflow, for integers). The laws
//! between operations are stated for scalars with the ring identities
//! (`scalar::ring_identities`), which the 64-bit integers have exactly and
//! floating-point numbers up to rounding. Sines, cosines, square roots and
//! the like come from `num_traits::Float`; what they return is not modelled.

use vstd::prelude::*;

pub mod euler;
pub mod mat2;
pub mod mat3;
pub mod mat4;
pub mod quaternion;
pub mod scalar;
pub mod vec2;
pub mod vec3;
pub mod vec4;

pub use euler::Euler;
pub use mat2::Mat2;
pub use mat3::Mat3;
pub use mat4::Mat4;
pub use quaternion::Quaternion;
pub use scalar::FloatScalar;
pub use scalar::RealScalar;
pub use vec2::Vec2;
pub use vec3::Vec3;
pub use vec4::Vec4;
