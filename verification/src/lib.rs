//! A small-dimension geometric-algebra kernel: vectors, bivectors and rotors
//! in two and three dimensions, over signed 16.16 fixed-point scalars.
//!
//! Every quantity is an `i64` counting steps of `1 / fixed::SCALE`, so the
//! whole rotor algebra (products, sandwich rotation, matrix conversion) is
//! exact integer polynomial arithmetic, and its algebraic laws are stated
//! and proved over those polynomials.

pub mod bivec2;
pub mod bivec3;
pub mod bivector;
pub mod fixed;
pub mod mat2;
pub mod mat3;
pub mod mat4;
pub mod rotor;
pub mod rotor2;
pub mod rotor3;
pub mod vec2;
pub mod vec3;
pub mod vec4;
pub mod vector;
