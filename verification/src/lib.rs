//! Decision core of the boolean GJK intersection test for convex hulls in
//! three-dimensional space.
//!
//! Coordinates are single-precision numbers held by their bit patterns, so
//! that every comparison the algorithm makes is a statement about integers.
//! The host evaluates the arithmetic (differences, dot and cross products)
//! and hands the measured values in; every choice the algorithm makes on
//! them (which hull vertex is farthest, when a separating direction has been
//! found, how the simplex shrinks, grows and terminates) is made here.

pub mod scalar;
pub mod vector;
pub mod support;
pub mod simplex;

pub use vector::Vec3;
