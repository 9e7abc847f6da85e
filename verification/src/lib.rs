//! Integer primitives shared by the vector and matrix arithmetic routines.

pub mod math;

pub use math::cmid;
