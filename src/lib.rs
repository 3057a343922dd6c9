//! A small generic numerical kernel: scalar arithmetic, three-dimensional vector
//! algebra over it, affine positions and directions, and composite trapezoidal
//! integration of functions and sampled data.
pub mod math;
pub mod spatial;
pub mod integrate;
