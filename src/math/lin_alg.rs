pub mod matrix;
pub mod spatial_vector;
