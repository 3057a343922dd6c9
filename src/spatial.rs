pub mod affinity;
pub mod direction;
pub mod position;
pub mod vector_3d;
