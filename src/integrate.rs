pub mod one_d;
