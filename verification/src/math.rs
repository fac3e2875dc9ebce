pub mod new;
pub mod ops;
pub mod vec;
