pub mod arithmetic;
pub mod geometry;
pub mod random;
pub mod trigonometry;
