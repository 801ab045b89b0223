pub mod color;
pub mod duration;
pub mod gradient;
