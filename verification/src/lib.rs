//! Dice rolling: a die with a fixed, positive number of faces, and a function
//! that rolls a batch of such dice and returns the individual results.

pub mod batch;
pub mod die;
mod entropy;

pub use batch::roll;
pub use die::Die;
pub use die::InvalidArgument;
