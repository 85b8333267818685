//! Serialization into a vector of bytes whose capacity is fixed at compile
//! time and which lives on the stack.

pub mod byte_vec;
mod error;
pub mod flavor;
pub mod laws;
pub mod model;
pub mod ser;

pub use byte_vec::ByteVec;
pub use flavor::HVec;
pub use ser::to_vec;
