//! A fixed-capacity vector with inline storage for `Copy` elements.

mod block;
pub mod array_vec;
pub mod bulk;
pub mod codec;
pub mod compare;
pub mod debug;
pub mod laws;

pub use array_vec::CopyArrayVec;
pub use codec::LengthError;
