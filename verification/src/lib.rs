//! Ownership-tracking wrapper around handles into a movable-memory heap,
//! with fallible text decoding of the referenced bytes under two encodings
//! (UTF-8 and a legacy multi-byte codepage).

pub mod codec;
pub mod gstr;
pub mod heap;

pub use crate::codec::encode_legacy;
pub use crate::codec::Utf8Fault;
pub use crate::gstr::GStr;
pub use crate::gstr::GStrError;
pub use crate::heap::GlobalHeap;
