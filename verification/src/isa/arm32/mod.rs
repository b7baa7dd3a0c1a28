//! arm32 support.

pub mod registers;
