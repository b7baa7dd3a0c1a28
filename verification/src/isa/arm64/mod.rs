//! arm64 support.

pub mod registers;
