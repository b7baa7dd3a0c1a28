//! x86 support.

pub mod binemit;
pub mod laws;
pub mod recipes;
