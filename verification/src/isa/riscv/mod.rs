//! RISC-V support.

pub mod binemit;
pub mod registers;
pub mod enc_tables;
