//! Instruction set architectures: register descriptions and binary emitters.

pub mod registers;
pub mod arm32;
pub mod arm64;
pub mod riscv;
pub mod x86;
