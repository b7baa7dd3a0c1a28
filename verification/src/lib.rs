//! Verified pieces of a code generator: the shared settings group, register descriptions,
//! binary instruction encoders and WebAssembly translation helpers.

pub mod constant_hash;
pub mod text;
pub mod settings;
pub mod shared_flags;
pub mod flags;
pub mod settings_laws;
pub mod isa;
pub mod predicates;
pub mod binemit;
pub mod ir;
pub mod wasm;
pub mod legalizer;
pub mod regalloc;
