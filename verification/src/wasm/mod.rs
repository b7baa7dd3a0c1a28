//! Helpers for translating WebAssembly into the intermediate representation.

pub mod translation_utils;
