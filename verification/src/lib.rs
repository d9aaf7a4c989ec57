//! A signature-driven foreign-binding generator.
//!
//! Given a declarative list of function signatures in a high-level type
//! vocabulary, the library classifies every parameter into an ABI-conversion
//! category, emits one foreign-call declaration and one wrapper description
//! per signature, and gives the emitted wrappers an exact runtime meaning:
//! how arguments are marshalled into low-level values, how transient buffers
//! are held alive across the call, and how the raw foreign result is turned
//! into a success/failure outcome.

pub mod classify;
pub mod dxlib_error;
pub mod emit;
pub mod exprs;
pub mod marshal;
pub mod types;
pub mod utils;
