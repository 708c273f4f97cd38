//! Decoder for the AArch64 Exception Syndrome Register.
//!
//! `decode` takes the 64-bit register value apart into named fields, says
//! what each of them means, and refuses values that break the rules of the
//! architecture. Every function is verified against a mathematical model
//! of what it returns; `laws` states what holds of every register value.

pub mod abort;
pub mod bits;
pub mod common;
pub mod esr;
pub mod field;
pub mod laws;
pub mod ldc;
pub mod mcr;
pub mod number;
pub mod report;
pub mod text;
pub mod wf;

pub use crate::esr::decode;
pub use crate::field::{DecodeError, Decoded, FieldInfo};
pub use crate::number::parse_number;
