//! Java/JNA declaration emitter: maps a resolved C-like interface description
//! onto Java source text that binds to a native library through JNA.
//!
//! Emitters in [`java_jna`] turn each declaration of [`ir`] into a sequence
//! of [`writer::Op`]s; [`writer::SourceWriter`] renders them with
//! indentation, brace blocks and line-length aware lists.

pub mod classes;
pub mod integer;
pub mod ir;
pub mod java_jna;
pub mod numbers;
pub mod ops;
pub mod types;
pub mod writer;
