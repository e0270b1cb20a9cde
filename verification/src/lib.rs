//! Compile-time synthesis of builder companion types.
//!
//! Given a structural description of a target type — an ordered list of named
//! fields, each with a declared type and optional metadata — this library
//! classifies every field as required, optional or accumulating, resolves the
//! per-field accumulator metadata, and emits a structured plan for the
//! companion builder: its storage slots, its setter and accumulator methods,
//! and its validated construction routine. A separate module gives the emitted
//! plan an executable meaning, so that the behaviour of a generated builder is
//! itself specified and proved.

pub mod classify;
pub mod descriptor;
pub mod resolve;
pub mod semantics;
pub mod synth;
