//! Schema-driven declaration generator.
//!
//! Given a decoded metadata descriptor — a registry of type definitions that
//! reference each other by numeric identifier, plus a list of remote modules
//! with callable actions and emitted events — this crate resolves every type
//! reference (generic parameters, composites, tagged unions, sequences,
//! fixed-size arrays, tuples and primitives) into a concrete type expression
//! and emits an abstract declaration tree. A separate renderer turns that
//! tree into target-language source text.

pub mod decls;
pub mod fold;
pub mod generate_runtime;
pub mod generate_types;
pub mod metadata;
pub mod names;
