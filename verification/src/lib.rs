//! A verified core for a derive-style error-interface generator.
//!
//! Given the model of one annotated record type or tagged union, the crate
//! resolves which field plays which semantic role (causal source, backtrace
//! carrier, conversion source, promotion source) and synthesizes a structured
//! description of the capability implementations to emit: causal-source
//! accessor, backtrace accessor, display formatter, conversion constructors,
//! and a cross-type variant-promotion dispatch. A small evaluation semantics
//! states what the synthesized accessors return on abstract values, and the
//! laws module proves the intended behaviour against it.

pub mod ast;
pub mod eval;
pub mod expand;
pub mod laws;
pub mod prop;
