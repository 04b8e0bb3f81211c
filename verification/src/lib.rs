//! A small compiler for declarative error taxonomies: it parses textual
//! definitions of error kinds and error types and emits Rust source for
//! constants and type definitions that follow a uniform error contract.

pub mod details;
pub mod emit;
pub mod instance;
pub mod interop;
pub mod lexer;
pub mod model;
pub mod parse;
pub mod numeral;
pub mod token;
