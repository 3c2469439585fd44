//! A schema-to-code generator: reads a textual data definition describing
//! structs and enums, and emits equivalent declarations for one of a fixed
//! set of target languages.
//!
//! The pipeline is: [`lexer`] turns source text into tokens, [`parser`] turns
//! tokens into an abstract syntax tree, and [`compilation_target`] resolves a
//! target name to one of the code generation backends ([`cxx`], [`ts_mobx`]).

pub mod compilation_target;
pub mod cxx;
pub mod lexer;
pub mod parser;
pub mod ts_mobx;
