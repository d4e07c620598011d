//! A compile-time translator for a compact, HTML-like templating
//! mini-language.
//!
//! The library is a two-stage pipeline.  The parser turns a pre-tokenized
//! input stream into an abstract syntax tree: leading configuration
//! directives followed by one root block of statements.  The emitter lowers
//! that tree into a call tree against a generic markup-builder entry point:
//! one fragment-producing expression per block, with the block's leading
//! `let` bindings re-emitted ahead of it.  Embedded expressions and patterns
//! are never interpreted, only captured verbatim with their source positions
//! and re-emitted.

pub mod ast;
pub mod emit;
pub mod laws;
pub mod parse;
pub mod token;
