//! Per-module rendering for a bundler: every binding, reference, import,
//! export and `require` site of a linked module is turned into positional
//! edits on the module's text buffer.

pub mod ast;
pub mod buffer;
pub mod checked;
pub mod graph;
pub mod interop;
pub mod laws;
pub mod names;
pub mod namespace;
pub mod renderer;
pub mod resolver;
pub mod snippets;
