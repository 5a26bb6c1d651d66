//! Boilerplate-free tests for functions exposed from a compiled host crate to
//! an embedded Python interpreter.
//!
//! The engine is a two-stage pipeline on plain values. A parser turns the
//! payload of an import annotation (`binding: from module import function` or
//! `binding: import module`) into an [`directive::ImportDirective`]; the
//! extractor splits a test declaration's annotations into directives and
//! opaque passthrough annotations; the generator synthesizes the expanded
//! test body that registers each module, binds each imported function and
//! defines its call shorthand, and splices the original statements back in.
//! A companion expander turns a `with_py_raises`-style assertion into the
//! match construct that checks the raised exception's type.
//!
//! Every function here is specified against a mathematical model of its
//! input (sequences of tokens and characters) and the generated output is a
//! pure function of the input, so expanding the same declaration twice gives
//! byte-identical text.

pub mod directive;
pub mod extract;
pub mod generate;
pub mod raises;
pub mod registry;
pub mod render;
pub mod tokens;
