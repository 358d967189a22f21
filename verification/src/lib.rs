//! A tree-walking interpreter for a small dynamically typed scripting
//! language with C-like syntax: variables, functions, closures, control
//! flow, and a partial class grammar.
//!
//! The pipeline is: source text -> [`scan::Scanner`] -> token sequence ->
//! [`parse::Parser`] -> syntax tree ([`ast::Program`]) -> [`evaluate::Interp`],
//! which walks the tree against a chain of scopes and collects the output of
//! `print` statements.
//!
//! Every phase is specified against a mathematical twin: the scanner, the
//! parser and the evaluator each come with a specification-level function,
//! and the executable code is proved to return exactly what the twin says.
//!
//! The numeric domain of the language is 64-bit signed integers. A numeric
//! literal may still carry fractional digits after a `.` (the scanner keeps
//! the full lexeme, so re-assembling lexemes reproduces the input), but the
//! value of the literal is its integer part, saturated to the `i64` range.

pub mod ast;

pub mod display;

pub mod environment;

pub mod evaluate;

pub mod object;

pub mod parse;

pub mod scan;


pub mod token;
