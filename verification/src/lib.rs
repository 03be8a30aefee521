//! A lexical scanner for a small expression language, with the syntax tree,
//! the evaluator and the interactive session of that language.
//!
//! The scanner turns a buffer of characters into positioned tokens on demand.
//! Its behaviour is stated twice: as a character-driven state machine
//! ([`machine`]) and as a grammar over the input text ([`grammar`]). The
//! scanner in [`token`] feeds the machine from a cursor ([`cursor`]) and is
//! proved to yield what the grammar describes; [`laws`] holds what follows
//! for every input, and [`render`] the diagnostic text of tokens and errors.
//!
//! The evaluator ([`interpreter`]) walks a syntax tree ([`ast`]) over an
//! environment of variables, and the session ([`repl`]) decides what an
//! interactive loop does with each line and each answer of its parser.

pub mod ast;
pub mod cursor;
pub mod grammar;
pub mod interpreter;
pub mod laws;
pub mod machine;
pub mod render;
pub mod repl;
pub mod text;
pub mod token;
