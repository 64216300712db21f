//! A small turtle-graphics language: a tokenizer, a prefix-notation expression
//! evaluator, a statement interpreter with variables and procedures, and the
//! turtle that the statements drive.
//!
//! A program is a text. `logo_interpreter` runs it statement by statement on
//! a turtle of `logo_runner`; `semantics` says what every expression and
//! statement means, and the interpreter is proved to do exactly that; `laws`
//! holds what follows for every program and every turtle.

pub mod error;
pub mod keywords;
pub mod laws;
pub mod logo_interpreter;
pub mod logo_runner;
pub mod scanner;
pub mod semantics;
pub mod table;
pub mod text;
