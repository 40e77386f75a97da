//! A compiler for a declarative finite-state-machine language.
//!
//! A machine description names its states, the data each state carries, the
//! events that move an instance from one state to the next, and which states
//! an instance may start in.  The compiler parses that description, derives a
//! semantic model from it, and emits a strongly-typed runtime API: one type
//! per state, transition operations attached only to the states that declare
//! them, lifecycle hooks, and persistence procedures that rebuild a live
//! instance from a stored state tag plus encoded payloads.

pub mod ast;
pub mod lexer;
pub mod parser;
pub mod semantics;
pub mod runtime;
pub mod codegen;

pub use codegen::statemachine;
