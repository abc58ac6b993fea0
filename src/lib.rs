//! Command dispatch for managing a Rust project's dependencies from inside
//! an editor: a small command grammar, the decisions taken around running
//! the package manager, and the classification of what it prints.
pub mod dispatch;
pub mod grammar;
pub mod output;
pub mod text;
