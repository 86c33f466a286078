//! Turns one source line into a statement: a label definition, an instruction
//! or a directive.
pub mod arguments;
pub mod helpers;
pub mod lines;
pub mod types;
