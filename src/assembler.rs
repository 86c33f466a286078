//! Assembles statements into a 64 KiB image in two passes: the first emits
//! code and notes where labels are used, the second writes their addresses in.
pub mod assemble;
pub mod code;
pub mod laws;
pub mod model;
pub mod types;
