//! Concatenation of files, as a verified state machine: the decisions of a run
//! from its command-line arguments to the bytes it writes.

pub mod args;
pub mod buffer;
pub mod failure;
pub mod laws;
pub mod model;
pub mod run;
pub mod text;
pub mod usage;
pub mod world;
