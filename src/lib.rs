//! An interpreter for a 16-bit word-oriented virtual machine: 32768 words of
//! memory, eight registers, an unbounded stack and an input queue that lets a
//! run pause when it needs input and resume later.
pub mod laws;
pub mod loader;
pub mod machine;
