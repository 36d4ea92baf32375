//! Core of a fixed 16-bit-instruction virtual machine: processor, memory,
//! call stack, framebuffer, key state and timer pair, with a verified
//! fetch-decode-execute step and an independent timer step.

pub mod laws;
pub mod machine;
pub mod semantics;
