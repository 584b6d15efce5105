//! A minimal stack-based bytecode virtual machine: a compact instruction
//! container (`Chunk`), a diagnostic disassembler, and a fetch-decode-execute
//! engine that evaluates arithmetic expressions over double-precision values.

pub mod chunk;
pub mod debug;
pub mod memory;
pub mod value;
pub mod vm;
