//! Instruction interpreter core of an 8-bit Game Boy class CPU: register
//! file, memory bus, decoder, execution units and the fetch-decode-execute
//! driver, each with a contract over plain mathematical values.

pub mod registers;
pub mod memory;
pub mod instructions;
pub mod instructions_execution;
pub mod cpu;
