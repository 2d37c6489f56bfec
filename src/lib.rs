//! Instruction-execution core of an SM83-family (Game Boy class) CPU:
//! the packed flags register, the register file with its 16-bit pair views,
//! the arithmetic/logic operations with their bit-exact flag effects, and the
//! dispatcher that runs a decoded instruction against a CPU.
pub mod flags;
pub mod registers;
pub mod memory;
pub mod alu;
pub mod instruction;
pub mod cpu;
pub mod laws;
