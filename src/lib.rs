//! A virtual machine for the bytecode form of the META II metacompiler.
//!
//! A compiled program image is loaded once, the source text is held as a
//! byte cursor, and the machine steps through the opcodes, collecting the
//! translated text. Every opcode's effect is stated by [`machine::step_model`]
//! over [`machine::MachineModel`], and the executable machine is proved to
//! follow it.
pub mod bytes;
pub mod opcode;
pub mod cursor;
pub mod stack;
pub mod machine;
pub mod laws;
