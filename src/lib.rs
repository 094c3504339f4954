//! A small stack-based bytecode engine over one flat, byte-addressable memory.
//!
//! Programs are raw bytes in linear memory: one-byte opcodes, four of which (BR, BRZ,
//! CALLI, I32_CONST) carry a 4-byte little-endian operand. Values live on a parameter
//! stack and return addresses on a return stack, both kept in the same memory.
pub mod codec;
pub mod machine;
pub mod opcode;
pub mod step;
pub mod vm;

pub use machine::Machine;
pub use step::{Result, VmError, FALSE, TRUE};
pub use vm::{UnknownOpHandler, VmFn, VM};
