//! Instruction codec and execution core of a small register machine.
//!
//! An encoded instruction is two driver bytes, an optional registers byte and
//! an optional little-endian immediate of 1, 2, 4 or 8 bytes.

pub mod encoding;
pub mod number;
pub mod driver;
pub mod operation;
pub mod operand;
pub mod storage;
pub mod stream;
pub mod instruction;
pub mod memory;
pub mod processor;
