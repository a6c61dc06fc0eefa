//! Decoding of MOS 6502 machine code: the opcode matrix, one-instruction
//! decoding from a byte window, and the standard assembly text of the result.
mod hex;
pub mod instruction;
pub mod laws;
pub mod listing;
pub mod opcode_table;
pub mod operand;

pub use instruction::{decode, Instruction};
pub use listing::decode_all;
pub use opcode_table::{AddressMode, Opcode};
pub use operand::Operand;
