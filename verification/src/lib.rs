//! Instruction-set definition and binary decoder for a 16-bit, register-based
//! educational processor.
//!
//! The crate has two layers. The bit-field engine ([`bits`], [`set_bits`])
//! reads or rewrites an inclusive run of bits inside a 16-bit word. On top of
//! it, the instruction table ([`Instruction`], [`descriptor_table`]) pairs each
//! instruction with a fixed-bit pattern and a significance mask, and
//! [`Instruction::get_instruction`] classifies a raw word by scanning that
//! table in declared order.

pub mod bitfield;
pub mod instruction;

pub use bitfield::{bits, set_bits, BitRange};
pub use instruction::{Descriptor, Instruction, InvalidInstruction};
