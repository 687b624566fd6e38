//! A streaming decoder for x86 / x86-64 machine code.
//!
//! The decoder pulls bytes from a [`source::ByteSource`] and turns each
//! instruction encoding — legacy, REX, VEX2, VEX3 or EVEX prefixed — into a
//! structured [`insn::Instruction`]: a mnemonic, up to four operands, and the
//! decoding side-channels (lock, mask, merge mode). Every stage of the
//! decoder is specified against a mathematical model of the byte stream and
//! verified against it.

pub mod buffer;
pub mod catalog;
pub mod decoding;
pub mod insn;
pub mod model;
pub mod regs;
pub mod source;

pub use insn::{
    BroadcastMode, Instruction, InstructionDecodingError, MergeMode, Mnemonic, Mode, Operand,
    OperandSize, RoundingMode,
};
pub use regs::{MaskReg, Reg, RegScale, RegType, SegmentReg};
pub use decoding::InstructionReader;
pub use source::ByteSource;
