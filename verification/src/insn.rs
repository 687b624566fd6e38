//! The decoder's output model: processor modes, operand sizes, mnemonics,
//! operands, decoded instructions, and the decoding errors.

use vstd::prelude::*;

use crate::regs::{MaskReg, Reg, RegScale, SegmentReg};

verus! {

/// Processor mode: decides default operand/address sizes and which prefixes
/// are legal (REX is long-mode only).
#[derive(Clone, Copy, Debug, PartialEq, Eq)]
pub enum Mode {
    Real,
    Protected,
    Long,
}

impl Mode {
    /// The mode whose default operand size is the given size: 16-bit for
    /// real mode, 32-bit for protected mode, 64-bit for long mode.
    pub open spec fn spec_from_size(size: OperandSize) -> Option<Mode> {
        match size {
            OperandSize::Word => Some(Mode::Real),
            OperandSize::Dword => Some(Mode::Protected),
            OperandSize::Qword => Some(Mode::Long),
            _ => None,
        }
    }

    pub fn from_size(size: OperandSize) -> (r: Option<Mode>)
        ensures
            r == Mode::spec_from_size(size),
    {
        match size {
            OperandSize::Word => Some(Mode::Real),
            OperandSize::Dword => Some(Mode::Protected),
            OperandSize::Qword => Some(Mode::Long),
            _ => None,
        }
    }
}

/// Width of an operand or of a memory access. `Unsized` marks memory
/// references on which the opcode imposes no width.
#[derive(Clone, Copy, Debug, PartialEq, Eq)]
pub enum OperandSize {
    Unsized,
    Byte,
    Word,
    Dword,
    Fword,
    Qword,
    Tbyte,
    Dqword,
    Qqword,
    Dqqword,
}

/// Instruction mnemonics known to the built-in catalogue.
#[derive(Clone, Copy, Debug, PartialEq, Eq)]
pub enum Mnemonic {
    ADD,
    DEC,
    FCMOVE,
    INC,
    JMP,
    KANDB,
    KORQ,
    KXNORQ,
    MOV,
    XSAVEC,
}

/// EVEX merge semantics, from the `z` bit of the third EVEX payload byte.
#[derive(Clone, Copy, Debug, PartialEq, Eq)]
pub enum MergeMode {
    Merge,
    Zero,
}

/// AVX-512 static rounding override.
#[derive(Clone, Copy, Debug, PartialEq, Eq)]
pub enum RoundingMode {
    Nearest,
    Down,
    Up,
    Zero,
}

/// AVX-512 memory broadcast form.
#[derive(Clone, Copy, Debug, PartialEq, Eq)]
pub enum BroadcastMode {
    Broadcast1To2,
    Broadcast1To4,
    Broadcast1To8,
    Broadcast1To16,
    Broadcast1To32,
    Broadcast1To64,
}

/// A decoded operand. Displacements and absolute addresses are kept as the
/// little-endian value of the bytes that encoded them.
#[derive(Clone, Copy, Debug, PartialEq, Eq)]
pub enum Operand {
    /// A register operand.
    Direct(Reg),
    /// An immediate of the given width.
    Literal8(u8),
    Literal16(u16),
    Literal32(u32),
    Literal64(u64),
    /// An absolute memory reference.
    Memory(u64, Option<OperandSize>, Option<SegmentReg>),
    /// A RIP-relative reference (long mode only).
    Offset(u64, Option<OperandSize>, Option<SegmentReg>),
    /// `[base]`.
    Indirect(Reg, Option<OperandSize>, Option<SegmentReg>),
    /// `[base + disp]`.
    IndirectDisplaced(Reg, u64, Option<OperandSize>, Option<SegmentReg>),
    /// `[base + index*scale]`.
    IndirectScaledIndexed(Reg, Reg, RegScale, Option<OperandSize>, Option<SegmentReg>),
    /// `[base + index*scale + disp]`.
    IndirectScaledIndexedDisplaced(Reg, Reg, RegScale, u64, Option<OperandSize>, Option<SegmentReg>),
    /// `[index*scale + disp]`.
    IndirectScaledDisplaced(Reg, RegScale, u64, Option<OperandSize>, Option<SegmentReg>),
    /// A far pointer `segment:offset16`.
    MemoryAndSegment16(u16, u16),
    /// A far pointer `segment:offset32`.
    MemoryAndSegment32(u16, u32),
}

/// A decoded instruction: mnemonic, up to four operands filled in order (a
/// trailing `None` ends the list), and the prefix side-channels.
#[derive(Clone, Copy, Debug, PartialEq, Eq)]
pub struct Instruction {
    pub mnemonic: Mnemonic,
    pub operand1: Option<Operand>,
    pub operand2: Option<Operand>,
    pub operand3: Option<Operand>,
    pub operand4: Option<Operand>,
    pub lock: bool,
    pub rounding_mode: Option<RoundingMode>,
    pub merge_mode: Option<MergeMode>,
    pub sae: bool,
    pub mask: Option<MaskReg>,
    pub broadcast: Option<BroadcastMode>,
}

/// The five terminal decoding errors.
#[derive(Clone, Copy, Debug, PartialEq, Eq)]
pub enum InstructionDecodingError {
    /// The stream ended cleanly between instructions: the first peek of a
    /// `read` saw the end of the source.
    EndOfStream,
    /// The stream ended after at least one byte of the current instruction
    /// had been consumed.
    PartialInstruction,
    /// The underlying source reported an error.
    ReadError,
    /// The encoding is structurally impossible: bad VEX/EVEX map select,
    /// REX combined with VEX/EVEX, or a register code invalid for the
    /// computed size.
    InvalidInstruction,
    /// The catalogue has no matching definition, even after an
    /// opcode-extension lookup.
    UnknownOpcode,
}

} // verus!
