//! The scratch record one in-progress decode accumulates its fields in.

use vstd::prelude::*;

use crate::insn::MergeMode;
use crate::regs::SegmentReg;

verus! {

/// Group-1 legacy prefixes.
#[derive(Clone, Copy, Debug, PartialEq, Eq)]
pub enum Prefix1 {
    Lock,
    Rep,
    RepNE,
}

/// Group-2 legacy prefixes: segment overrides and branch hints. The hint
/// bytes share their encodings with CS/DS overrides, which win during
/// classification, so the hint variants are never produced by the decoder.
#[derive(Clone, Copy, Debug, PartialEq, Eq)]
pub enum Prefix2 {
    CS,
    SS,
    DS,
    ES,
    FS,
    GS,
    BranchTaken,
    BranchNotTaken,
}

/// Which composite prefix the instruction carries; at most one is ever set.
#[derive(Clone, Copy, Debug, PartialEq, Eq)]
pub enum CompositePrefix {
    Rex,
    Vex,
    Evex,
}

/// The decoding buffer: every field one instruction's prefixes, opcode
/// bytes, ModR/M and SIB contribute. `mod_rm_reg`, `mod_rm_rm`, `sib_index`
/// and `sib_base` carry their REX/VEX/EVEX extension bits already merged in.
/// `operand_size_64` holds the W bit, from REX, VEX3 or EVEX. For EVEX,
/// `vex_l` holds the low L bit and `vex_e` the high L' bit of the vector
/// length, and `vex_operand` includes the V' extension.
#[derive(Clone, Copy, Debug, PartialEq, Eq)]
pub struct InstructionBuffer {
    pub prefix1: Option<Prefix1>,
    pub prefix2: Option<Prefix2>,
    pub operand_size_prefix: bool,
    pub address_size_prefix: bool,
    pub is_two_byte_opcode: bool,
    pub composite_prefix: Option<CompositePrefix>,
    pub fixed_prefix: Option<u8>,
    pub primary_opcode: u8,
    pub secondary_opcode: Option<u8>,
    pub mod_rm_mod: Option<u8>,
    pub mod_rm_reg: Option<u8>,
    pub mod_rm_rm: Option<u8>,
    pub sib_scale: Option<u8>,
    pub sib_index: Option<u8>,
    pub sib_base: Option<u8>,
    pub vex_operand: Option<u8>,
    pub vex_l: Option<bool>,
    pub vex_e: Option<bool>,
    pub vex_b: Option<bool>,
    pub operand_size_64: bool,
    pub merge_mode: Option<MergeMode>,
    pub mask_reg: Option<u8>,
}

impl InstructionBuffer {
    /// The empty buffer a `read` starts from. A `primary_opcode` of zero
    /// means "not yet set": the VEX/EVEX map-select fields latch 0x38 or
    /// 0x3A here before the opcode byte arrives.
    pub open spec fn spec_empty() -> InstructionBuffer {
        InstructionBuffer {
            prefix1: None,
            prefix2: None,
            operand_size_prefix: false,
            address_size_prefix: false,
            is_two_byte_opcode: false,
            composite_prefix: None,
            fixed_prefix: None,
            primary_opcode: 0,
            secondary_opcode: None,
            mod_rm_mod: None,
            mod_rm_reg: None,
            mod_rm_rm: None,
            sib_scale: None,
            sib_index: None,
            sib_base: None,
            vex_operand: None,
            vex_l: None,
            vex_e: None,
            vex_b: None,
            operand_size_64: false,
            merge_mode: None,
            mask_reg: None,
        }
    }

    pub fn empty() -> (r: InstructionBuffer)
        ensures
            r == InstructionBuffer::spec_empty(),
    {
        InstructionBuffer {
            prefix1: None,
            prefix2: None,
            operand_size_prefix: false,
            address_size_prefix: false,
            is_two_byte_opcode: false,
            composite_prefix: None,
            fixed_prefix: None,
            primary_opcode: 0,
            secondary_opcode: None,
            mod_rm_mod: None,
            mod_rm_reg: None,
            mod_rm_rm: None,
            sib_scale: None,
            sib_index: None,
            sib_base: None,
            vex_operand: None,
            vex_l: None,
            vex_e: None,
            vex_b: None,
            operand_size_64: false,
            merge_mode: None,
            mask_reg: None,
        }
    }

    /// The segment override recorded on memory operands: the segment named
    /// by the group-2 prefix, if one was seen.
    pub open spec fn spec_segment_reg(self) -> Option<SegmentReg> {
        match self.prefix2 {
            Some(Prefix2::CS) => Some(SegmentReg::CS),
            Some(Prefix2::SS) => Some(SegmentReg::SS),
            Some(Prefix2::DS) => Some(SegmentReg::DS),
            Some(Prefix2::ES) => Some(SegmentReg::ES),
            Some(Prefix2::FS) => Some(SegmentReg::FS),
            Some(Prefix2::GS) => Some(SegmentReg::GS),
            _ => None,
        }
    }

    pub fn get_segment_reg(&self) -> (r: Option<SegmentReg>)
        ensures
            r == self.spec_segment_reg(),
    {
        match self.prefix2 {
            Some(Prefix2::CS) => Some(SegmentReg::CS),
            Some(Prefix2::SS) => Some(SegmentReg::SS),
            Some(Prefix2::DS) => Some(SegmentReg::DS),
            Some(Prefix2::ES) => Some(SegmentReg::ES),
            Some(Prefix2::FS) => Some(SegmentReg::FS),
            Some(Prefix2::GS) => Some(SegmentReg::GS),
            _ => None,
        }
    }

    /// Whether a REX prefix was seen.
    pub open spec fn spec_has_rex(self) -> bool {
        self.composite_prefix == Some(CompositePrefix::Rex)
    }
}

} // verus!
