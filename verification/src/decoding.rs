//! The executable decoder, verified against the model in [`crate::model`].

use vstd::prelude::*;

use crate::buffer::{CompositePrefix, InstructionBuffer, Prefix1, Prefix2};
use crate::catalog::{
    find_instruction_def_by_opcode, FindInstructionDefByOpcodeError, FixedOperand,
    InstructionDefinition, OperandDefinition, OperandEncoding, OperandType,
};
use crate::insn::{Instruction, InstructionDecodingError, MergeMode, Mode, Operand, OperandSize};
use crate::model::{
    lemma_prefix_step_shrinks, spec_address_size, spec_assemble, spec_has_mod_rm, spec_le16,
    spec_evex_acc, spec_evex_step, spec_le32, spec_le64, spec_prefix_step, spec_rex_acc,
    spec_vex2_acc, spec_vex2_step, spec_vex3_acc, spec_vex3_step,
    spec_operand, spec_operand_size, spec_operands, spec_prefixes, spec_read, spec_resolve,
    spec_resolve_lookup, spec_rm, spec_rm16_combine, spec_rm16_operand, spec_rm_reg_type,
    spec_scale_above_one,
    spec_sib, spec_sized_accumulator, spec_slot_uses_mod_rm, OperandResult, OperandsResult,
    PrefixAcc, PrefixResult, PrefixStep, ReadResult, ResolveResult,
};
use crate::regs::{MaskReg, Reg, RegScale, RegType, SegmentReg};
use crate::source::{lemma_skip_skip, stream_end_error, ByteSource};

verus! {

/// What one executed step of the prefix loop produced: an updated prefix
/// state, or the opcode byte that ends the loop.
enum PrefixProgress {
    Continue(PrefixAcc),
    Opcode(PrefixAcc, u8),
}

/// A streaming instruction decoder over a byte source, for one processor
/// mode. Each call to [`InstructionReader::read`] consumes exactly one
/// instruction from the source.
pub struct InstructionReader {
    source: ByteSource,
    mode: Mode,
}

impl InstructionReader {
    /// The source cursor is in bounds.
    pub closed spec fn wf(self) -> bool {
        self.source.wf()
    }

    /// The bytes not yet consumed.
    pub closed spec fn remaining(self) -> Seq<u8> {
        self.source.remaining()
    }

    /// Whether the source ends in a read error.
    pub closed spec fn fails(self) -> bool {
        self.source.fails()
    }

    /// The processor mode the reader decodes for.
    pub closed spec fn decoding_mode(self) -> Mode {
        self.mode
    }

    /// A reader over the given source, decoding for the given mode.
    pub fn new(source: ByteSource, mode: Mode) -> (r: InstructionReader)
        requires
            source.wf(),
        ensures
            r.wf(),
            r.remaining() == source.remaining(),
            r.fails() == source.fails(),
            r.decoding_mode() == mode,
    {
        InstructionReader { source, mode }
    }

    /// Consume one byte, or report how the stream ends.
    fn expect_byte(&mut self) -> (r: Result<u8, InstructionDecodingError>)
        requires
            old(self).wf(),
        ensures
            final(self).wf(),
            final(self).fails() == old(self).fails(),
            final(self).decoding_mode() == old(self).decoding_mode(),
            ({
                let s = old(self).remaining();
                if s.len() > 0 {
                    r == Ok::<u8, InstructionDecodingError>(s[0]) && final(self).remaining()
                        == s.skip(1)
                } else {
                    r == Err::<u8, InstructionDecodingError>(stream_end_error(old(self).fails()))
                        && final(self).remaining() == s
                }
            }),
    {
        self.source.expect_byte()
    }

    /// Read a 16-bit little-endian displacement.
    fn read_disp16(&mut self) -> (r: Result<u16, InstructionDecodingError>)
        requires
            old(self).wf(),
        ensures
            final(self).wf(),
            final(self).fails() == old(self).fails(),
            final(self).decoding_mode() == old(self).decoding_mode(),
            ({
                let s = old(self).remaining();
                if s.len() >= 2 {
                    r == Ok::<u16, InstructionDecodingError>(spec_le16(s[0], s[1]))
                        && final(self).remaining() == s.skip(2)
                } else {
                    r == Err::<u16, InstructionDecodingError>(stream_end_error(old(self).fails()))
                        && final(self).remaining() == s.skip(s.len() as int)
                }
            }),
    {
        let ghost s = self.remaining();
        let b0 = match self.expect_byte() {
            Ok(b) => b,
            Err(e) => {
                proof {
                    assert(s.skip(0) =~= s);
                }
                return Err(e);
            },
        };
        let b1 = match self.expect_byte() {
            Ok(b) => b,
            Err(e) => {
                return Err(e);
            },
        };
        proof {
            lemma_skip_skip(s, 1, 1);
        }
        Ok((b0 as u16) | ((b1 as u16) << 8))
    }

    /// Read a 32-bit little-endian displacement.
    fn read_disp32(&mut self) -> (r: Result<u32, InstructionDecodingError>)
        requires
            old(self).wf(),
        ensures
            final(self).wf(),
            final(self).fails() == old(self).fails(),
            final(self).decoding_mode() == old(self).decoding_mode(),
            ({
                let s = old(self).remaining();
                if s.len() >= 4 {
                    r == Ok::<u32, InstructionDecodingError>(spec_le32(s[0], s[1], s[2], s[3]))
                        && final(self).remaining() == s.skip(4)
                } else {
                    r == Err::<u32, InstructionDecodingError>(stream_end_error(old(self).fails()))
                        && final(self).remaining() == s.skip(s.len() as int)
                }
            }),
    {
        let ghost s = self.remaining();
        let b0 = match self.expect_byte() {
            Ok(b) => b,
            Err(e) => {
                proof {
                    assert(s.skip(0) =~= s);
                }
                return Err(e);
            },
        };
        let b1 = match self.expect_byte() {
            Ok(b) => b,
            Err(e) => {
                return Err(e);
            },
        };
        let b2 = match self.expect_byte() {
            Ok(b) => b,
            Err(e) => {
                proof {
                    lemma_skip_skip(s, 1, 1);
                }
                return Err(e);
            },
        };
        let b3 = match self.expect_byte() {
            Ok(b) => b,
            Err(e) => {
                proof {
                    lemma_skip_skip(s, 1, 1);
                    lemma_skip_skip(s, 2, 1);
                }
                return Err(e);
            },
        };
        proof {
            lemma_skip_skip(s, 1, 1);
            lemma_skip_skip(s, 2, 1);
            lemma_skip_skip(s, 3, 1);
        }
        Ok((b0 as u32) | ((b1 as u32) << 8) | ((b2 as u32) << 16) | ((b3 as u32) << 24))
    }

    /// Read a 64-bit little-endian displacement.
    fn read_disp64(&mut self) -> (r: Result<u64, InstructionDecodingError>)
        requires
            old(self).wf(),
        ensures
            final(self).wf(),
            final(self).fails() == old(self).fails(),
            final(self).decoding_mode() == old(self).decoding_mode(),
            ({
                let s = old(self).remaining();
                if s.len() >= 8 {
                    r == Ok::<u64, InstructionDecodingError>(
                        spec_le64(s[0], s[1], s[2], s[3], s[4], s[5], s[6], s[7]),
                    ) && final(self).remaining() == s.skip(8)
                } else {
                    r == Err::<u64, InstructionDecodingError>(stream_end_error(old(self).fails()))
                        && final(self).remaining() == s.skip(s.len() as int)
                }
            }),
    {
        let ghost s = self.remaining();
        let b0 = match self.expect_byte() {
            Ok(b) => b,
            Err(e) => {
                proof {
                    assert(s.skip(0) =~= s);
                }
                return Err(e);
            },
        };
        let b1 = match self.expect_byte() {
            Ok(b) => b,
            Err(e) => {
                return Err(e);
            },
        };
        let b2 = match self.expect_byte() {
            Ok(b) => b,
            Err(e) => {
                proof {
                    lemma_skip_skip(s, 1, 1);
                }
                return Err(e);
            },
        };
        let b3 = match self.expect_byte() {
            Ok(b) => b,
            Err(e) => {
                proof {
                    lemma_skip_skip(s, 1, 1);
                    lemma_skip_skip(s, 2, 1);
                }
                return Err(e);
            },
        };
        let b4 = match self.expect_byte() {
            Ok(b) => b,
            Err(e) => {
                proof {
                    lemma_skip_skip(s, 1, 1);
                    lemma_skip_skip(s, 2, 1);
                    lemma_skip_skip(s, 3, 1);
                }
                return Err(e);
            },
        };
        let b5 = match self.expect_byte() {
            Ok(b) => b,
            Err(e) => {
                proof {
                    lemma_skip_skip(s, 1, 1);
                    lemma_skip_skip(s, 2, 1);
                    lemma_skip_skip(s, 3, 1);
                    lemma_skip_skip(s, 4, 1);
                }
                return Err(e);
            },
        };
        let b6 = match self.expect_byte() {
            Ok(b) => b,
            Err(e) => {
                proof {
                    lemma_skip_skip(s, 1, 1);
                    lemma_skip_skip(s, 2, 1);
                    lemma_skip_skip(s, 3, 1);
                    lemma_skip_skip(s, 4, 1);
                    lemma_skip_skip(s, 5, 1);
                }
                return Err(e);
            },
        };
        let b7 = match self.expect_byte() {
            Ok(b) => b,
            Err(e) => {
                proof {
                    lemma_skip_skip(s, 1, 1);
                    lemma_skip_skip(s, 2, 1);
                    lemma_skip_skip(s, 3, 1);
                    lemma_skip_skip(s, 4, 1);
                    lemma_skip_skip(s, 5, 1);
                    lemma_skip_skip(s, 6, 1);
                }
                return Err(e);
            },
        };
        proof {
            lemma_skip_skip(s, 1, 1);
            lemma_skip_skip(s, 2, 1);
            lemma_skip_skip(s, 3, 1);
            lemma_skip_skip(s, 4, 1);
            lemma_skip_skip(s, 5, 1);
            lemma_skip_skip(s, 6, 1);
            lemma_skip_skip(s, 7, 1);
        }
        Ok(
            (b0 as u64) | ((b1 as u64) << 8) | ((b2 as u64) << 16) | ((b3 as u64) << 24) | (
            (b4 as u64) << 32) | ((b5 as u64) << 40) | ((b6 as u64) << 48) | ((b7 as u64) << 56),
        )
    }

    /// The address size in the current mode, after the 0x67 prefix.
    fn get_address_size(mode: Mode, buffer: &InstructionBuffer) -> (r: OperandSize)
        ensures
            r == spec_address_size(mode, buffer.address_size_prefix),
    {
        match mode {
            Mode::Real => if buffer.address_size_prefix {
                OperandSize::Dword
            } else {
                OperandSize::Word
            },
            Mode::Protected => if buffer.address_size_prefix {
                OperandSize::Word
            } else {
                OperandSize::Dword
            },
            Mode::Long => if buffer.address_size_prefix {
                OperandSize::Dword
            } else {
                OperandSize::Qword
            },
        }
    }

    /// The operand size a slot decodes under.
    fn get_operand_size(mode: Mode, op_def: &OperandDefinition, buffer: &InstructionBuffer) -> (r:
        OperandSize)
        ensures
            r == spec_operand_size(mode, *op_def, *buffer),
    {
        match op_def.size {
            crate::catalog::NominalSize::Fixed(s) => s,
            crate::catalog::NominalSize::Natural => if buffer.operand_size_64 {
                OperandSize::Qword
            } else {
                match mode {
                    Mode::Real => if buffer.operand_size_prefix {
                        OperandSize::Dword
                    } else {
                        OperandSize::Word
                    },
                    Mode::Protected => if buffer.operand_size_prefix {
                        OperandSize::Word
                    } else {
                        OperandSize::Dword
                    },
                    Mode::Long => if buffer.operand_size_prefix {
                        OperandSize::Word
                    } else {
                        OperandSize::Dword
                    },
                }
            },
            crate::catalog::NominalSize::Vector => if matches!(
                buffer.composite_prefix,
                Some(CompositePrefix::Evex),
            ) && matches!(buffer.vex_e, Some(true)) {
                OperandSize::Dqqword
            } else if matches!(buffer.vex_l, Some(true)) {
                OperandSize::Qqword
            } else {
                OperandSize::Dqword
            },
        }
    }

    /// Whether a definition makes the instruction carry a ModR/M byte.
    fn has_mod_rm(def: &InstructionDefinition) -> (r: bool)
        ensures
            r == spec_has_mod_rm(*def),
    {
        def.opcode_ext.is_some() || Self::slot_uses_mod_rm(&def.operand1)
            || Self::slot_uses_mod_rm(&def.operand2) || Self::slot_uses_mod_rm(&def.operand3)
            || Self::slot_uses_mod_rm(&def.operand4)
    }

    /// Whether one slot's encoding asks for a ModR/M byte.
    fn slot_uses_mod_rm(od: &Option<OperandDefinition>) -> (r: bool)
        ensures
            r == spec_slot_uses_mod_rm(*od),
    {
        match od {
            Some(od) => matches!(
                od.encoding,
                OperandEncoding::ModRmReg | OperandEncoding::ModRmRm | OperandEncoding::Mib,
            ),
            None => false,
        }
    }

    /// The accumulator at the given operand size.
    fn get_sized_a(size: OperandSize) -> (r: Option<Reg>)
        ensures
            r == spec_sized_accumulator(size),
    {
        match size {
            OperandSize::Word => Some(Reg::AX),
            OperandSize::Dword => Some(Reg::EAX),
            OperandSize::Qword => Some(Reg::RAX),
            _ => None,
        }
    }

    /// Whether the buffer records a REX prefix.
    pub fn has_rex(buffer: &InstructionBuffer) -> (r: bool)
        ensures
            r == buffer.spec_has_rex(),
    {
        matches!(buffer.composite_prefix, Some(CompositePrefix::Rex))
    }

    /// Whether an operand scales an index by more than 1.
    fn scale_above_one(op: &Operand) -> (r: bool)
        ensures
            r == spec_scale_above_one(*op),
    {
        match op {
            Operand::IndirectScaledIndexed(_, _, scale, _, _) => !matches!(scale, RegScale::One),
            Operand::IndirectScaledIndexedDisplaced(_, _, scale, _, _, _) => !matches!(
                scale,
                RegScale::One,
            ),
            Operand::IndirectScaledDisplaced(_, scale, _, _, _) => !matches!(scale, RegScale::One),
            _ => false,
        }
    }

    /// The 16-bit table's combination step.
    fn rm16_combine(
        reg1: Option<Reg>,
        reg2: Option<Reg>,
        disp: Option<u64>,
        size: OperandSize,
        segment: Option<SegmentReg>,
    ) -> (r: Option<Operand>)
        ensures
            r == spec_rm16_combine(reg1, reg2, disp, size, segment),
    {
        match (reg1, reg2, disp) {
            (None, None, Some(addr)) => Some(Operand::Memory(addr, Some(size), segment)),
            (Some(r1), None, None) => Some(Operand::Indirect(r1, Some(size), segment)),
            (Some(r1), None, Some(d)) => Some(
                Operand::IndirectDisplaced(r1, d, Some(size), segment),
            ),
            (Some(r1), Some(r2), None) => Some(
                Operand::IndirectScaledIndexed(r1, r2, RegScale::One, Some(size), segment),
            ),
            (Some(r1), Some(r2), Some(d)) => Some(
                Operand::IndirectScaledIndexedDisplaced(
                    r1,
                    r2,
                    RegScale::One,
                    d,
                    Some(size),
                    segment,
                ),
            ),
            _ => None,
        }
    }

    /// The classic 16-bit base-pair table.
    fn rm16_operand(
        rm: u8,
        md: u8,
        disp: Option<u64>,
        size: OperandSize,
        segment: Option<SegmentReg>,
    ) -> (r: Option<Operand>)
        ensures
            r == spec_rm16_operand(rm, md, disp, size, segment),
    {
        match rm {
            0 => Self::rm16_combine(Some(Reg::BX), Some(Reg::SI), disp, size, segment),
            1 => Self::rm16_combine(Some(Reg::BX), Some(Reg::DI), disp, size, segment),
            2 => Self::rm16_combine(Some(Reg::BP), Some(Reg::SI), disp, size, segment),
            3 => Self::rm16_combine(Some(Reg::BP), Some(Reg::DI), disp, size, segment),
            4 => Self::rm16_combine(Some(Reg::SI), None, disp, size, segment),
            5 => Self::rm16_combine(Some(Reg::DI), None, disp, size, segment),
            6 => if md == 0 {
                Self::rm16_combine(None, None, disp, size, segment)
            } else {
                Self::rm16_combine(Some(Reg::BP), None, disp, size, segment)
            },
            7 => Self::rm16_combine(Some(Reg::BX), None, disp, size, segment),
            _ => None,
        }
    }

    /// Read a 16-bit far pointer: offset first, then segment.
    fn read_memory_and_segment_16(&mut self) -> (r: Result<Operand, InstructionDecodingError>)
        requires
            old(self).wf(),
        ensures
            final(self).wf(),
            final(self).fails() == old(self).fails(),
            final(self).decoding_mode() == old(self).decoding_mode(),
            ({
                let s = old(self).remaining();
                if s.len() >= 4 {
                    r == Ok::<Operand, InstructionDecodingError>(
                        Operand::MemoryAndSegment16(spec_le16(s[2], s[3]), spec_le16(s[0], s[1])),
                    ) && final(self).remaining() == s.skip(4)
                } else {
                    r == Err::<Operand, InstructionDecodingError>(
                        stream_end_error(old(self).fails()),
                    ) && final(self).remaining() == s.skip(s.len() as int)
                }
            }),
    {
        let ghost s = self.remaining();
        let addr = match self.read_disp16() {
            Ok(v) => v,
            Err(e) => {
                return Err(e);
            },
        };
        let segment = match self.read_disp16() {
            Ok(v) => v,
            Err(e) => {
                proof {
                    lemma_skip_skip(s, 2, s.len() - 2);
                }
                return Err(e);
            },
        };
        proof {
            lemma_skip_skip(s, 2, 2);
        }
        Ok(Operand::MemoryAndSegment16(segment, addr))
    }

    /// Read a 32-bit far pointer: offset first, then segment.
    fn read_memory_and_segment_32(&mut self) -> (r: Result<Operand, InstructionDecodingError>)
        requires
            old(self).wf(),
        ensures
            final(self).wf(),
            final(self).fails() == old(self).fails(),
            final(self).decoding_mode() == old(self).decoding_mode(),
            ({
                let s = old(self).remaining();
                if s.len() >= 6 {
                    r == Ok::<Operand, InstructionDecodingError>(
                        Operand::MemoryAndSegment32(
                            spec_le16(s[4], s[5]),
                            spec_le32(s[0], s[1], s[2], s[3]),
                        ),
                    ) && final(self).remaining() == s.skip(6)
                } else {
                    r == Err::<Operand, InstructionDecodingError>(
                        stream_end_error(old(self).fails()),
                    ) && final(self).remaining() == s.skip(s.len() as int)
                }
            }),
    {
        let ghost s = self.remaining();
        let addr = match self.read_disp32() {
            Ok(v) => v,
            Err(e) => {
                return Err(e);
            },
        };
        let segment = match self.read_disp16() {
            Ok(v) => v,
            Err(e) => {
                proof {
                    lemma_skip_skip(s, 4, s.len() - 4);
                }
                return Err(e);
            },
        };
        proof {
            lemma_skip_skip(s, 4, 2);
        }
        Ok(Operand::MemoryAndSegment32(segment, addr))
    }

    /// The SIB sub-machine: convert scale, index and base, then build the
    /// operand the mod field and the SIB edge cases call for.
    fn sib_helper(
        &mut self,
        buffer: &InstructionBuffer,
        op_def: &OperandDefinition,
        md: u8,
    ) -> (r: Result<Operand, InstructionDecodingError>)
        requires
            old(self).wf(),
        ensures
            final(self).wf(),
            final(self).fails() == old(self).fails(),
            final(self).decoding_mode() == old(self).decoding_mode(),
            ({
                match spec_sib(
                    old(self).decoding_mode(),
                    *op_def,
                    *buffer,
                    md,
                    old(self).remaining(),
                    old(self).fails(),
                ) {
                    OperandResult::Got { op, rest } => r == Ok::<Operand, InstructionDecodingError>(
                        op,
                    ) && final(self).remaining() == rest,
                    OperandResult::Fail { err, rest } => r == Err::<
                        Operand,
                        InstructionDecodingError,
                    >(err) && final(self).remaining() == rest,
                }
            }),
    {
        let has_rex = Self::has_rex(buffer);
        let addr_size = Self::get_address_size(self.mode, buffer);
        let size = Self::get_operand_size(self.mode, op_def, buffer);
        let segment = buffer.get_segment_reg();
        let (scale_code, index_code, base_code) = match (
            buffer.sib_scale,
            buffer.sib_index,
            buffer.sib_base,
        ) {
            (Some(sc), Some(ic), Some(bc)) => (sc, ic, bc),
            _ => {
                return Err(InstructionDecodingError::InvalidInstruction);
            },
        };
        let scale = match RegScale::from_sib_code(scale_code) {
            Some(v) => v,
            None => {
                return Err(InstructionDecodingError::InvalidInstruction);
            },
        };
        let index = match Reg::from_code_general_sized(index_code, has_rex, addr_size) {
            Some(v) => v,
            None => {
                return Err(InstructionDecodingError::InvalidInstruction);
            },
        };
        let base = match Reg::from_code_general_sized(base_code, has_rex, addr_size) {
            Some(v) => v,
            None => {
                return Err(InstructionDecodingError::InvalidInstruction);
            },
        };
        if md == 0 {
            if base_code & 0x7 == 5 {
                let d = match self.read_disp32() {
                    Ok(v) => v,
                    Err(e) => {
                        return Err(e);
                    },
                };
                if index_code == 4 {
                    Ok(Operand::Memory(d as u64, Some(size), segment))
                } else {
                    Ok(Operand::IndirectScaledDisplaced(index, scale, d as u64, Some(size), segment))
                }
            } else {
                if index_code == 4 {
                    Ok(Operand::Indirect(base, Some(size), segment))
                } else {
                    Ok(Operand::IndirectScaledIndexed(base, index, scale, Some(size), segment))
                }
            }
        } else if md == 1 {
            let d = match self.expect_byte() {
                Ok(v) => v,
                Err(e) => {
                    proof {
                        assert(old(self).remaining().skip(0) =~= old(self).remaining());
                    }
                    return Err(e);
                },
            };
            if index_code == 4 {
                Ok(Operand::IndirectDisplaced(base, d as u64, Some(size), segment))
            } else {
                Ok(
                    Operand::IndirectScaledIndexedDisplaced(
                        base,
                        index,
                        scale,
                        d as u64,
                        Some(size),
                        segment,
                    ),
                )
            }
        } else if md == 2 {
            let d = match self.read_disp32() {
                Ok(v) => v,
                Err(e) => {
                    return Err(e);
                },
            };
            if index_code == 4 {
                Ok(Operand::IndirectDisplaced(base, d as u64, Some(size), segment))
            } else {
                Ok(
                    Operand::IndirectScaledIndexedDisplaced(
                        base,
                        index,
                        scale,
                        d as u64,
                        Some(size),
                        segment,
                    ),
                )
            }
        } else {
            Err(InstructionDecodingError::InvalidInstruction)
        }
    }

    /// The r/m addressing sub-machine: a direct register under `mod == 11`,
    /// the 16-bit table under 16-bit addressing, and base/SIB/displacement
    /// forms otherwise.
    fn rm_helper(
        &mut self,
        buffer: &InstructionBuffer,
        op_def: &OperandDefinition,
        reg_type: RegType,
    ) -> (r: Result<Operand, InstructionDecodingError>)
        requires
            old(self).wf(),
        ensures
            final(self).wf(),
            final(self).fails() == old(self).fails(),
            final(self).decoding_mode() == old(self).decoding_mode(),
            ({
                match spec_rm(
                    old(self).decoding_mode(),
                    reg_type,
                    *op_def,
                    *buffer,
                    old(self).remaining(),
                    old(self).fails(),
                ) {
                    OperandResult::Got { op, rest } => r == Ok::<Operand, InstructionDecodingError>(
                        op,
                    ) && final(self).remaining() == rest,
                    OperandResult::Fail { err, rest } => r == Err::<
                        Operand,
                        InstructionDecodingError,
                    >(err) && final(self).remaining() == rest,
                }
            }),
    {
        let has_rex = Self::has_rex(buffer);
        let addr_size = Self::get_address_size(self.mode, buffer);
        let size = Self::get_operand_size(self.mode, op_def, buffer);
        let segment = buffer.get_segment_reg();
        let (rm, md) = match (buffer.mod_rm_rm, buffer.mod_rm_mod) {
            (Some(rm), Some(md)) => (rm, md),
            _ => {
                return Err(InstructionDecodingError::InvalidInstruction);
            },
        };
        if matches!(addr_size, OperandSize::Word) {
            if md == 3 {
                match Reg::from_code_reg_type(rm, reg_type, size) {
                    Some(r) => Ok(Operand::Direct(r)),
                    None => Err(InstructionDecodingError::InvalidInstruction),
                }
            } else if md == 0 && rm != 6 {
                match Self::rm16_operand(rm, md, None, size, segment) {
                    Some(op) => Ok(op),
                    None => Err(InstructionDecodingError::InvalidInstruction),
                }
            } else if md == 1 {
                let d = match self.expect_byte() {
                    Ok(v) => v,
                    Err(e) => {
                        return Err(e);
                    },
                };
                match Self::rm16_operand(rm, md, Some(d as u64), size, segment) {
                    Some(op) => Ok(op),
                    None => Err(InstructionDecodingError::InvalidInstruction),
                }
            } else if md == 0 || md == 2 {
                let d = match self.read_disp16() {
                    Ok(v) => v,
                    Err(e) => {
                        return Err(e);
                    },
                };
                match Self::rm16_operand(rm, md, Some(d as u64), size, segment) {
                    Some(op) => Ok(op),
                    None => Err(InstructionDecodingError::InvalidInstruction),
                }
            } else {
                Err(InstructionDecodingError::InvalidInstruction)
            }
        } else {
            if md == 0 {
                if rm & 0x7 == 4 {
                    self.sib_helper(buffer, op_def, md)
                } else if rm & 0x7 == 5 {
                    let d = match self.read_disp32() {
                        Ok(v) => v,
                        Err(e) => {
                            return Err(e);
                        },
                    };
                    if matches!(addr_size, OperandSize::Dword) {
                        Ok(Operand::Memory(d as u64, Some(size), segment))
                    } else {
                        Ok(Operand::Offset(d as u64, Some(size), segment))
                    }
                } else {
                    match Reg::from_code_general_sized(rm, has_rex, addr_size) {
                        Some(base) => Ok(Operand::Indirect(base, Some(size), segment)),
                        None => Err(InstructionDecodingError::InvalidInstruction),
                    }
                }
            } else if md == 1 {
                if rm & 0x7 == 4 {
                    self.sib_helper(buffer, op_def, md)
                } else {
                    let base = match Reg::from_code_general_sized(rm, has_rex, addr_size) {
                        Some(v) => v,
                        None => {
                            return Err(InstructionDecodingError::InvalidInstruction);
                        },
                    };
                    let d = match self.expect_byte() {
                        Ok(v) => v,
                        Err(e) => {
                            return Err(e);
                        },
                    };
                    Ok(Operand::IndirectDisplaced(base, d as u64, Some(size), segment))
                }
            } else if md == 2 {
                if rm & 0x7 == 4 {
                    self.sib_helper(buffer, op_def, md)
                } else {
                    let base = match Reg::from_code_general_sized(rm, has_rex, addr_size) {
                        Some(v) => v,
                        None => {
                            return Err(InstructionDecodingError::InvalidInstruction);
                        },
                    };
                    let d = match self.read_disp32() {
                        Ok(v) => v,
                        Err(e) => {
                            return Err(e);
                        },
                    };
                    Ok(Operand::IndirectDisplaced(base, d as u64, Some(size), segment))
                }
            } else if md == 3 {
                match Reg::from_code_reg_type(rm, reg_type, size) {
                    Some(r) => Ok(Operand::Direct(r)),
                    None => Err(InstructionDecodingError::InvalidInstruction),
                }
            } else {
                Err(InstructionDecodingError::InvalidInstruction)
            }
        }
    }

    /// The register kind the r/m sub-machine converts direct registers
    /// under.
    fn rm_reg_type(op_def: &OperandDefinition) -> (r: RegType)
        ensures
            r == spec_rm_reg_type(*op_def),
    {
        match op_def.op_type {
            OperandType::Reg(rt) => rt,
            _ => RegType::General,
        }
    }

    /// Decode one operand slot, as its encoding and kind direct.
    fn read_operand(
        &mut self,
        op_def: &OperandDefinition,
        buffer: &InstructionBuffer,
        b_ext: u8,
    ) -> (r: Result<Operand, InstructionDecodingError>)
        requires
            old(self).wf(),
        ensures
            final(self).wf(),
            final(self).fails() == old(self).fails(),
            final(self).decoding_mode() == old(self).decoding_mode(),
            ({
                match spec_operand(
                    old(self).decoding_mode(),
                    *op_def,
                    *buffer,
                    b_ext,
                    old(self).remaining(),
                    old(self).fails(),
                ) {
                    OperandResult::Got { op, rest } => r == Ok::<Operand, InstructionDecodingError>(
                        op,
                    ) && final(self).remaining() == rest,
                    OperandResult::Fail { err, rest } => r == Err::<
                        Operand,
                        InstructionDecodingError,
                    >(err) && final(self).remaining() == rest,
                }
            }),
    {
        let size = Self::get_operand_size(self.mode, op_def, buffer);
        let addr_size = Self::get_address_size(self.mode, buffer);
        let segment = buffer.get_segment_reg();
        match op_def.encoding {
            OperandEncoding::ModRmReg => match op_def.op_type {
                OperandType::Reg(rt) => match buffer.mod_rm_reg {
                    Some(code) => match Reg::from_code_reg_type(code, rt, size) {
                        Some(r) => Ok(Operand::Direct(r)),
                        None => Err(InstructionDecodingError::InvalidInstruction),
                    },
                    None => Err(InstructionDecodingError::InvalidInstruction),
                },
                _ => Err(InstructionDecodingError::InvalidInstruction),
            },
            OperandEncoding::ModRmRm => {
                let rt = Self::rm_reg_type(op_def);
                self.rm_helper(buffer, op_def, rt)
            },
            OperandEncoding::Mib => {
                let rt = Self::rm_reg_type(op_def);
                match self.rm_helper(buffer, op_def, rt) {
                    Ok(op) => if Self::scale_above_one(&op) {
                        Err(InstructionDecodingError::InvalidInstruction)
                    } else {
                        Ok(op)
                    },
                    Err(e) => Err(e),
                }
            },
            OperandEncoding::Vex => match op_def.op_type {
                OperandType::Reg(rt) => match buffer.vex_operand {
                    Some(code) => match Reg::from_code_reg_type(code, rt, size) {
                        Some(r) => Ok(Operand::Direct(r)),
                        None => Err(InstructionDecodingError::InvalidInstruction),
                    },
                    None => Err(InstructionDecodingError::InvalidInstruction),
                },
                _ => Err(InstructionDecodingError::InvalidInstruction),
            },
            OperandEncoding::Imm => match op_def.op_type {
                OperandType::Reg(rt) => {
                    let code = match self.expect_byte() {
                        Ok(v) => v,
                        Err(e) => {
                            return Err(e);
                        },
                    };
                    match Reg::from_code_reg_type(code, rt, size) {
                        Some(r) => Ok(Operand::Direct(r)),
                        None => Err(InstructionDecodingError::InvalidInstruction),
                    }
                },
                OperandType::Imm => match size {
                    OperandSize::Byte => match self.expect_byte() {
                        Ok(v) => Ok(Operand::Literal8(v)),
                        Err(e) => Err(e),
                    },
                    OperandSize::Word => match self.read_disp16() {
                        Ok(v) => Ok(Operand::Literal16(v)),
                        Err(e) => Err(e),
                    },
                    OperandSize::Dword => match self.read_disp32() {
                        Ok(v) => Ok(Operand::Literal32(v)),
                        Err(e) => Err(e),
                    },
                    OperandSize::Qword => match self.read_disp64() {
                        Ok(v) => Ok(Operand::Literal64(v)),
                        Err(e) => Err(e),
                    },
                    _ => Err(InstructionDecodingError::InvalidInstruction),
                },
                OperandType::FarPointer => if matches!(size, OperandSize::Word) {
                    self.read_memory_and_segment_16()
                } else if matches!(size, OperandSize::Dword) {
                    self.read_memory_and_segment_32()
                } else {
                    Err(InstructionDecodingError::InvalidInstruction)
                },
                _ => Err(InstructionDecodingError::InvalidInstruction),
            },
            OperandEncoding::OpcodeAddend => match op_def.op_type {
                OperandType::Reg(rt) => match Reg::from_code_reg_type(
                    (buffer.primary_opcode & 0x7) | b_ext,
                    rt,
                    size,
                ) {
                    Some(r) => Ok(Operand::Direct(r)),
                    None => Err(InstructionDecodingError::InvalidInstruction),
                },
                _ => Err(InstructionDecodingError::InvalidInstruction),
            },
            OperandEncoding::Offset => match addr_size {
                OperandSize::Word => match self.read_disp16() {
                    Ok(v) => Ok(Operand::Memory(v as u64, Some(size), segment)),
                    Err(e) => Err(e),
                },
                OperandSize::Dword => match self.read_disp32() {
                    Ok(v) => Ok(Operand::Memory(v as u64, Some(size), segment)),
                    Err(e) => Err(e),
                },
                OperandSize::Qword => match self.read_disp64() {
                    Ok(v) => Ok(Operand::Memory(v, Some(size), segment)),
                    Err(e) => Err(e),
                },
                _ => Err(InstructionDecodingError::InvalidInstruction),
            },
            OperandEncoding::Fixed => match op_def.op_type {
                OperandType::Fixed(FixedOperand::Reg(r)) => Ok(Operand::Direct(r)),
                OperandType::Fixed(FixedOperand::Constant(v)) => match size {
                    OperandSize::Unsized => Ok(Operand::Literal8((v & 0xFF) as u8)),
                    OperandSize::Byte => Ok(Operand::Literal8((v & 0xFF) as u8)),
                    OperandSize::Word => Ok(Operand::Literal16((v & 0xFFFF) as u16)),
                    OperandSize::Dword => Ok(Operand::Literal32(v)),
                    OperandSize::Qword => Ok(Operand::Literal64(v as u64)),
                    _ => Err(InstructionDecodingError::InvalidInstruction),
                },
                OperandType::Fixed(FixedOperand::AccumulatorSized) => match Self::get_sized_a(
                    size,
                ) {
                    Some(r) => Ok(Operand::Direct(r)),
                    None => Err(InstructionDecodingError::InvalidInstruction),
                },
                _ => Err(InstructionDecodingError::InvalidInstruction),
            },
        }
    }

    /// Decode every operand slot the definition declares, in order.
    fn read_operands(
        &mut self,
        def: &InstructionDefinition,
        buffer: &InstructionBuffer,
        b_ext: u8,
    ) -> (r: Result<
        (Option<Operand>, Option<Operand>, Option<Operand>, Option<Operand>),
        InstructionDecodingError,
    >)
        requires
            old(self).wf(),
        ensures
            final(self).wf(),
            final(self).fails() == old(self).fails(),
            final(self).decoding_mode() == old(self).decoding_mode(),
            ({
                match spec_operands(
                    old(self).decoding_mode(),
                    *def,
                    *buffer,
                    b_ext,
                    old(self).remaining(),
                    old(self).fails(),
                ) {
                    OperandsResult::Done { op1, op2, op3, op4, rest } => r == Ok::<
                        (Option<Operand>, Option<Operand>, Option<Operand>, Option<Operand>),
                        InstructionDecodingError,
                    >((op1, op2, op3, op4)) && final(self).remaining() == rest,
                    OperandsResult::Fail { err, rest } => r == Err::<
                        (Option<Operand>, Option<Operand>, Option<Operand>, Option<Operand>),
                        InstructionDecodingError,
                    >(err) && final(self).remaining() == rest,
                }
            }),
    {
        let od1 = match def.operand1 {
            None => {
                return Ok((None, None, None, None));
            },
            Some(od) => od,
        };
        let o1 = match self.read_operand(&od1, buffer, b_ext) {
            Ok(op) => op,
            Err(e) => {
                return Err(e);
            },
        };
        let od2 = match def.operand2 {
            None => {
                return Ok((Some(o1), None, None, None));
            },
            Some(od) => od,
        };
        let o2 = match self.read_operand(&od2, buffer, b_ext) {
            Ok(op) => op,
            Err(e) => {
                return Err(e);
            },
        };
        let od3 = match def.operand3 {
            None => {
                return Ok((Some(o1), Some(o2), None, None));
            },
            Some(od) => od,
        };
        let o3 = match self.read_operand(&od3, buffer, b_ext) {
            Ok(op) => op,
            Err(e) => {
                return Err(e);
            },
        };
        let od4 = match def.operand4 {
            None => {
                return Ok((Some(o1), Some(o2), Some(o3), None));
            },
            Some(od) => od,
        };
        let o4 = match self.read_operand(&od4, buffer, b_ext) {
            Ok(op) => op,
            Err(e) => {
                return Err(e);
            },
        };
        Ok((Some(o1), Some(o2), Some(o3), Some(o4)))
    }

    /// Assemble the decoded instruction from the definition, the buffer's
    /// side-channels and the operands.
    fn assemble(
        def: &InstructionDefinition,
        buffer: &InstructionBuffer,
        op1: Option<Operand>,
        op2: Option<Operand>,
        op3: Option<Operand>,
        op4: Option<Operand>,
    ) -> (r: Instruction)
        ensures
            r == spec_assemble(*def, *buffer, op1, op2, op3, op4),
    {
        Instruction {
            mnemonic: def.mnemonic,
            operand1: op1,
            operand2: op2,
            operand3: op3,
            operand4: op4,
            lock: matches!(buffer.prefix1, Some(Prefix1::Lock)),
            rounding_mode: None,
            merge_mode: buffer.merge_mode,
            sae: false,
            mask: match buffer.mask_reg {
                Some(k) => MaskReg::from_code(k),
                None => None,
            },
            broadcast: None,
        }
    }

    /// Look the opcode up; read ModR/M and SIB if called for, merging the
    /// extension bits; retry the lookup with the opcode extension when the
    /// catalogue asks for one.
    fn resolve_lookup(
        &mut self,
        acc: PrefixAcc,
        buffer: InstructionBuffer,
    ) -> (r: Result<(InstructionBuffer, InstructionDefinition), InstructionDecodingError>)
        requires
            old(self).wf(),
        ensures
            final(self).wf(),
            final(self).fails() == old(self).fails(),
            final(self).decoding_mode() == old(self).decoding_mode(),
            ({
                match spec_resolve_lookup(
                    old(self).decoding_mode(),
                    acc,
                    buffer,
                    old(self).remaining(),
                    old(self).fails(),
                ) {
                    ResolveResult::Resolved { buffer: b2, b_ext, def, rest } => r == Ok::<
                        (InstructionBuffer, InstructionDefinition),
                        InstructionDecodingError,
                    >((b2, def)) && final(self).remaining() == rest && b_ext == acc.b_ext,
                    ResolveResult::Fail { err, rest } => r == Err::<
                        (InstructionBuffer, InstructionDefinition),
                        InstructionDecodingError,
                    >(err) && final(self).remaining() == rest,
                }
            }),
    {
        let ghost s = self.remaining();
        let first = find_instruction_def_by_opcode(
            buffer.is_two_byte_opcode,
            buffer.primary_opcode,
            buffer.secondary_opcode,
            None,
            self.mode,
        );
        let need_mod_rm = match &first {
            Ok(def) => Self::has_mod_rm(def),
            Err(e) => matches!(e, FindInstructionDefByOpcodeError::NeedOpcodeExt),
        };
        if !need_mod_rm {
            return match first {
                Ok(def) => Ok((buffer, def)),
                Err(_) => Err(InstructionDecodingError::UnknownOpcode),
            };
        }
        let m = match self.expect_byte() {
            Ok(v) => v,
            Err(e) => {
                return Err(e);
            },
        };
        let md = m >> 6;
        let reg = ((m >> 3) & 0x7) | acc.reg_ext;
        let rm_raw = m & 0x7;
        let buffer2 = InstructionBuffer {
            mod_rm_mod: Some(md),
            mod_rm_reg: Some(reg),
            mod_rm_rm: Some(rm_raw),
            ..buffer
        };
        let addr_size = Self::get_address_size(self.mode, &buffer2);
        let buffer3 = if !matches!(addr_size, OperandSize::Word) && md != 3 && rm_raw == 4 {
            let sb = match self.expect_byte() {
                Ok(v) => v,
                Err(e) => {
                    return Err(e);
                },
            };
            proof {
                lemma_skip_skip(s, 1, 1);
            }
            InstructionBuffer {
                sib_scale: Some(sb >> 6),
                sib_index: Some(((sb >> 3) & 0x7) | acc.index_ext),
                sib_base: Some((sb & 0x7) | acc.b_ext),
                ..buffer2
            }
        } else {
            InstructionBuffer { mod_rm_rm: Some(rm_raw | acc.b_ext), ..buffer2 }
        };
        match first {
            Ok(def) => Ok((buffer3, def)),
            Err(_) => match find_instruction_def_by_opcode(
                buffer3.is_two_byte_opcode,
                buffer3.primary_opcode,
                buffer3.secondary_opcode,
                Some(reg),
                self.mode,
            ) {
                Ok(def) => Ok((buffer3, def)),
                Err(_) => Err(InstructionDecodingError::UnknownOpcode),
            },
        }
    }

    /// Place the terminating byte of the prefix stage as the primary or
    /// secondary opcode, read the second opcode byte of a legacy-style
    /// 0x38/0x3A map, and resolve against the catalogue.
    fn resolve_def(
        &mut self,
        acc: PrefixAcc,
        opcode: u8,
    ) -> (r: Result<(InstructionBuffer, InstructionDefinition), InstructionDecodingError>)
        requires
            old(self).wf(),
        ensures
            final(self).wf(),
            final(self).fails() == old(self).fails(),
            final(self).decoding_mode() == old(self).decoding_mode(),
            ({
                match spec_resolve(
                    old(self).decoding_mode(),
                    acc,
                    opcode,
                    old(self).remaining(),
                    old(self).fails(),
                ) {
                    ResolveResult::Resolved { buffer, b_ext, def, rest } => r == Ok::<
                        (InstructionBuffer, InstructionDefinition),
                        InstructionDecodingError,
                    >((buffer, def)) && final(self).remaining() == rest && b_ext == acc.b_ext,
                    ResolveResult::Fail { err, rest } => r == Err::<
                        (InstructionBuffer, InstructionDefinition),
                        InstructionDecodingError,
                    >(err) && final(self).remaining() == rest,
                }
            }),
    {
        let buffer1 = if acc.buffer.primary_opcode == 0 {
            InstructionBuffer { primary_opcode: opcode, ..acc.buffer }
        } else {
            InstructionBuffer { secondary_opcode: Some(opcode), ..acc.buffer }
        };
        if (buffer1.primary_opcode == 0x38 || buffer1.primary_opcode == 0x3A)
            && buffer1.secondary_opcode.is_none() {
            let b = match self.expect_byte() {
                Ok(v) => v,
                Err(e) => {
                    return Err(e);
                },
            };
            let buffer2 = InstructionBuffer { secondary_opcode: Some(b), ..buffer1 };
            self.resolve_lookup(acc, buffer2)
        } else {
            self.resolve_lookup(acc, buffer1)
        }
    }

    /// The prefix state after a two-byte VEX payload byte.
    fn vex2_acc(mode: Mode, acc: PrefixAcc, data: u8) -> (r: PrefixAcc)
        ensures
            r == spec_vex2_acc(mode, acc, data),
    {
        PrefixAcc {
            buffer: InstructionBuffer {
                composite_prefix: Some(CompositePrefix::Vex),
                is_two_byte_opcode: true,
                vex_operand: Some(((!data) >> 3) & 0xF),
                vex_l: Some(data & 0x04 != 0),
                operand_size_prefix: if data & 0x3 == 0x1 {
                    true
                } else {
                    acc.buffer.operand_size_prefix
                },
                fixed_prefix: if data & 0x3 == 0x2 {
                    Some(0xF3u8)
                } else if data & 0x3 == 0x3 {
                    Some(0xF2u8)
                } else {
                    acc.buffer.fixed_prefix
                },
                ..acc.buffer
            },
            reg_ext: if data & 0x80 != 0 || !matches!(mode, Mode::Long) {
                0u8
            } else {
                0x8u8
            },
            ..acc
        }
    }

    /// The prefix state after the two three-byte VEX payload bytes.
    fn vex3_acc(mode: Mode, acc: PrefixAcc, data1: u8, data2: u8) -> (r: PrefixAcc)
        ensures
            r == spec_vex3_acc(mode, acc, data1, data2),
    {
        let map = data1 & 0x1F;
        PrefixAcc {
            buffer: InstructionBuffer {
                composite_prefix: Some(CompositePrefix::Vex),
                is_two_byte_opcode: true,
                primary_opcode: if map == 2 {
                    0x38u8
                } else if map == 3 {
                    0x3Au8
                } else {
                    acc.buffer.primary_opcode
                },
                operand_size_64: data2 & 0x80 != 0,
                vex_operand: Some(((!data2) >> 3) & 0xF),
                vex_l: Some(data2 & 0x04 != 0),
                operand_size_prefix: if data2 & 0x3 == 0x1 {
                    true
                } else {
                    acc.buffer.operand_size_prefix
                },
                fixed_prefix: if data2 & 0x3 == 0x2 {
                    Some(0xF3u8)
                } else if data2 & 0x3 == 0x3 {
                    Some(0xF2u8)
                } else {
                    acc.buffer.fixed_prefix
                },
                ..acc.buffer
            },
            reg_ext: if data1 & 0x80 != 0 || !matches!(mode, Mode::Long) {
                0u8
            } else {
                0x8u8
            },
            index_ext: if data1 & 0x40 != 0 || !matches!(mode, Mode::Long) {
                0u8
            } else {
                0x8u8
            },
            b_ext: if data1 & 0x20 != 0 || !matches!(mode, Mode::Long) {
                0u8
            } else {
                0x8u8
            },
        }
    }

    /// The prefix state after the three EVEX payload bytes.
    fn evex_acc(mode: Mode, acc: PrefixAcc, data1: u8, data2: u8, data3: u8) -> (r: PrefixAcc)
        ensures
            r == spec_evex_acc(mode, acc, data1, data2, data3),
    {
        let map = data1 & 0x3;
        let long = matches!(mode, Mode::Long);
        PrefixAcc {
            buffer: InstructionBuffer {
                composite_prefix: Some(CompositePrefix::Evex),
                is_two_byte_opcode: true,
                primary_opcode: if map == 2 {
                    0x38u8
                } else if map == 3 {
                    0x3Au8
                } else {
                    acc.buffer.primary_opcode
                },
                operand_size_64: data2 & 0x80 != 0,
                vex_operand: Some(
                    ((data2 >> 3) & 0xF) | (if data3 & 0x8 != 0 {
                        0x10u8
                    } else {
                        0u8
                    }),
                ),
                operand_size_prefix: if data2 & 0x3 == 0x1 {
                    true
                } else {
                    acc.buffer.operand_size_prefix
                },
                fixed_prefix: if data2 & 0x3 == 0x2 {
                    Some(0xF3u8)
                } else if data2 & 0x3 == 0x3 {
                    Some(0xF2u8)
                } else {
                    acc.buffer.fixed_prefix
                },
                merge_mode: Some(
                    if data3 & 0x80 != 0 {
                        MergeMode::Zero
                    } else {
                        MergeMode::Merge
                    },
                ),
                vex_e: Some(data3 & 0x40 != 0),
                vex_l: Some(data3 & 0x20 != 0),
                vex_b: Some(data3 & 0x10 != 0),
                mask_reg: Some(data3 & 0x7),
                ..acc.buffer
            },
            reg_ext: acc.reg_ext | (if data1 & 0x80 != 0 && long {
                0x8u8
            } else {
                0u8
            }) | (if data1 & 0x10 != 0 && long {
                0x10u8
            } else {
                0u8
            }),
            index_ext: acc.index_ext | (if data1 & 0x40 != 0 && long {
                0x8u8
            } else {
                0u8
            }),
            b_ext: acc.b_ext | (if data1 & 0x20 != 0 && long {
                0x8u8
            } else {
                0u8
            }),
        }
    }

    /// The prefix state after a REX byte.
    fn rex_acc(acc: PrefixAcc, b: u8) -> (r: PrefixAcc)
        ensures
            r == spec_rex_acc(acc, b),
    {
        PrefixAcc {
            buffer: InstructionBuffer {
                composite_prefix: Some(CompositePrefix::Rex),
                operand_size_64: b & 0x8 != 0,
                ..acc.buffer
            },
            reg_ext: acc.reg_ext | (if b & 0x4 != 0 {
                0x8u8
            } else {
                0u8
            }),
            index_ext: acc.index_ext | (if b & 0x2 != 0 {
                0x8u8
            } else {
                0u8
            }),
            b_ext: acc.b_ext | (if b & 0x1 != 0 {
                0x8u8
            } else {
                0u8
            }),
        }
    }

    /// Consume the payload byte of a two-byte VEX prefix.
    fn vex2_step(&mut self, acc: PrefixAcc) -> (r: Result<
        PrefixProgress,
        InstructionDecodingError,
    >)
        requires
            old(self).wf(),
        ensures
            final(self).wf(),
            final(self).fails() == old(self).fails(),
            final(self).decoding_mode() == old(self).decoding_mode(),
            ({
                match spec_vex2_step(
                    old(self).decoding_mode(),
                    acc,
                    old(self).remaining(),
                    old(self).fails(),
                ) {
                    PrefixStep::Continue { acc2, rest } => r == Ok::<
                        PrefixProgress,
                        InstructionDecodingError,
                    >(PrefixProgress::Continue(acc2)) && final(self).remaining() == rest,
                    PrefixStep::Opcode { acc2, opcode, rest } => r == Ok::<
                        PrefixProgress,
                        InstructionDecodingError,
                    >(PrefixProgress::Opcode(acc2, opcode)) && final(self).remaining() == rest,
                    PrefixStep::Fail { err, rest } => r == Err::<
                        PrefixProgress,
                        InstructionDecodingError,
                    >(err) && final(self).remaining() == rest,
                }
            }),
    {
        let ghost s = self.remaining();
        let data = match self.expect_byte() {
            Ok(v) => v,
            Err(e) => {
                proof {
                    assert(s.skip(0) =~= s);
                }
                return Err(e);
            },
        };
        let opcode = match self.expect_byte() {
            Ok(v) => v,
            Err(e) => {
                return Err(e);
            },
        };
        proof {
            lemma_skip_skip(s, 1, 1);
        }
        let mode = self.mode;
        Ok(PrefixProgress::Opcode(Self::vex2_acc(mode, acc, data), opcode))
    }

    /// Consume the two payload bytes of a three-byte VEX prefix.
    fn vex3_step(&mut self, acc: PrefixAcc) -> (r: Result<
        PrefixProgress,
        InstructionDecodingError,
    >)
        requires
            old(self).wf(),
        ensures
            final(self).wf(),
            final(self).fails() == old(self).fails(),
            final(self).decoding_mode() == old(self).decoding_mode(),
            ({
                match spec_vex3_step(
                    old(self).decoding_mode(),
                    acc,
                    old(self).remaining(),
                    old(self).fails(),
                ) {
                    PrefixStep::Continue { acc2, rest } => r == Ok::<
                        PrefixProgress,
                        InstructionDecodingError,
                    >(PrefixProgress::Continue(acc2)) && final(self).remaining() == rest,
                    PrefixStep::Opcode { acc2, opcode, rest } => r == Ok::<
                        PrefixProgress,
                        InstructionDecodingError,
                    >(PrefixProgress::Opcode(acc2, opcode)) && final(self).remaining() == rest,
                    PrefixStep::Fail { err, rest } => r == Err::<
                        PrefixProgress,
                        InstructionDecodingError,
                    >(err) && final(self).remaining() == rest,
                }
            }),
    {
        let ghost s = self.remaining();
        let data1 = match self.expect_byte() {
            Ok(v) => v,
            Err(e) => {
                proof {
                    assert(s.skip(0) =~= s);
                }
                return Err(e);
            },
        };
        let data2 = match self.expect_byte() {
            Ok(v) => v,
            Err(e) => {
                return Err(e);
            },
        };
        proof {
            lemma_skip_skip(s, 1, 1);
        }
        let map = data1 & 0x1F;
        if map != 1 && map != 2 && map != 3 {
            return Err(InstructionDecodingError::InvalidInstruction);
        }
        let opcode = match self.expect_byte() {
            Ok(v) => v,
            Err(e) => {
                return Err(e);
            },
        };
        proof {
            lemma_skip_skip(s, 2, 1);
        }
        let mode = self.mode;
        Ok(PrefixProgress::Opcode(Self::vex3_acc(mode, acc, data1, data2), opcode))
    }

    /// Consume the three payload bytes of an EVEX prefix.
    fn evex_step(&mut self, acc: PrefixAcc) -> (r: Result<
        PrefixProgress,
        InstructionDecodingError,
    >)
        requires
            old(self).wf(),
        ensures
            final(self).wf(),
            final(self).fails() == old(self).fails(),
            final(self).decoding_mode() == old(self).decoding_mode(),
            ({
                match spec_evex_step(
                    old(self).decoding_mode(),
                    acc,
                    old(self).remaining(),
                    old(self).fails(),
                ) {
                    PrefixStep::Continue { acc2, rest } => r == Ok::<
                        PrefixProgress,
                        InstructionDecodingError,
                    >(PrefixProgress::Continue(acc2)) && final(self).remaining() == rest,
                    PrefixStep::Opcode { acc2, opcode, rest } => r == Ok::<
                        PrefixProgress,
                        InstructionDecodingError,
                    >(PrefixProgress::Opcode(acc2, opcode)) && final(self).remaining() == rest,
                    PrefixStep::Fail { err, rest } => r == Err::<
                        PrefixProgress,
                        InstructionDecodingError,
                    >(err) && final(self).remaining() == rest,
                }
            }),
    {
        let ghost s = self.remaining();
        let data1 = match self.expect_byte() {
            Ok(v) => v,
            Err(e) => {
                proof {
                    assert(s.skip(0) =~= s);
                }
                return Err(e);
            },
        };
        let data2 = match self.expect_byte() {
            Ok(v) => v,
            Err(e) => {
                return Err(e);
            },
        };
        let data3 = match self.expect_byte() {
            Ok(v) => v,
            Err(e) => {
                proof {
                    lemma_skip_skip(s, 1, 1);
                }
                return Err(e);
            },
        };
        proof {
            lemma_skip_skip(s, 1, 1);
            lemma_skip_skip(s, 2, 1);
        }
        let map = data1 & 0x3;
        if map == 0 {
            return Err(InstructionDecodingError::InvalidInstruction);
        }
        let opcode = match self.expect_byte() {
            Ok(v) => v,
            Err(e) => {
                return Err(e);
            },
        };
        proof {
            lemma_skip_skip(s, 3, 1);
        }
        let mode = self.mode;
        Ok(PrefixProgress::Opcode(Self::evex_acc(mode, acc, data1, data2, data3), opcode))
    }

    /// One step of the prefix loop: consume a prefix and hand back the
    /// updated state, or hand back the first non-prefix byte as the opcode
    /// byte.
    fn prefix_step(&mut self, acc: PrefixAcc) -> (r: Result<
        PrefixProgress,
        InstructionDecodingError,
    >)
        requires
            old(self).wf(),
        ensures
            final(self).wf(),
            final(self).fails() == old(self).fails(),
            final(self).decoding_mode() == old(self).decoding_mode(),
            ({
                match spec_prefix_step(
                    old(self).decoding_mode(),
                    acc,
                    old(self).remaining(),
                    old(self).fails(),
                ) {
                    PrefixStep::Continue { acc2, rest } => r == Ok::<
                        PrefixProgress,
                        InstructionDecodingError,
                    >(PrefixProgress::Continue(acc2)) && final(self).remaining() == rest,
                    PrefixStep::Opcode { acc2, opcode, rest } => r == Ok::<
                        PrefixProgress,
                        InstructionDecodingError,
                    >(PrefixProgress::Opcode(acc2, opcode)) && final(self).remaining() == rest,
                    PrefixStep::Fail { err, rest } => r == Err::<
                        PrefixProgress,
                        InstructionDecodingError,
                    >(err) && final(self).remaining() == rest,
                }
            }),
    {
        let b = match self.expect_byte() {
            Ok(v) => v,
            Err(e) => {
                return Err(e);
            },
        };
        if b == 0xF0 {
            Ok(PrefixProgress::Continue(PrefixAcc {
                buffer: InstructionBuffer { prefix1: Some(Prefix1::Lock), ..acc.buffer },
                ..acc
            }))
        } else if b == 0xF2 {
            Ok(PrefixProgress::Continue(PrefixAcc {
                buffer: InstructionBuffer { prefix1: Some(Prefix1::RepNE), ..acc.buffer },
                ..acc
            }))
        } else if b == 0xF3 {
            Ok(PrefixProgress::Continue(PrefixAcc {
                buffer: InstructionBuffer { prefix1: Some(Prefix1::Rep), ..acc.buffer },
                ..acc
            }))
        } else if b == 0x66 {
            Ok(PrefixProgress::Continue(PrefixAcc {
                buffer: InstructionBuffer { operand_size_prefix: true, ..acc.buffer },
                ..acc
            }))
        } else if b == 0x67 {
            Ok(PrefixProgress::Continue(PrefixAcc {
                buffer: InstructionBuffer { address_size_prefix: true, ..acc.buffer },
                ..acc
            }))
        } else if b == 0x2E {
            Ok(PrefixProgress::Continue(PrefixAcc {
                buffer: InstructionBuffer { prefix2: Some(Prefix2::CS), ..acc.buffer },
                ..acc
            }))
        } else if b == 0x36 {
            Ok(PrefixProgress::Continue(PrefixAcc {
                buffer: InstructionBuffer { prefix2: Some(Prefix2::SS), ..acc.buffer },
                ..acc
            }))
        } else if b == 0x3E {
            Ok(PrefixProgress::Continue(PrefixAcc {
                buffer: InstructionBuffer { prefix2: Some(Prefix2::DS), ..acc.buffer },
                ..acc
            }))
        } else if b == 0x26 {
            Ok(PrefixProgress::Continue(PrefixAcc {
                buffer: InstructionBuffer { prefix2: Some(Prefix2::ES), ..acc.buffer },
                ..acc
            }))
        } else if b == 0x64 {
            Ok(PrefixProgress::Continue(PrefixAcc {
                buffer: InstructionBuffer { prefix2: Some(Prefix2::FS), ..acc.buffer },
                ..acc
            }))
        } else if b == 0x65 {
            Ok(PrefixProgress::Continue(PrefixAcc {
                buffer: InstructionBuffer { prefix2: Some(Prefix2::GS), ..acc.buffer },
                ..acc
            }))
        } else if b == 0x0F {
            Ok(PrefixProgress::Continue(PrefixAcc {
                buffer: InstructionBuffer { is_two_byte_opcode: true, ..acc.buffer },
                ..acc
            }))
        } else if b == 0xC5 {
            if Self::has_rex(&acc.buffer) {
                return Err(InstructionDecodingError::InvalidInstruction);
            }
            self.vex2_step(acc)
        } else if b == 0xC4 {
            if Self::has_rex(&acc.buffer) {
                return Err(InstructionDecodingError::InvalidInstruction);
            }
            self.vex3_step(acc)
        } else if b == 0x62 {
            if Self::has_rex(&acc.buffer) {
                return Err(InstructionDecodingError::InvalidInstruction);
            }
            self.evex_step(acc)
        } else if matches!(self.mode, Mode::Long) && b & 0xF0 == 0x40 {
            Ok(PrefixProgress::Continue(Self::rex_acc(acc, b)))
        } else {
            Ok(PrefixProgress::Opcode(acc, b))
        }
    }

    /// The prefix loop: consume legacy prefixes, REX, VEX2, VEX3 and EVEX
    /// until the first non-prefix byte, which is handed back as the opcode
    /// byte.
    fn read_prefixes(&mut self, acc0: PrefixAcc) -> (r: Result<
        (PrefixAcc, u8),
        InstructionDecodingError,
    >)
        requires
            old(self).wf(),
        ensures
            final(self).wf(),
            final(self).fails() == old(self).fails(),
            final(self).decoding_mode() == old(self).decoding_mode(),
            ({
                match spec_prefixes(
                    old(self).decoding_mode(),
                    acc0,
                    old(self).remaining(),
                    old(self).fails(),
                ) {
                    PrefixResult::Opcode { acc, opcode, rest } => r == Ok::<
                        (PrefixAcc, u8),
                        InstructionDecodingError,
                    >((acc, opcode)) && final(self).remaining() == rest,
                    PrefixResult::Fail { err, rest } => r == Err::<
                        (PrefixAcc, u8),
                        InstructionDecodingError,
                    >(err) && final(self).remaining() == rest,
                }
            }),
    {
        let mut acc = acc0;
        loop
            invariant
                self.wf(),
                self.decoding_mode() == old(self).decoding_mode(),
                self.fails() == old(self).fails(),
                spec_prefixes(
                    old(self).decoding_mode(),
                    acc0,
                    old(self).remaining(),
                    old(self).fails(),
                ) == spec_prefixes(
                    old(self).decoding_mode(),
                    acc,
                    self.remaining(),
                    old(self).fails(),
                ),
            decreases self.remaining().len(),
        {
            let ghost s = self.remaining();
            proof {
                lemma_prefix_step_shrinks(
                    self.decoding_mode(),
                    acc,
                    s,
                    self.fails(),
                );
            }
            let step = match self.prefix_step(acc) {
                Ok(v) => v,
                Err(e) => {
                    return Err(e);
                },
            };
            match step {
                PrefixProgress::Continue(acc2) => {
                    acc = acc2;
                },
                PrefixProgress::Opcode(acc2, opcode) => {
                    return Ok((acc2, opcode));
                },
            }
        }
    }

    /// Decode one instruction from the source: check for a clean end of
    /// stream, consume the prefixes, resolve the opcode against the
    /// catalogue, and decode the operands.
    pub fn read(&mut self) -> (r: Result<Instruction, InstructionDecodingError>)
        requires
            old(self).wf(),
        ensures
            final(self).wf(),
            final(self).fails() == old(self).fails(),
            final(self).decoding_mode() == old(self).decoding_mode(),
            ({
                match spec_read(old(self).decoding_mode(), old(self).remaining(), old(self).fails()) {
                    ReadResult::Read { insn, rest } => r == Ok::<
                        Instruction,
                        InstructionDecodingError,
                    >(insn) && final(self).remaining() == rest,
                    ReadResult::Fail { err, rest } => r == Err::<
                        Instruction,
                        InstructionDecodingError,
                    >(err) && final(self).remaining() == rest,
                }
            }),
    {
        if !self.source.has_more() {
            return Err(InstructionDecodingError::EndOfStream);
        }
        let acc0 = PrefixAcc {
            buffer: InstructionBuffer::empty(),
            reg_ext: 0,
            index_ext: 0,
            b_ext: 0,
        };
        let (acc, opcode) = match self.read_prefixes(acc0) {
            Ok(v) => v,
            Err(e) => {
                return Err(e);
            },
        };
        let (buffer, def) = match self.resolve_def(acc, opcode) {
            Ok(v) => v,
            Err(e) => {
                return Err(e);
            },
        };
        let (op1, op2, op3, op4) = match self.read_operands(&def, &buffer, acc.b_ext) {
            Ok(v) => v,
            Err(e) => {
                return Err(e);
            },
        };
        Ok(Self::assemble(&def, &buffer, op1, op2, op3, op4))
    }
}

} // verus!
