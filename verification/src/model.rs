//! The mathematical model of the decoder.
//!
//! Every stage of decoding — the prefix loop, opcode resolution with ModR/M
//! and SIB, and operand construction — is defined here as a specification
//! function over the remaining byte sequence `s` and the flag `fail` that
//! says whether the source ends in a read error. Each stage's result
//! carries `rest`, the stream left after the stage; a stage that runs out
//! of bytes has consumed them all. The executable decoder's contracts tie
//! it to [`spec_read`] exactly.

use vstd::prelude::*;

use crate::buffer::{CompositePrefix, InstructionBuffer, Prefix1, Prefix2};
use crate::catalog::{
    spec_find_instruction_def_by_opcode, FindInstructionDefByOpcodeError, FixedOperand,
    InstructionDefinition, NominalSize, OperandDefinition, OperandEncoding, OperandType,
};
use crate::insn::{Instruction, InstructionDecodingError, MergeMode, Mode, Operand, OperandSize};
use crate::regs::{MaskReg, Reg, RegScale, RegType, SegmentReg};
use crate::source::stream_end_error;

verus! {

/// The prefix stage's working state: the buffer so far, and the register
/// extension bits that are merged into ModR/M and SIB codes once those bytes
/// arrive. `reg_ext` extends the ModR/M `reg` field, `index_ext` the SIB
/// index, and `b_ext` the ModR/M `r/m` field or the SIB base.
#[derive(Clone, Copy, Debug, PartialEq, Eq)]
pub struct PrefixAcc {
    pub buffer: InstructionBuffer,
    pub reg_ext: u8,
    pub index_ext: u8,
    pub b_ext: u8,
}

impl PrefixAcc {
    /// The state a `read` starts from.
    pub open spec fn spec_init() -> PrefixAcc {
        PrefixAcc { buffer: InstructionBuffer::spec_empty(), reg_ext: 0, index_ext: 0, b_ext: 0 }
    }
}

/// What the prefix stage yields: the first non-prefix byte as the opcode
/// byte, or a failure.
pub ghost enum PrefixResult {
    Opcode { acc: PrefixAcc, opcode: u8, rest: Seq<u8> },
    Fail { err: InstructionDecodingError, rest: Seq<u8> },
}

/// What one step of the prefix loop yields: an updated state after a
/// consumed prefix, the opcode byte, or a failure.
pub ghost enum PrefixStep {
    Continue { acc2: PrefixAcc, rest: Seq<u8> },
    Opcode { acc2: PrefixAcc, opcode: u8, rest: Seq<u8> },
    Fail { err: InstructionDecodingError, rest: Seq<u8> },
}

/// Address size in the given mode, after the 0x67 prefix toggle.
pub open spec fn spec_address_size(mode: Mode, address_size_prefix: bool) -> OperandSize {
    match mode {
        Mode::Real => if address_size_prefix {
            OperandSize::Dword
        } else {
            OperandSize::Word
        },
        Mode::Protected => if address_size_prefix {
            OperandSize::Word
        } else {
            OperandSize::Dword
        },
        Mode::Long => if address_size_prefix {
            OperandSize::Dword
        } else {
            OperandSize::Qword
        },
    }
}

/// Operand size for a slot: a fixed declared size stands; a natural size is
/// the mode's default, promoted to 64 bit by the W bit or toggled between
/// 16 and 32 bit by the 0x66 prefix; a vector size follows the VEX/EVEX
/// length bits.
pub open spec fn spec_operand_size(mode: Mode, od: OperandDefinition, buffer: InstructionBuffer) -> OperandSize {
    match od.size {
        NominalSize::Fixed(s) => s,
        NominalSize::Natural => if buffer.operand_size_64 {
            OperandSize::Qword
        } else {
            match mode {
                Mode::Real => if buffer.operand_size_prefix {
                    OperandSize::Dword
                } else {
                    OperandSize::Word
                },
                Mode::Protected => if buffer.operand_size_prefix {
                    OperandSize::Word
                } else {
                    OperandSize::Dword
                },
                Mode::Long => if buffer.operand_size_prefix {
                    OperandSize::Word
                } else {
                    OperandSize::Dword
                },
            }
        },
        NominalSize::Vector => if buffer.composite_prefix == Some(CompositePrefix::Evex)
            && buffer.vex_e == Some(true) {
            OperandSize::Dqqword
        } else if buffer.vex_l == Some(true) {
            OperandSize::Qqword
        } else {
            OperandSize::Dqword
        },
    }
}

/// Whether this slot's encoding makes the instruction carry a ModR/M byte.
pub open spec fn spec_slot_uses_mod_rm(od: Option<OperandDefinition>) -> bool {
    match od {
        Some(od) => od.encoding == OperandEncoding::ModRmReg || od.encoding == OperandEncoding::ModRmRm
            || od.encoding == OperandEncoding::Mib,
        None => false,
    }
}

/// Whether a definition makes the instruction carry a ModR/M byte.
pub open spec fn spec_has_mod_rm(def: InstructionDefinition) -> bool {
    def.opcode_ext is Some || spec_slot_uses_mod_rm(def.operand1) || spec_slot_uses_mod_rm(
        def.operand2,
    ) || spec_slot_uses_mod_rm(def.operand3) || spec_slot_uses_mod_rm(def.operand4)
}

/// The little-endian value of two, four or eight bytes.
pub open spec fn spec_le16(b0: u8, b1: u8) -> u16 {
    (b0 as u16) | ((b1 as u16) << 8)
}

pub open spec fn spec_le32(b0: u8, b1: u8, b2: u8, b3: u8) -> u32 {
    (b0 as u32) | ((b1 as u32) << 8) | ((b2 as u32) << 16) | ((b3 as u32) << 24)
}

pub open spec fn spec_le64(b0: u8, b1: u8, b2: u8, b3: u8, b4: u8, b5: u8, b6: u8, b7: u8) -> u64 {
    (b0 as u64) | ((b1 as u64) << 8) | ((b2 as u64) << 16) | ((b3 as u64) << 24) | ((b4 as u64)
        << 32) | ((b5 as u64) << 40) | ((b6 as u64) << 48) | ((b7 as u64) << 56)
}

/// The prefix state after a two-byte VEX prefix with payload `data`:
/// inverted vvvv, the L bit, the pp mandatory-prefix field, and — in long
/// mode — the inverted R extension bit. VEX2 always selects the two-byte
/// opcode map.
pub open spec fn spec_vex2_acc(mode: Mode, acc: PrefixAcc, data: u8) -> PrefixAcc {
    PrefixAcc {
        buffer: InstructionBuffer {
            composite_prefix: Some(CompositePrefix::Vex),
            is_two_byte_opcode: true,
            vex_operand: Some(((!data) >> 3) & 0xF),
            vex_l: Some(data & 0x04 != 0),
            operand_size_prefix: if data & 0x3 == 0x1 {
                true
            } else {
                acc.buffer.operand_size_prefix
            },
            fixed_prefix: if data & 0x3 == 0x2 {
                Some(0xF3u8)
            } else if data & 0x3 == 0x3 {
                Some(0xF2u8)
            } else {
                acc.buffer.fixed_prefix
            },
            ..acc.buffer
        },
        reg_ext: if data & 0x80 != 0 || mode != Mode::Long {
            0u8
        } else {
            0x8u8
        },
        ..acc
    }
}

/// The prefix state after a three-byte VEX prefix: inverted R/X/B extension
/// bits and the opcode map from the first payload byte; W, inverted vvvv,
/// L and pp from the second.
pub open spec fn spec_vex3_acc(mode: Mode, acc: PrefixAcc, data1: u8, data2: u8) -> PrefixAcc {
    let map = data1 & 0x1F;
    PrefixAcc {
        buffer: InstructionBuffer {
            composite_prefix: Some(CompositePrefix::Vex),
            is_two_byte_opcode: true,
            primary_opcode: if map == 2 {
                0x38u8
            } else if map == 3 {
                0x3Au8
            } else {
                acc.buffer.primary_opcode
            },
            operand_size_64: data2 & 0x80 != 0,
            vex_operand: Some(((!data2) >> 3) & 0xF),
            vex_l: Some(data2 & 0x04 != 0),
            operand_size_prefix: if data2 & 0x3 == 0x1 {
                true
            } else {
                acc.buffer.operand_size_prefix
            },
            fixed_prefix: if data2 & 0x3 == 0x2 {
                Some(0xF3u8)
            } else if data2 & 0x3 == 0x3 {
                Some(0xF2u8)
            } else {
                acc.buffer.fixed_prefix
            },
            ..acc.buffer
        },
        reg_ext: if data1 & 0x80 != 0 || mode != Mode::Long {
            0u8
        } else {
            0x8u8
        },
        index_ext: if data1 & 0x40 != 0 || mode != Mode::Long {
            0u8
        } else {
            0x8u8
        },
        b_ext: if data1 & 0x20 != 0 || mode != Mode::Long {
            0u8
        } else {
            0x8u8
        },
    }
}

/// The prefix state after an EVEX prefix: R/X/B/R' extensions and the map
/// from the first payload byte; W, vvvv and pp from the second; merge
/// mode, the L'L length bits, the b bit, the V' extension and the mask
/// register from the third.
pub open spec fn spec_evex_acc(mode: Mode, acc: PrefixAcc, data1: u8, data2: u8, data3: u8) -> PrefixAcc {
    let map = data1 & 0x3;
    let long = mode == Mode::Long;
    PrefixAcc {
        buffer: InstructionBuffer {
            composite_prefix: Some(CompositePrefix::Evex),
            is_two_byte_opcode: true,
            primary_opcode: if map == 2 {
                0x38u8
            } else if map == 3 {
                0x3Au8
            } else {
                acc.buffer.primary_opcode
            },
            operand_size_64: data2 & 0x80 != 0,
            vex_operand: Some(
                ((data2 >> 3) & 0xF) | (if data3 & 0x8 != 0 {
                    0x10u8
                } else {
                    0u8
                }),
            ),
            operand_size_prefix: if data2 & 0x3 == 0x1 {
                true
            } else {
                acc.buffer.operand_size_prefix
            },
            fixed_prefix: if data2 & 0x3 == 0x2 {
                Some(0xF3u8)
            } else if data2 & 0x3 == 0x3 {
                Some(0xF2u8)
            } else {
                acc.buffer.fixed_prefix
            },
            merge_mode: Some(
                if data3 & 0x80 != 0 {
                    MergeMode::Zero
                } else {
                    MergeMode::Merge
                },
            ),
            vex_e: Some(data3 & 0x40 != 0),
            vex_l: Some(data3 & 0x20 != 0),
            vex_b: Some(data3 & 0x10 != 0),
            mask_reg: Some(data3 & 0x7),
            ..acc.buffer
        },
        reg_ext: acc.reg_ext | (if data1 & 0x80 != 0 && long {
            0x8u8
        } else {
            0u8
        }) | (if data1 & 0x10 != 0 && long {
            0x10u8
        } else {
            0u8
        }),
        index_ext: acc.index_ext | (if data1 & 0x40 != 0 && long {
            0x8u8
        } else {
            0u8
        }),
        b_ext: acc.b_ext | (if data1 & 0x20 != 0 && long {
            0x8u8
        } else {
            0u8
        }),
    }
}

/// The prefix state after a REX byte: the W bit and the R/X/B extension
/// bits.
pub open spec fn spec_rex_acc(acc: PrefixAcc, b: u8) -> PrefixAcc {
    PrefixAcc {
        buffer: InstructionBuffer {
            composite_prefix: Some(CompositePrefix::Rex),
            operand_size_64: b & 0x8 != 0,
            ..acc.buffer
        },
        reg_ext: acc.reg_ext | (if b & 0x4 != 0 {
            0x8u8
        } else {
            0u8
        }),
        index_ext: acc.index_ext | (if b & 0x2 != 0 {
            0x8u8
        } else {
            0u8
        }),
        b_ext: acc.b_ext | (if b & 0x1 != 0 {
            0x8u8
        } else {
            0u8
        }),
    }
}

/// The rest of a two-byte VEX prefix, entered after its 0xC5 byte: the
/// payload byte, then — since a VEX prefix is always the last prefix — the
/// opcode byte.
pub open spec fn spec_vex2_step(mode: Mode, acc: PrefixAcc, s: Seq<u8>, fail: bool) -> PrefixStep {
    if s.len() < 2 {
        PrefixStep::Fail { err: stream_end_error(fail), rest: s.skip(s.len() as int) }
    } else {
        PrefixStep::Opcode { acc2: spec_vex2_acc(mode, acc, s[0]), opcode: s[1], rest: s.skip(2) }
    }
}

/// The rest of a three-byte VEX prefix, entered after its 0xC4 byte: two
/// payload bytes, then the opcode byte. A map select outside {1, 2, 3} is
/// an invalid instruction.
pub open spec fn spec_vex3_step(mode: Mode, acc: PrefixAcc, s: Seq<u8>, fail: bool) -> PrefixStep {
    if s.len() < 2 {
        PrefixStep::Fail { err: stream_end_error(fail), rest: s.skip(s.len() as int) }
    } else {
        let map = s[0] & 0x1F;
        if map != 1 && map != 2 && map != 3 {
            PrefixStep::Fail { err: InstructionDecodingError::InvalidInstruction, rest: s.skip(2) }
        } else if s.len() < 3 {
            PrefixStep::Fail { err: stream_end_error(fail), rest: s.skip(2) }
        } else {
            PrefixStep::Opcode {
                acc2: spec_vex3_acc(mode, acc, s[0], s[1]),
                opcode: s[2],
                rest: s.skip(3),
            }
        }
    }
}

/// The rest of an EVEX prefix, entered after its 0x62 byte: three payload
/// bytes, then the opcode byte. A map select of 0 is an invalid
/// instruction.
pub open spec fn spec_evex_step(mode: Mode, acc: PrefixAcc, s: Seq<u8>, fail: bool) -> PrefixStep {
    if s.len() < 3 {
        PrefixStep::Fail { err: stream_end_error(fail), rest: s.skip(s.len() as int) }
    } else {
        let map = s[0] & 0x3;
        if map == 0 {
            PrefixStep::Fail { err: InstructionDecodingError::InvalidInstruction, rest: s.skip(3) }
        } else if s.len() < 4 {
            PrefixStep::Fail { err: stream_end_error(fail), rest: s.skip(3) }
        } else {
            PrefixStep::Opcode {
                acc2: spec_evex_acc(mode, acc, s[0], s[1], s[2]),
                opcode: s[3],
                rest: s.skip(4),
            }
        }
    }
}

/// One step of the prefix loop per consumed byte. Every legacy prefix and
/// REX updates the state and continues; a VEX2, VEX3 or EVEX prefix is
/// always the last prefix, so its step also takes the byte after it as the
/// opcode byte; any other byte is the opcode byte itself. A REX prefix
/// before VEX or EVEX is an invalid instruction.
pub open spec fn spec_prefix_step(mode: Mode, acc: PrefixAcc, s: Seq<u8>, fail: bool) -> PrefixStep {
    if s.len() == 0 {
        PrefixStep::Fail { err: stream_end_error(fail), rest: s }
    } else {
        let b = s[0];
        if b == 0xF0 {
            let acc2 = PrefixAcc {
                buffer: InstructionBuffer { prefix1: Some(Prefix1::Lock), ..acc.buffer },
                ..acc
            };
            PrefixStep::Continue { acc2, rest: s.skip(1) }
        } else if b == 0xF2 {
            let acc2 = PrefixAcc {
                buffer: InstructionBuffer { prefix1: Some(Prefix1::RepNE), ..acc.buffer },
                ..acc
            };
            PrefixStep::Continue { acc2, rest: s.skip(1) }
        } else if b == 0xF3 {
            let acc2 = PrefixAcc {
                buffer: InstructionBuffer { prefix1: Some(Prefix1::Rep), ..acc.buffer },
                ..acc
            };
            PrefixStep::Continue { acc2, rest: s.skip(1) }
        } else if b == 0x66 {
            let acc2 = PrefixAcc {
                buffer: InstructionBuffer { operand_size_prefix: true, ..acc.buffer },
                ..acc
            };
            PrefixStep::Continue { acc2, rest: s.skip(1) }
        } else if b == 0x67 {
            let acc2 = PrefixAcc {
                buffer: InstructionBuffer { address_size_prefix: true, ..acc.buffer },
                ..acc
            };
            PrefixStep::Continue { acc2, rest: s.skip(1) }
        } else if b == 0x2E {
            let acc2 = PrefixAcc {
                buffer: InstructionBuffer { prefix2: Some(Prefix2::CS), ..acc.buffer },
                ..acc
            };
            PrefixStep::Continue { acc2, rest: s.skip(1) }
        } else if b == 0x36 {
            let acc2 = PrefixAcc {
                buffer: InstructionBuffer { prefix2: Some(Prefix2::SS), ..acc.buffer },
                ..acc
            };
            PrefixStep::Continue { acc2, rest: s.skip(1) }
        } else if b == 0x3E {
            let acc2 = PrefixAcc {
                buffer: InstructionBuffer { prefix2: Some(Prefix2::DS), ..acc.buffer },
                ..acc
            };
            PrefixStep::Continue { acc2, rest: s.skip(1) }
        } else if b == 0x26 {
            let acc2 = PrefixAcc {
                buffer: InstructionBuffer { prefix2: Some(Prefix2::ES), ..acc.buffer },
                ..acc
            };
            PrefixStep::Continue { acc2, rest: s.skip(1) }
        } else if b == 0x64 {
            let acc2 = PrefixAcc {
                buffer: InstructionBuffer { prefix2: Some(Prefix2::FS), ..acc.buffer },
                ..acc
            };
            PrefixStep::Continue { acc2, rest: s.skip(1) }
        } else if b == 0x65 {
            let acc2 = PrefixAcc {
                buffer: InstructionBuffer { prefix2: Some(Prefix2::GS), ..acc.buffer },
                ..acc
            };
            PrefixStep::Continue { acc2, rest: s.skip(1) }
        } else if b == 0x0F {
            let acc2 = PrefixAcc {
                buffer: InstructionBuffer { is_two_byte_opcode: true, ..acc.buffer },
                ..acc
            };
            PrefixStep::Continue { acc2, rest: s.skip(1) }
        } else if b == 0xC5 {
            if acc.buffer.composite_prefix == Some(CompositePrefix::Rex) {
                PrefixStep::Fail {
                    err: InstructionDecodingError::InvalidInstruction,
                    rest: s.skip(1),
                }
            } else {
                spec_vex2_step(mode, acc, s.skip(1), fail)
            }
        } else if b == 0xC4 {
            if acc.buffer.composite_prefix == Some(CompositePrefix::Rex) {
                PrefixStep::Fail {
                    err: InstructionDecodingError::InvalidInstruction,
                    rest: s.skip(1),
                }
            } else {
                spec_vex3_step(mode, acc, s.skip(1), fail)
            }
        } else if b == 0x62 {
            if acc.buffer.composite_prefix == Some(CompositePrefix::Rex) {
                PrefixStep::Fail {
                    err: InstructionDecodingError::InvalidInstruction,
                    rest: s.skip(1),
                }
            } else {
                spec_evex_step(mode, acc, s.skip(1), fail)
            }
        } else if mode == Mode::Long && b & 0xF0 == 0x40 {
            PrefixStep::Continue { acc2: spec_rex_acc(acc, b), rest: s.skip(1) }
        } else {
            PrefixStep::Opcode { acc2: acc, opcode: b, rest: s.skip(1) }
        }
    }
}

/// The prefix decoder: iterate [`spec_prefix_step`] until it yields the
/// opcode byte or fails.
pub open spec fn spec_prefixes(mode: Mode, acc: PrefixAcc, s: Seq<u8>, fail: bool) -> PrefixResult
    decreases s.len(),
        via spec_prefixes_decreases
{
    match spec_prefix_step(mode, acc, s, fail) {
        PrefixStep::Continue { acc2, rest } => spec_prefixes(mode, acc2, rest, fail),
        PrefixStep::Opcode { acc2, opcode, rest } => PrefixResult::Opcode {
            acc: acc2,
            opcode,
            rest,
        },
        PrefixStep::Fail { err, rest } => PrefixResult::Fail { err, rest },
    }
}

#[via_fn]
proof fn spec_prefixes_decreases(mode: Mode, acc: PrefixAcc, s: Seq<u8>, fail: bool) {
    lemma_prefix_step_shrinks(mode, acc, s, fail);
}

/// A step that does not yet yield the opcode byte consumes at least one
/// byte, and the opcode byte itself is consumed too.
pub proof fn lemma_prefix_step_shrinks(mode: Mode, acc: PrefixAcc, s: Seq<u8>, fail: bool)
    ensures
        match spec_prefix_step(mode, acc, s, fail) {
            PrefixStep::Continue { acc2, rest } => rest.len() < s.len(),
            PrefixStep::Opcode { acc2, opcode, rest } => rest.len() < s.len(),
            PrefixStep::Fail { err, rest } => true,
        },
{
}

/// What opcode resolution yields: the buffer completed with opcode bytes,
/// ModR/M and SIB, the extension bits an opcode-addend operand still needs,
/// and the catalogue definition — or a failure.
pub ghost enum ResolveResult {
    Resolved {
        buffer: InstructionBuffer,
        b_ext: u8,
        def: InstructionDefinition,
        rest: Seq<u8>,
    },
    Fail { err: InstructionDecodingError, rest: Seq<u8> },
}

/// Finish resolution once ModR/M (and SIB, if any) are merged in: keep the
/// definition the first lookup found, or reissue the lookup with the ModR/M
/// `reg` field as the opcode extension. A second failure is fatal.
pub open spec fn spec_resolve_finish(
    mode: Mode,
    acc: PrefixAcc,
    buffer: InstructionBuffer,
    first: Result<InstructionDefinition, FindInstructionDefByOpcodeError>,
    reg: u8,
    rest: Seq<u8>,
) -> ResolveResult {
    match first {
        Ok(def) => ResolveResult::Resolved { buffer, b_ext: acc.b_ext, def, rest },
        Err(_) => match spec_find_instruction_def_by_opcode(
            buffer.is_two_byte_opcode,
            buffer.primary_opcode,
            buffer.secondary_opcode,
            Some(reg),
            mode,
        ) {
            Ok(def) => ResolveResult::Resolved { buffer, b_ext: acc.b_ext, def, rest },
            Err(_) => ResolveResult::Fail {
                err: InstructionDecodingError::UnknownOpcode,
                rest,
            },
        },
    }
}

/// Look the opcode up and, when the definition (or the need for an opcode
/// extension) asks for one, read ModR/M and SIB, merging the extension bits:
/// `reg_ext` into `reg`; `index_ext` and `b_ext` into SIB index and base
/// when a SIB byte follows, `b_ext` into `r/m` otherwise. A SIB byte
/// follows exactly when addressing is not 16-bit, `mod != 11`, and the raw
/// `r/m` field is `100`.
pub open spec fn spec_resolve_lookup(
    mode: Mode,
    acc: PrefixAcc,
    buffer: InstructionBuffer,
    s: Seq<u8>,
    fail: bool,
) -> ResolveResult {
    let first = spec_find_instruction_def_by_opcode(
        buffer.is_two_byte_opcode,
        buffer.primary_opcode,
        buffer.secondary_opcode,
        None,
        mode,
    );
    let need_mod_rm = (match first {
        Ok(def) => spec_has_mod_rm(def),
        Err(e) => e == FindInstructionDefByOpcodeError::NeedOpcodeExt,
    });
    if !need_mod_rm {
        match first {
            Ok(def) => ResolveResult::Resolved { buffer, b_ext: acc.b_ext, def, rest: s },
            Err(_) => ResolveResult::Fail {
                err: InstructionDecodingError::UnknownOpcode,
                rest: s,
            },
        }
    } else if s.len() == 0 {
        ResolveResult::Fail { err: stream_end_error(fail), rest: s }
    } else {
        let m = s[0];
        let md = m >> 6;
        let reg = ((m >> 3) & 0x7) | acc.reg_ext;
        let rm_raw = m & 0x7;
        let buffer2 = InstructionBuffer {
            mod_rm_mod: Some(md),
            mod_rm_reg: Some(reg),
            mod_rm_rm: Some(rm_raw),
            ..buffer
        };
        let addr_size = spec_address_size(mode, buffer2.address_size_prefix);
        if addr_size != OperandSize::Word && md != 3 && rm_raw == 4 {
            if s.len() < 2 {
                ResolveResult::Fail { err: stream_end_error(fail), rest: s.skip(1) }
            } else {
                let sb = s[1];
                let buffer3 = InstructionBuffer {
                    sib_scale: Some(sb >> 6),
                    sib_index: Some(((sb >> 3) & 0x7) | acc.index_ext),
                    sib_base: Some((sb & 0x7) | acc.b_ext),
                    ..buffer2
                };
                spec_resolve_finish(mode, acc, buffer3, first, reg, s.skip(2))
            }
        } else {
            let buffer3 = InstructionBuffer { mod_rm_rm: Some(rm_raw | acc.b_ext), ..buffer2 };
            spec_resolve_finish(mode, acc, buffer3, first, reg, s.skip(1))
        }
    }
}

/// Opcode resolution: the terminating byte of the prefix stage becomes the
/// primary opcode, unless a VEX/EVEX map select already latched one, in
/// which case it is the secondary. A legacy-style 0x38/0x3A map reads its
/// second opcode byte here.
pub open spec fn spec_resolve(
    mode: Mode,
    acc: PrefixAcc,
    opcode: u8,
    s: Seq<u8>,
    fail: bool,
) -> ResolveResult {
    let buffer1 = if acc.buffer.primary_opcode == 0 {
        InstructionBuffer { primary_opcode: opcode, ..acc.buffer }
    } else {
        InstructionBuffer { secondary_opcode: Some(opcode), ..acc.buffer }
    };
    if (buffer1.primary_opcode == 0x38 || buffer1.primary_opcode == 0x3A)
        && buffer1.secondary_opcode is None {
        if s.len() == 0 {
            ResolveResult::Fail { err: stream_end_error(fail), rest: s }
        } else {
            let buffer2 = InstructionBuffer { secondary_opcode: Some(s[0]), ..buffer1 };
            spec_resolve_lookup(mode, acc, buffer2, s.skip(1), fail)
        }
    } else {
        spec_resolve_lookup(mode, acc, buffer1, s, fail)
    }
}

/// What decoding one operand slot yields.
pub ghost enum OperandResult {
    Got { op: Operand, rest: Seq<u8> },
    Fail { err: InstructionDecodingError, rest: Seq<u8> },
}

/// The register kind the r/m sub-machine converts a direct register under:
/// the slot's declared kind, or general purpose for memory-typed slots.
pub open spec fn spec_rm_reg_type(od: OperandDefinition) -> RegType {
    match od.op_type {
        OperandType::Reg(rt) => rt,
        _ => RegType::General,
    }
}

/// The 16-bit addressing table's combination step: base pair plus
/// displacement, folded into the narrowest operand form.
pub open spec fn spec_rm16_combine(
    reg1: Option<Reg>,
    reg2: Option<Reg>,
    disp: Option<u64>,
    size: OperandSize,
    segment: Option<SegmentReg>,
) -> Option<Operand> {
    match (reg1, reg2, disp) {
        (None, None, Some(addr)) => Some(Operand::Memory(addr, Some(size), segment)),
        (Some(r1), None, None) => Some(Operand::Indirect(r1, Some(size), segment)),
        (Some(r1), None, Some(d)) => Some(
            Operand::IndirectDisplaced(r1, d, Some(size), segment),
        ),
        (Some(r1), Some(r2), None) => Some(
            Operand::IndirectScaledIndexed(r1, r2, RegScale::One, Some(size), segment),
        ),
        (Some(r1), Some(r2), Some(d)) => Some(
            Operand::IndirectScaledIndexedDisplaced(r1, r2, RegScale::One, d, Some(size), segment),
        ),
        _ => None,
    }
}

/// The classic 16-bit base-pair table, keyed by `r/m` (with `mod == 00`,
/// `r/m == 110` meaning a bare displacement).
pub open spec fn spec_rm16_operand(
    rm: u8,
    md: u8,
    disp: Option<u64>,
    size: OperandSize,
    segment: Option<SegmentReg>,
) -> Option<Operand> {
    match rm {
        0 => spec_rm16_combine(Some(Reg::BX), Some(Reg::SI), disp, size, segment),
        1 => spec_rm16_combine(Some(Reg::BX), Some(Reg::DI), disp, size, segment),
        2 => spec_rm16_combine(Some(Reg::BP), Some(Reg::SI), disp, size, segment),
        3 => spec_rm16_combine(Some(Reg::BP), Some(Reg::DI), disp, size, segment),
        4 => spec_rm16_combine(Some(Reg::SI), None, disp, size, segment),
        5 => spec_rm16_combine(Some(Reg::DI), None, disp, size, segment),
        6 => if md == 0 {
            spec_rm16_combine(None, None, disp, size, segment)
        } else {
            spec_rm16_combine(Some(Reg::BP), None, disp, size, segment)
        },
        7 => spec_rm16_combine(Some(Reg::BX), None, disp, size, segment),
        _ => None,
    }
}

/// The SIB sub-machine, entered with the SIB fields already merged with
/// their extension bits. A merged index of exactly 4 means "no index"; a
/// base whose low three bits are 101 under `mod == 00` means "no base,
/// 32-bit displacement".
pub open spec fn spec_sib(
    mode: Mode,
    od: OperandDefinition,
    buffer: InstructionBuffer,
    md: u8,
    s: Seq<u8>,
    fail: bool,
) -> OperandResult {
    let has_rex = buffer.spec_has_rex();
    let addr_size = spec_address_size(mode, buffer.address_size_prefix);
    let size = spec_operand_size(mode, od, buffer);
    let segment = buffer.spec_segment_reg();
    match (buffer.sib_scale, buffer.sib_index, buffer.sib_base) {
        (Some(scale_code), Some(index_code), Some(base_code)) => match RegScale::spec_from_sib_code(
            scale_code,
        ) {
            None => OperandResult::Fail {
                err: InstructionDecodingError::InvalidInstruction,
                rest: s,
            },
            Some(scale) => match Reg::spec_from_code_general_sized(index_code, has_rex, addr_size) {
                None => OperandResult::Fail {
                    err: InstructionDecodingError::InvalidInstruction,
                    rest: s,
                },
                Some(index) => match Reg::spec_from_code_general_sized(
                    base_code,
                    has_rex,
                    addr_size,
                ) {
                    None => OperandResult::Fail {
                        err: InstructionDecodingError::InvalidInstruction,
                        rest: s,
                    },
                    Some(base) => if md == 0 {
                        if base_code & 0x7 == 5 {
                            if s.len() < 4 {
                                OperandResult::Fail {
                                    err: stream_end_error(fail),
                                    rest: s.skip(s.len() as int),
                                }
                            } else {
                                let d = spec_le32(s[0], s[1], s[2], s[3]) as u64;
                                if index_code == 4 {
                                    OperandResult::Got {
                                        op: Operand::Memory(d, Some(size), segment),
                                        rest: s.skip(4),
                                    }
                                } else {
                                    OperandResult::Got {
                                        op: Operand::IndirectScaledDisplaced(
                                            index,
                                            scale,
                                            d,
                                            Some(size),
                                            segment,
                                        ),
                                        rest: s.skip(4),
                                    }
                                }
                            }
                        } else {
                            if index_code == 4 {
                                OperandResult::Got {
                                    op: Operand::Indirect(base, Some(size), segment),
                                    rest: s,
                                }
                            } else {
                                OperandResult::Got {
                                    op: Operand::IndirectScaledIndexed(
                                        base,
                                        index,
                                        scale,
                                        Some(size),
                                        segment,
                                    ),
                                    rest: s,
                                }
                            }
                        }
                    } else if md == 1 {
                        if s.len() < 1 {
                            OperandResult::Fail {
                                err: stream_end_error(fail),
                                rest: s.skip(s.len() as int),
                            }
                        } else {
                            let d = s[0] as u64;
                            if index_code == 4 {
                                OperandResult::Got {
                                    op: Operand::IndirectDisplaced(base, d, Some(size), segment),
                                    rest: s.skip(1),
                                }
                            } else {
                                OperandResult::Got {
                                    op: Operand::IndirectScaledIndexedDisplaced(
                                        base,
                                        index,
                                        scale,
                                        d,
                                        Some(size),
                                        segment,
                                    ),
                                    rest: s.skip(1),
                                }
                            }
                        }
                    } else if md == 2 {
                        if s.len() < 4 {
                            OperandResult::Fail {
                                err: stream_end_error(fail),
                                rest: s.skip(s.len() as int),
                            }
                        } else {
                            let d = spec_le32(s[0], s[1], s[2], s[3]) as u64;
                            if index_code == 4 {
                                OperandResult::Got {
                                    op: Operand::IndirectDisplaced(base, d, Some(size), segment),
                                    rest: s.skip(4),
                                }
                            } else {
                                OperandResult::Got {
                                    op: Operand::IndirectScaledIndexedDisplaced(
                                        base,
                                        index,
                                        scale,
                                        d,
                                        Some(size),
                                        segment,
                                    ),
                                    rest: s.skip(4),
                                }
                            }
                        }
                    } else {
                        OperandResult::Fail {
                            err: InstructionDecodingError::InvalidInstruction,
                            rest: s,
                        }
                    },
                },
            },
        },
        _ => OperandResult::Fail { err: InstructionDecodingError::InvalidInstruction, rest: s },
    }
}

/// The r/m addressing sub-machine. Structural decisions — which table row,
/// whether a SIB was consumed, the disp32-only rows — go by the low three
/// bits of the merged `r/m`; register naming uses the full merged value.
pub open spec fn spec_rm(
    mode: Mode,
    rt: RegType,
    od: OperandDefinition,
    buffer: InstructionBuffer,
    s: Seq<u8>,
    fail: bool,
) -> OperandResult {
    let has_rex = buffer.spec_has_rex();
    let addr_size = spec_address_size(mode, buffer.address_size_prefix);
    let size = spec_operand_size(mode, od, buffer);
    let segment = buffer.spec_segment_reg();
    match (buffer.mod_rm_rm, buffer.mod_rm_mod) {
        (Some(rm), Some(md)) => if addr_size == OperandSize::Word {
            if md == 3 {
                match Reg::spec_from_code_reg_type(rm, rt, size) {
                    Some(r) => OperandResult::Got { op: Operand::Direct(r), rest: s },
                    None => OperandResult::Fail {
                        err: InstructionDecodingError::InvalidInstruction,
                        rest: s,
                    },
                }
            } else if md == 0 && rm != 6 {
                match spec_rm16_operand(rm, md, None, size, segment) {
                    Some(op) => OperandResult::Got { op, rest: s },
                    None => OperandResult::Fail {
                        err: InstructionDecodingError::InvalidInstruction,
                        rest: s,
                    },
                }
            } else if md == 1 {
                if s.len() < 1 {
                    OperandResult::Fail { err: stream_end_error(fail), rest: s }
                } else {
                    match spec_rm16_operand(rm, md, Some(s[0] as u64), size, segment) {
                        Some(op) => OperandResult::Got { op, rest: s.skip(1) },
                        None => OperandResult::Fail {
                            err: InstructionDecodingError::InvalidInstruction,
                            rest: s.skip(1),
                        },
                    }
                }
            } else if md == 0 || md == 2 {
                if s.len() < 2 {
                    OperandResult::Fail { err: stream_end_error(fail), rest: s.skip(s.len() as int) }
                } else {
                    match spec_rm16_operand(rm, md, Some(spec_le16(s[0], s[1]) as u64), size, segment) {
                        Some(op) => OperandResult::Got { op, rest: s.skip(2) },
                        None => OperandResult::Fail {
                            err: InstructionDecodingError::InvalidInstruction,
                            rest: s.skip(2),
                        },
                    }
                }
            } else {
                OperandResult::Fail {
                    err: InstructionDecodingError::InvalidInstruction,
                    rest: s,
                }
            }
        } else {
            if md == 0 {
                if rm & 0x7 == 4 {
                    spec_sib(mode, od, buffer, md, s, fail)
                } else if rm & 0x7 == 5 {
                    if s.len() < 4 {
                        OperandResult::Fail {
                            err: stream_end_error(fail),
                            rest: s.skip(s.len() as int),
                        }
                    } else {
                        let d = spec_le32(s[0], s[1], s[2], s[3]) as u64;
                        if addr_size == OperandSize::Dword {
                            OperandResult::Got {
                                op: Operand::Memory(d, Some(size), segment),
                                rest: s.skip(4),
                            }
                        } else {
                            OperandResult::Got {
                                op: Operand::Offset(d, Some(size), segment),
                                rest: s.skip(4),
                            }
                        }
                    }
                } else {
                    match Reg::spec_from_code_general_sized(rm, has_rex, addr_size) {
                        Some(base) => OperandResult::Got {
                            op: Operand::Indirect(base, Some(size), segment),
                            rest: s,
                        },
                        None => OperandResult::Fail {
                            err: InstructionDecodingError::InvalidInstruction,
                            rest: s,
                        },
                    }
                }
            } else if md == 1 {
                if rm & 0x7 == 4 {
                    spec_sib(mode, od, buffer, md, s, fail)
                } else {
                    match Reg::spec_from_code_general_sized(rm, has_rex, addr_size) {
                        None => OperandResult::Fail {
                            err: InstructionDecodingError::InvalidInstruction,
                            rest: s,
                        },
                        Some(base) => if s.len() < 1 {
                            OperandResult::Fail { err: stream_end_error(fail), rest: s }
                        } else {
                            OperandResult::Got {
                                op: Operand::IndirectDisplaced(
                                    base,
                                    s[0] as u64,
                                    Some(size),
                                    segment,
                                ),
                                rest: s.skip(1),
                            }
                        },
                    }
                }
            } else if md == 2 {
                if rm & 0x7 == 4 {
                    spec_sib(mode, od, buffer, md, s, fail)
                } else {
                    match Reg::spec_from_code_general_sized(rm, has_rex, addr_size) {
                        None => OperandResult::Fail {
                            err: InstructionDecodingError::InvalidInstruction,
                            rest: s,
                        },
                        Some(base) => if s.len() < 4 {
                            OperandResult::Fail {
                                err: stream_end_error(fail),
                                rest: s.skip(s.len() as int),
                            }
                        } else {
                            OperandResult::Got {
                                op: Operand::IndirectDisplaced(
                                    base,
                                    spec_le32(s[0], s[1], s[2], s[3]) as u64,
                                    Some(size),
                                    segment,
                                ),
                                rest: s.skip(4),
                            }
                        },
                    }
                }
            } else if md == 3 {
                match Reg::spec_from_code_reg_type(rm, rt, size) {
                    Some(r) => OperandResult::Got { op: Operand::Direct(r), rest: s },
                    None => OperandResult::Fail {
                        err: InstructionDecodingError::InvalidInstruction,
                        rest: s,
                    },
                }
            } else {
                OperandResult::Fail {
                    err: InstructionDecodingError::InvalidInstruction,
                    rest: s,
                }
            }
        },
        _ => OperandResult::Fail { err: InstructionDecodingError::InvalidInstruction, rest: s },
    }
}

/// Whether an operand scales an index by more than 1; a Mib slot rejects
/// such operands.
pub open spec fn spec_scale_above_one(op: Operand) -> bool {
    match op {
        Operand::IndirectScaledIndexed(_, _, scale, _, _) => scale != RegScale::One,
        Operand::IndirectScaledIndexedDisplaced(_, _, scale, _, _, _) => scale != RegScale::One,
        Operand::IndirectScaledDisplaced(_, scale, _, _, _) => scale != RegScale::One,
        _ => false,
    }
}

/// The accumulator at the given operand size.
pub open spec fn spec_sized_accumulator(size: OperandSize) -> Option<Reg> {
    match size {
        OperandSize::Word => Some(Reg::AX),
        OperandSize::Dword => Some(Reg::EAX),
        OperandSize::Qword => Some(Reg::RAX),
        _ => None,
    }
}

/// Decode one operand slot.
pub open spec fn spec_operand(
    mode: Mode,
    od: OperandDefinition,
    buffer: InstructionBuffer,
    b_ext: u8,
    s: Seq<u8>,
    fail: bool,
) -> OperandResult {
    let size = spec_operand_size(mode, od, buffer);
    let addr_size = spec_address_size(mode, buffer.address_size_prefix);
    let segment = buffer.spec_segment_reg();
    match od.encoding {
        OperandEncoding::ModRmReg => match od.op_type {
            OperandType::Reg(rt) => match buffer.mod_rm_reg {
                Some(code) => match Reg::spec_from_code_reg_type(code, rt, size) {
                    Some(r) => OperandResult::Got { op: Operand::Direct(r), rest: s },
                    None => OperandResult::Fail {
                        err: InstructionDecodingError::InvalidInstruction,
                        rest: s,
                    },
                },
                None => OperandResult::Fail {
                    err: InstructionDecodingError::InvalidInstruction,
                    rest: s,
                },
            },
            _ => OperandResult::Fail {
                err: InstructionDecodingError::InvalidInstruction,
                rest: s,
            },
        },
        OperandEncoding::ModRmRm => spec_rm(mode, spec_rm_reg_type(od), od, buffer, s, fail),
        OperandEncoding::Mib => match spec_rm(mode, spec_rm_reg_type(od), od, buffer, s, fail) {
            OperandResult::Got { op, rest } => if spec_scale_above_one(op) {
                OperandResult::Fail {
                    err: InstructionDecodingError::InvalidInstruction,
                    rest,
                }
            } else {
                OperandResult::Got { op, rest }
            },
            f => f,
        },
        OperandEncoding::Vex => match od.op_type {
            OperandType::Reg(rt) => match buffer.vex_operand {
                Some(code) => match Reg::spec_from_code_reg_type(code, rt, size) {
                    Some(r) => OperandResult::Got { op: Operand::Direct(r), rest: s },
                    None => OperandResult::Fail {
                        err: InstructionDecodingError::InvalidInstruction,
                        rest: s,
                    },
                },
                None => OperandResult::Fail {
                    err: InstructionDecodingError::InvalidInstruction,
                    rest: s,
                },
            },
            _ => OperandResult::Fail {
                err: InstructionDecodingError::InvalidInstruction,
                rest: s,
            },
        },
        OperandEncoding::Imm => match od.op_type {
            OperandType::Reg(rt) => if s.len() < 1 {
                OperandResult::Fail { err: stream_end_error(fail), rest: s }
            } else {
                match Reg::spec_from_code_reg_type(s[0], rt, size) {
                    Some(r) => OperandResult::Got { op: Operand::Direct(r), rest: s.skip(1) },
                    None => OperandResult::Fail {
                        err: InstructionDecodingError::InvalidInstruction,
                        rest: s.skip(1),
                    },
                }
            },
            OperandType::Imm => match size {
                OperandSize::Byte => if s.len() < 1 {
                    OperandResult::Fail { err: stream_end_error(fail), rest: s }
                } else {
                    OperandResult::Got { op: Operand::Literal8(s[0]), rest: s.skip(1) }
                },
                OperandSize::Word => if s.len() < 2 {
                    OperandResult::Fail { err: stream_end_error(fail), rest: s.skip(s.len() as int) }
                } else {
                    OperandResult::Got {
                        op: Operand::Literal16(spec_le16(s[0], s[1])),
                        rest: s.skip(2),
                    }
                },
                OperandSize::Dword => if s.len() < 4 {
                    OperandResult::Fail { err: stream_end_error(fail), rest: s.skip(s.len() as int) }
                } else {
                    OperandResult::Got {
                        op: Operand::Literal32(spec_le32(s[0], s[1], s[2], s[3])),
                        rest: s.skip(4),
                    }
                },
                OperandSize::Qword => if s.len() < 8 {
                    OperandResult::Fail { err: stream_end_error(fail), rest: s.skip(s.len() as int) }
                } else {
                    OperandResult::Got {
                        op: Operand::Literal64(
                            spec_le64(s[0], s[1], s[2], s[3], s[4], s[5], s[6], s[7]),
                        ),
                        rest: s.skip(8),
                    }
                },
                _ => OperandResult::Fail {
                    err: InstructionDecodingError::InvalidInstruction,
                    rest: s,
                },
            },
            OperandType::FarPointer => if size == OperandSize::Word {
                if s.len() < 4 {
                    OperandResult::Fail { err: stream_end_error(fail), rest: s.skip(s.len() as int) }
                } else {
                    OperandResult::Got {
                        op: Operand::MemoryAndSegment16(
                            spec_le16(s[2], s[3]),
                            spec_le16(s[0], s[1]),
                        ),
                        rest: s.skip(4),
                    }
                }
            } else if size == OperandSize::Dword {
                if s.len() < 6 {
                    OperandResult::Fail { err: stream_end_error(fail), rest: s.skip(s.len() as int) }
                } else {
                    OperandResult::Got {
                        op: Operand::MemoryAndSegment32(
                            spec_le16(s[4], s[5]),
                            spec_le32(s[0], s[1], s[2], s[3]),
                        ),
                        rest: s.skip(6),
                    }
                }
            } else {
                OperandResult::Fail {
                    err: InstructionDecodingError::InvalidInstruction,
                    rest: s,
                }
            },
            _ => OperandResult::Fail {
                err: InstructionDecodingError::InvalidInstruction,
                rest: s,
            },
        },
        OperandEncoding::OpcodeAddend => match od.op_type {
            OperandType::Reg(rt) => match Reg::spec_from_code_reg_type(
                (buffer.primary_opcode & 0x7) | b_ext,
                rt,
                size,
            ) {
                Some(r) => OperandResult::Got { op: Operand::Direct(r), rest: s },
                None => OperandResult::Fail {
                    err: InstructionDecodingError::InvalidInstruction,
                    rest: s,
                },
            },
            _ => OperandResult::Fail {
                err: InstructionDecodingError::InvalidInstruction,
                rest: s,
            },
        },
        OperandEncoding::Offset => match addr_size {
            OperandSize::Word => if s.len() < 2 {
                OperandResult::Fail { err: stream_end_error(fail), rest: s.skip(s.len() as int) }
            } else {
                OperandResult::Got {
                    op: Operand::Memory(spec_le16(s[0], s[1]) as u64, Some(size), segment),
                    rest: s.skip(2),
                }
            },
            OperandSize::Dword => if s.len() < 4 {
                OperandResult::Fail { err: stream_end_error(fail), rest: s.skip(s.len() as int) }
            } else {
                OperandResult::Got {
                    op: Operand::Memory(
                        spec_le32(s[0], s[1], s[2], s[3]) as u64,
                        Some(size),
                        segment,
                    ),
                    rest: s.skip(4),
                }
            },
            OperandSize::Qword => if s.len() < 8 {
                OperandResult::Fail { err: stream_end_error(fail), rest: s.skip(s.len() as int) }
            } else {
                OperandResult::Got {
                    op: Operand::Memory(
                        spec_le64(s[0], s[1], s[2], s[3], s[4], s[5], s[6], s[7]),
                        Some(size),
                        segment,
                    ),
                    rest: s.skip(8),
                }
            },
            _ => OperandResult::Fail {
                err: InstructionDecodingError::InvalidInstruction,
                rest: s,
            },
        },
        OperandEncoding::Fixed => match od.op_type {
            OperandType::Fixed(FixedOperand::Reg(r)) => OperandResult::Got {
                op: Operand::Direct(r),
                rest: s,
            },
            OperandType::Fixed(FixedOperand::Constant(v)) => match size {
                OperandSize::Unsized => OperandResult::Got {
                    op: Operand::Literal8((v & 0xFF) as u8),
                    rest: s,
                },
                OperandSize::Byte => OperandResult::Got {
                    op: Operand::Literal8((v & 0xFF) as u8),
                    rest: s,
                },
                OperandSize::Word => OperandResult::Got {
                    op: Operand::Literal16((v & 0xFFFF) as u16),
                    rest: s,
                },
                OperandSize::Dword => OperandResult::Got {
                    op: Operand::Literal32(v),
                    rest: s,
                },
                OperandSize::Qword => OperandResult::Got {
                    op: Operand::Literal64(v as u64),
                    rest: s,
                },
                _ => OperandResult::Fail {
                    err: InstructionDecodingError::InvalidInstruction,
                    rest: s,
                },
            },
            OperandType::Fixed(FixedOperand::AccumulatorSized) => match spec_sized_accumulator(
                size,
            ) {
                Some(r) => OperandResult::Got { op: Operand::Direct(r), rest: s },
                None => OperandResult::Fail {
                    err: InstructionDecodingError::InvalidInstruction,
                    rest: s,
                },
            },
            _ => OperandResult::Fail {
                err: InstructionDecodingError::InvalidInstruction,
                rest: s,
            },
        },
    }
}

/// What the whole operand stage yields: up to four operands, filled in
/// order from the definition's slots, stopping at the first empty slot.
pub ghost enum OperandsResult {
    Done {
        op1: Option<Operand>,
        op2: Option<Operand>,
        op3: Option<Operand>,
        op4: Option<Operand>,
        rest: Seq<u8>,
    },
    Fail { err: InstructionDecodingError, rest: Seq<u8> },
}

/// Decode every declared operand slot, in order.
pub open spec fn spec_operands(
    mode: Mode,
    def: InstructionDefinition,
    buffer: InstructionBuffer,
    b_ext: u8,
    s: Seq<u8>,
    fail: bool,
) -> OperandsResult {
    match def.operand1 {
        None => OperandsResult::Done { op1: None, op2: None, op3: None, op4: None, rest: s },
        Some(od1) => match spec_operand(mode, od1, buffer, b_ext, s, fail) {
            OperandResult::Fail { err, rest } => OperandsResult::Fail { err, rest },
            OperandResult::Got { op: o1, rest: s1 } => match def.operand2 {
                None => OperandsResult::Done {
                    op1: Some(o1),
                    op2: None,
                    op3: None,
                    op4: None,
                    rest: s1,
                },
                Some(od2) => match spec_operand(mode, od2, buffer, b_ext, s1, fail) {
                    OperandResult::Fail { err, rest } => OperandsResult::Fail { err, rest },
                    OperandResult::Got { op: o2, rest: s2 } => match def.operand3 {
                        None => OperandsResult::Done {
                            op1: Some(o1),
                            op2: Some(o2),
                            op3: None,
                            op4: None,
                            rest: s2,
                        },
                        Some(od3) => match spec_operand(mode, od3, buffer, b_ext, s2, fail) {
                            OperandResult::Fail { err, rest } => OperandsResult::Fail { err, rest },
                            OperandResult::Got { op: o3, rest: s3 } => match def.operand4 {
                                None => OperandsResult::Done {
                                    op1: Some(o1),
                                    op2: Some(o2),
                                    op3: Some(o3),
                                    op4: None,
                                    rest: s3,
                                },
                                Some(od4) => match spec_operand(
                                    mode,
                                    od4,
                                    buffer,
                                    b_ext,
                                    s3,
                                    fail,
                                ) {
                                    OperandResult::Fail { err, rest } => OperandsResult::Fail {
                                        err,
                                        rest,
                                    },
                                    OperandResult::Got { op: o4, rest: s4 } => OperandsResult::Done {
                                        op1: Some(o1),
                                        op2: Some(o2),
                                        op3: Some(o3),
                                        op4: Some(o4),
                                        rest: s4,
                                    },
                                },
                            },
                        },
                    },
                },
            },
        },
    }
}

/// Assemble the instruction: the definition's mnemonic, the operands, and
/// the side-channels the prefixes recorded. The EVEX `b` bit is kept in the
/// buffer, but what it means — broadcast, SAE or a static rounding override
/// — depends on per-instruction data the catalogue does not carry, so those
/// three fields stay empty.
pub open spec fn spec_assemble(
    def: InstructionDefinition,
    buffer: InstructionBuffer,
    op1: Option<Operand>,
    op2: Option<Operand>,
    op3: Option<Operand>,
    op4: Option<Operand>,
) -> Instruction {
    Instruction {
        mnemonic: def.mnemonic,
        operand1: op1,
        operand2: op2,
        operand3: op3,
        operand4: op4,
        lock: buffer.prefix1 == Some(Prefix1::Lock),
        rounding_mode: None,
        merge_mode: buffer.merge_mode,
        sae: false,
        mask: match buffer.mask_reg {
            Some(k) => MaskReg::spec_from_code(k),
            None => None,
        },
        broadcast: None,
    }
}

/// What one whole `read` yields.
pub ghost enum ReadResult {
    Read { insn: Instruction, rest: Seq<u8> },
    Fail { err: InstructionDecodingError, rest: Seq<u8> },
}

/// One whole `read` over the remaining stream: `EndOfStream` exactly when
/// the stream is cleanly empty; otherwise prefixes, opcode resolution and
/// operands in order.
pub open spec fn spec_read(mode: Mode, s: Seq<u8>, fail: bool) -> ReadResult {
    if s.len() == 0 && !fail {
        ReadResult::Fail { err: InstructionDecodingError::EndOfStream, rest: s }
    } else {
        match spec_prefixes(mode, PrefixAcc::spec_init(), s, fail) {
            PrefixResult::Fail { err, rest } => ReadResult::Fail { err, rest },
            PrefixResult::Opcode { acc, opcode, rest: s1 } => match spec_resolve(
                mode,
                acc,
                opcode,
                s1,
                fail,
            ) {
                ResolveResult::Fail { err, rest } => ReadResult::Fail { err, rest },
                ResolveResult::Resolved { buffer, b_ext, def, rest: s2 } => match spec_operands(
                    mode,
                    def,
                    buffer,
                    b_ext,
                    s2,
                    fail,
                ) {
                    OperandsResult::Fail { err, rest } => ReadResult::Fail { err, rest },
                    OperandsResult::Done { op1, op2, op3, op4, rest: s3 } => ReadResult::Read {
                        insn: spec_assemble(def, buffer, op1, op2, op3, op4),
                        rest: s3,
                    },
                },
            },
        }
    }
}

/// Whether a read outcome is the `EndOfStream` error.
pub open spec fn spec_is_end_of_stream(r: ReadResult) -> bool {
    match r {
        ReadResult::Fail { err, rest } => err == InstructionDecodingError::EndOfStream,
        ReadResult::Read { .. } => false,
    }
}

/// The errors a decode can hit once it is under way: a structurally
/// impossible encoding, an opcode the catalogue does not know, or the
/// stream running dry — which reports `ReadError` when the source ends in
/// an error and `PartialInstruction` when it ends cleanly.
pub open spec fn spec_mid_decode_error(err: InstructionDecodingError, fail: bool) -> bool {
    err == InstructionDecodingError::InvalidInstruction || err
        == InstructionDecodingError::UnknownOpcode || err == stream_end_error(fail)
}

/// The prefix stage only fails with mid-decode errors: once a read has
/// begun, a stream that runs dry is a partial instruction or a read error,
/// never `EndOfStream`.
proof fn lemma_prefixes_mid_errors_only(mode: Mode, acc: PrefixAcc, s: Seq<u8>, fail: bool)
    ensures
        match spec_prefixes(mode, acc, s, fail) {
            PrefixResult::Fail { err, rest } => spec_mid_decode_error(err, fail),
            PrefixResult::Opcode { .. } => true,
        },
    decreases s.len(),
{
    match spec_prefix_step(mode, acc, s, fail) {
        PrefixStep::Continue { acc2, rest } => {
            lemma_prefix_step_shrinks(mode, acc, s, fail);
            lemma_prefixes_mid_errors_only(mode, acc2, rest, fail);
        },
        PrefixStep::Opcode { .. } => {},
        PrefixStep::Fail { .. } => {},
    }
}

/// The SIB stage only fails with mid-decode errors.
proof fn lemma_sib_mid_errors_only(
    mode: Mode,
    od: OperandDefinition,
    buffer: InstructionBuffer,
    md: u8,
    s: Seq<u8>,
    fail: bool,
)
    ensures
        match spec_sib(mode, od, buffer, md, s, fail) {
            OperandResult::Fail { err, rest } => spec_mid_decode_error(err, fail),
            OperandResult::Got { .. } => true,
        },
{
}

/// The r/m stage only fails with mid-decode errors.
proof fn lemma_rm_mid_errors_only(
    mode: Mode,
    rt: RegType,
    od: OperandDefinition,
    buffer: InstructionBuffer,
    s: Seq<u8>,
    fail: bool,
)
    ensures
        match spec_rm(mode, rt, od, buffer, s, fail) {
            OperandResult::Fail { err, rest } => spec_mid_decode_error(err, fail),
            OperandResult::Got { .. } => true,
        },
{
    let addr_size = spec_address_size(mode, buffer.address_size_prefix);
    match (buffer.mod_rm_rm, buffer.mod_rm_mod) {
        (Some(rm), Some(md)) => {
            if addr_size != OperandSize::Word && rm & 0x7 == 4 {
                lemma_sib_mid_errors_only(mode, od, buffer, md, s, fail);
            }
        },
        _ => {},
    }
}

/// An operand slot only fails with mid-decode errors.
proof fn lemma_operand_mid_errors_only(
    mode: Mode,
    od: OperandDefinition,
    buffer: InstructionBuffer,
    b_ext: u8,
    s: Seq<u8>,
    fail: bool,
)
    ensures
        match spec_operand(mode, od, buffer, b_ext, s, fail) {
            OperandResult::Fail { err, rest } => spec_mid_decode_error(err, fail),
            OperandResult::Got { .. } => true,
        },
{
    lemma_rm_mid_errors_only(mode, spec_rm_reg_type(od), od, buffer, s, fail);
}

/// The whole operand stage only fails with mid-decode errors.
proof fn lemma_operands_mid_errors_only(
    mode: Mode,
    def: InstructionDefinition,
    buffer: InstructionBuffer,
    b_ext: u8,
    s: Seq<u8>,
    fail: bool,
)
    ensures
        match spec_operands(mode, def, buffer, b_ext, s, fail) {
            OperandsResult::Fail { err, rest } => spec_mid_decode_error(err, fail),
            OperandsResult::Done { .. } => true,
        },
{
    if let Some(od1) = def.operand1 {
        lemma_operand_mid_errors_only(mode, od1, buffer, b_ext, s, fail);
        if let OperandResult::Got { op: o1, rest: s1 } = spec_operand(
            mode,
            od1,
            buffer,
            b_ext,
            s,
            fail,
        ) {
            if let Some(od2) = def.operand2 {
                lemma_operand_mid_errors_only(mode, od2, buffer, b_ext, s1, fail);
                if let OperandResult::Got { op: o2, rest: s2 } = spec_operand(
                    mode,
                    od2,
                    buffer,
                    b_ext,
                    s1,
                    fail,
                ) {
                    if let Some(od3) = def.operand3 {
                        lemma_operand_mid_errors_only(mode, od3, buffer, b_ext, s2, fail);
                        if let OperandResult::Got { op: o3, rest: s3 } = spec_operand(
                            mode,
                            od3,
                            buffer,
                            b_ext,
                            s2,
                            fail,
                        ) {
                            if let Some(od4) = def.operand4 {
                                lemma_operand_mid_errors_only(mode, od4, buffer, b_ext, s3, fail);
                            }
                        }
                    }
                }
            }
        }
    }
}

/// Opcode resolution only fails with mid-decode errors.
proof fn lemma_resolve_mid_errors_only(
    mode: Mode,
    acc: PrefixAcc,
    opcode: u8,
    s: Seq<u8>,
    fail: bool,
)
    ensures
        match spec_resolve(mode, acc, opcode, s, fail) {
            ResolveResult::Fail { err, rest } => spec_mid_decode_error(err, fail),
            ResolveResult::Resolved { .. } => true,
        },
{
}

/// A `read` returns `EndOfStream` exactly when its first look at the source
/// sees a clean end of stream: the stream is empty and does not end in a
/// read error. Every other failure is a mid-decode error, so `ReadError`
/// comes only from a source that ends in a read error, and
/// `PartialInstruction` only from one that ends cleanly.
pub proof fn lemma_end_of_stream_iff_empty(mode: Mode, s: Seq<u8>, fail: bool)
    ensures
        spec_is_end_of_stream(spec_read(mode, s, fail)) <==> (s.len() == 0 && !fail),
        match spec_read(mode, s, fail) {
            ReadResult::Fail { err, rest } => err == InstructionDecodingError::EndOfStream
                || spec_mid_decode_error(err, fail),
            ReadResult::Read { .. } => true,
        },
        match spec_read(mode, s, fail) {
            ReadResult::Fail { err, rest } => (err == InstructionDecodingError::ReadError
                ==> fail) && (err == InstructionDecodingError::PartialInstruction ==> !fail),
            ReadResult::Read { .. } => true,
        },
{
    if !(s.len() == 0 && !fail) {
        lemma_prefixes_mid_errors_only(mode, PrefixAcc::spec_init(), s, fail);
        match spec_prefixes(mode, PrefixAcc::spec_init(), s, fail) {
            PrefixResult::Opcode { acc, opcode, rest } => {
                lemma_resolve_mid_errors_only(mode, acc, opcode, rest, fail);
                match spec_resolve(mode, acc, opcode, rest, fail) {
                    ResolveResult::Resolved { buffer, b_ext, def, rest: s2 } => {
                        lemma_operands_mid_errors_only(mode, def, buffer, b_ext, s2, fail);
                    },
                    ResolveResult::Fail { .. } => {},
                }
            },
            PrefixResult::Fail { .. } => {},
        }
    }
}

} // verus!
