//! The instruction-definition catalogue the decoder queries.
//!
//! A definition names the mnemonic, the opcode extension the opcode shares
//! its primary byte under (if any), and up to four operand slots, each with
//! an encoding, an operand kind and a nominal size. The built-in catalogue
//! carries the definitions the decoder is exercised against; it is queried
//! only through [`find_instruction_def_by_opcode`].

use vstd::prelude::*;

use crate::insn::{Mnemonic, Mode, OperandSize};
use crate::regs::{Reg, RegType};

verus! {

/// Where an operand's bits come from.
#[derive(Clone, Copy, Debug, PartialEq, Eq)]
pub enum OperandEncoding {
    /// The `reg` field of ModR/M.
    ModRmReg,
    /// The `r/m` field of ModR/M, with its addressing sub-machine.
    ModRmRm,
    /// The VEX/EVEX `vvvv` field.
    Vex,
    /// Bytes following the opcode: an immediate, a register code, or a far
    /// pointer.
    Imm,
    /// The low three bits of the primary opcode byte.
    OpcodeAddend,
    /// An absolute displacement as wide as the address size.
    Offset,
    /// As ModRmRm, but an index scale beyond 1 is rejected.
    Mib,
    /// An operand fixed by the definition itself.
    Fixed,
}

/// A fixed operand declared by a definition.
#[derive(Clone, Copy, Debug, PartialEq, Eq)]
pub enum FixedOperand {
    /// A fixed register.
    Reg(Reg),
    /// A fixed constant, truncated to the slot's size.
    Constant(u32),
    /// The accumulator at the computed operand size: AX, EAX or RAX.
    AccumulatorSized,
}

/// What kind of value an operand slot holds.
#[derive(Clone, Copy, Debug, PartialEq, Eq)]
pub enum OperandType {
    /// A register of the given kind.
    Reg(RegType),
    /// An immediate literal.
    Imm,
    /// A memory reference.
    Mem,
    /// A far pointer `segment:offset`.
    FarPointer,
    /// A fixed operand.
    Fixed(FixedOperand),
}

/// The nominal size a definition declares for a slot, before the mode and
/// the prefixes are applied.
#[derive(Clone, Copy, Debug, PartialEq, Eq)]
pub enum NominalSize {
    /// A size the opcode fixes outright.
    Fixed(OperandSize),
    /// The mode's natural size: 16/32/64 bit as the mode, the W bit and the
    /// operand-size prefix decide.
    Natural,
    /// A vector size: 128/256/512 bit as the VEX/EVEX length bits decide.
    Vector,
}

/// One operand slot of a definition.
#[derive(Clone, Copy, Debug, PartialEq, Eq)]
pub struct OperandDefinition {
    pub encoding: OperandEncoding,
    pub op_type: OperandType,
    pub size: NominalSize,
}

/// One catalogue entry.
#[derive(Clone, Copy, Debug, PartialEq, Eq)]
pub struct InstructionDefinition {
    pub mnemonic: Mnemonic,
    /// The ModR/M `reg` value this entry requires, where several opcodes
    /// share a primary byte.
    pub opcode_ext: Option<u8>,
    pub operand1: Option<OperandDefinition>,
    pub operand2: Option<OperandDefinition>,
    pub operand3: Option<OperandDefinition>,
    pub operand4: Option<OperandDefinition>,
}

/// Why a catalogue lookup failed.
#[derive(Clone, Copy, Debug, PartialEq, Eq)]
pub enum FindInstructionDefByOpcodeError {
    /// No entry matches the key.
    NotFound,
    /// Entries under this opcode differ only in their opcode extension: the
    /// caller must read ModR/M and ask again with its `reg` field.
    NeedOpcodeExt,
}

/// `ADD r/m, r` (opcode 0x01).
pub open spec fn def_add() -> InstructionDefinition {
    InstructionDefinition {
        mnemonic: Mnemonic::ADD,
        opcode_ext: None,
        operand1: Some(OperandDefinition {
            encoding: OperandEncoding::ModRmRm,
            op_type: OperandType::Reg(RegType::General),
            size: NominalSize::Natural,
        }),
        operand2: Some(OperandDefinition {
            encoding: OperandEncoding::ModRmReg,
            op_type: OperandType::Reg(RegType::General),
            size: NominalSize::Natural,
        }),
        operand3: None,
        operand4: None,
    }
}

/// `INC r` / `DEC r` (opcodes 0x40–0x4F outside long mode).
pub open spec fn def_inc_dec(mnemonic: Mnemonic) -> InstructionDefinition {
    InstructionDefinition {
        mnemonic: mnemonic,
        opcode_ext: None,
        operand1: Some(OperandDefinition {
            encoding: OperandEncoding::OpcodeAddend,
            op_type: OperandType::Reg(RegType::General),
            size: NominalSize::Natural,
        }),
        operand2: None,
        operand3: None,
        operand4: None,
    }
}

/// `MOV acc, moffs` (opcode 0xA1).
pub open spec fn def_mov_offset() -> InstructionDefinition {
    InstructionDefinition {
        mnemonic: Mnemonic::MOV,
        opcode_ext: None,
        operand1: Some(OperandDefinition {
            encoding: OperandEncoding::Fixed,
            op_type: OperandType::Fixed(FixedOperand::AccumulatorSized),
            size: NominalSize::Natural,
        }),
        operand2: Some(OperandDefinition {
            encoding: OperandEncoding::Offset,
            op_type: OperandType::Mem,
            size: NominalSize::Natural,
        }),
        operand3: None,
        operand4: None,
    }
}

/// `MOV r, imm` (opcodes 0xB8–0xBF).
pub open spec fn def_mov_imm() -> InstructionDefinition {
    InstructionDefinition {
        mnemonic: Mnemonic::MOV,
        opcode_ext: None,
        operand1: Some(OperandDefinition {
            encoding: OperandEncoding::OpcodeAddend,
            op_type: OperandType::Reg(RegType::General),
            size: NominalSize::Natural,
        }),
        operand2: Some(OperandDefinition {
            encoding: OperandEncoding::Imm,
            op_type: OperandType::Imm,
            size: NominalSize::Natural,
        }),
        operand3: None,
        operand4: None,
    }
}

/// `JMP ptr16:16/32` (opcode 0xEA outside long mode).
pub open spec fn def_jmp_far() -> InstructionDefinition {
    InstructionDefinition {
        mnemonic: Mnemonic::JMP,
        opcode_ext: None,
        operand1: Some(OperandDefinition {
            encoding: OperandEncoding::Imm,
            op_type: OperandType::FarPointer,
            size: NominalSize::Natural,
        }),
        operand2: None,
        operand3: None,
        operand4: None,
    }
}

/// `FCMOVE ST, ST(i)` (opcode 0xDA with extension 1).
pub open spec fn def_fcmove() -> InstructionDefinition {
    InstructionDefinition {
        mnemonic: Mnemonic::FCMOVE,
        opcode_ext: Some(1),
        operand1: Some(OperandDefinition {
            encoding: OperandEncoding::Fixed,
            op_type: OperandType::Fixed(FixedOperand::Reg(Reg::ST)),
            size: NominalSize::Fixed(OperandSize::Unsized),
        }),
        operand2: Some(OperandDefinition {
            encoding: OperandEncoding::ModRmRm,
            op_type: OperandType::Reg(RegType::Fpu),
            size: NominalSize::Fixed(OperandSize::Unsized),
        }),
        operand3: None,
        operand4: None,
    }
}

/// `XSAVEC mem` (opcode 0F C7 with extension 4).
pub open spec fn def_xsavec() -> InstructionDefinition {
    InstructionDefinition {
        mnemonic: Mnemonic::XSAVEC,
        opcode_ext: Some(4),
        operand1: Some(OperandDefinition {
            encoding: OperandEncoding::ModRmRm,
            op_type: OperandType::Mem,
            size: NominalSize::Fixed(OperandSize::Unsized),
        }),
        operand2: None,
        operand3: None,
        operand4: None,
    }
}

/// The opmask three-operand form `K*, K*, K*` shared by KANDB, KORQ and
/// KXNORQ (opcodes 0F 41 / 0F 45 / 0F 46).
pub open spec fn def_mask_op(mnemonic: Mnemonic) -> InstructionDefinition {
    InstructionDefinition {
        mnemonic: mnemonic,
        opcode_ext: None,
        operand1: Some(OperandDefinition {
            encoding: OperandEncoding::ModRmReg,
            op_type: OperandType::Reg(RegType::Mask),
            size: NominalSize::Fixed(OperandSize::Unsized),
        }),
        operand2: Some(OperandDefinition {
            encoding: OperandEncoding::Vex,
            op_type: OperandType::Reg(RegType::Mask),
            size: NominalSize::Fixed(OperandSize::Unsized),
        }),
        operand3: Some(OperandDefinition {
            encoding: OperandEncoding::ModRmRm,
            op_type: OperandType::Reg(RegType::Mask),
            size: NominalSize::Fixed(OperandSize::Unsized),
        }),
        operand4: None,
    }
}

/// The catalogue lookup: the entry under the opcode map (one-byte or
/// two-byte), primary and secondary opcode bytes, opcode extension and
/// mode. `NeedOpcodeExt` asks the caller to read ModR/M and retry with its
/// `reg` field.
pub open spec fn spec_find_instruction_def_by_opcode(
    is_two_byte: bool,
    primary: u8,
    secondary: Option<u8>,
    opcode_ext: Option<u8>,
    mode: Mode,
) -> Result<InstructionDefinition, FindInstructionDefByOpcodeError> {
    if secondary is Some {
        Err(FindInstructionDefByOpcodeError::NotFound)
    } else if !is_two_byte {
        if primary == 0x01 {
            Ok(def_add())
        } else if 0x40 <= primary && primary <= 0x47 && mode != Mode::Long {
            Ok(def_inc_dec(Mnemonic::INC))
        } else if 0x48 <= primary && primary <= 0x4F && mode != Mode::Long {
            Ok(def_inc_dec(Mnemonic::DEC))
        } else if primary == 0xA1 {
            Ok(def_mov_offset())
        } else if 0xB8 <= primary && primary <= 0xBF {
            Ok(def_mov_imm())
        } else if primary == 0xEA && mode != Mode::Long {
            Ok(def_jmp_far())
        } else if primary == 0xDA {
            match opcode_ext {
                None => Err(FindInstructionDefByOpcodeError::NeedOpcodeExt),
                Some(e) => if e == 1 {
                    Ok(def_fcmove())
                } else {
                    Err(FindInstructionDefByOpcodeError::NotFound)
                },
            }
        } else {
            Err(FindInstructionDefByOpcodeError::NotFound)
        }
    } else {
        if primary == 0x41 {
            Ok(def_mask_op(Mnemonic::KANDB))
        } else if primary == 0x45 {
            Ok(def_mask_op(Mnemonic::KORQ))
        } else if primary == 0x46 {
            Ok(def_mask_op(Mnemonic::KXNORQ))
        } else if primary == 0xC7 {
            match opcode_ext {
                None => Err(FindInstructionDefByOpcodeError::NeedOpcodeExt),
                Some(e) => if e == 4 {
                    Ok(def_xsavec())
                } else {
                    Err(FindInstructionDefByOpcodeError::NotFound)
                },
            }
        } else {
            Err(FindInstructionDefByOpcodeError::NotFound)
        }
    }
}

pub fn find_instruction_def_by_opcode(
    is_two_byte: bool,
    primary: u8,
    secondary: Option<u8>,
    opcode_ext: Option<u8>,
    mode: Mode,
) -> (r: Result<InstructionDefinition, FindInstructionDefByOpcodeError>)
    ensures
        r == spec_find_instruction_def_by_opcode(is_two_byte, primary, secondary, opcode_ext, mode),
{
    let long = matches!(mode, Mode::Long);
    if secondary.is_some() {
        Err(FindInstructionDefByOpcodeError::NotFound)
    } else if !is_two_byte {
        if primary == 0x01 {
            Ok(exec_def_add())
        } else if 0x40 <= primary && primary <= 0x47 && !long {
            Ok(exec_def_inc_dec(Mnemonic::INC))
        } else if 0x48 <= primary && primary <= 0x4F && !long {
            Ok(exec_def_inc_dec(Mnemonic::DEC))
        } else if primary == 0xA1 {
            Ok(exec_def_mov_offset())
        } else if 0xB8 <= primary && primary <= 0xBF {
            Ok(exec_def_mov_imm())
        } else if primary == 0xEA && !long {
            Ok(exec_def_jmp_far())
        } else if primary == 0xDA {
            match opcode_ext {
                None => Err(FindInstructionDefByOpcodeError::NeedOpcodeExt),
                Some(e) => if e == 1 {
                    Ok(exec_def_fcmove())
                } else {
                    Err(FindInstructionDefByOpcodeError::NotFound)
                },
            }
        } else {
            Err(FindInstructionDefByOpcodeError::NotFound)
        }
    } else {
        if primary == 0x41 {
            Ok(exec_def_mask_op(Mnemonic::KANDB))
        } else if primary == 0x45 {
            Ok(exec_def_mask_op(Mnemonic::KORQ))
        } else if primary == 0x46 {
            Ok(exec_def_mask_op(Mnemonic::KXNORQ))
        } else if primary == 0xC7 {
            match opcode_ext {
                None => Err(FindInstructionDefByOpcodeError::NeedOpcodeExt),
                Some(e) => if e == 4 {
                    Ok(exec_def_xsavec())
                } else {
                    Err(FindInstructionDefByOpcodeError::NotFound)
                },
            }
        } else {
            Err(FindInstructionDefByOpcodeError::NotFound)
        }
    }
}

fn exec_def_add() -> (r: InstructionDefinition)
    ensures
        r == def_add(),
{
    InstructionDefinition {
        mnemonic: Mnemonic::ADD,
        opcode_ext: None,
        operand1: Some(OperandDefinition {
            encoding: OperandEncoding::ModRmRm,
            op_type: OperandType::Reg(RegType::General),
            size: NominalSize::Natural,
        }),
        operand2: Some(OperandDefinition {
            encoding: OperandEncoding::ModRmReg,
            op_type: OperandType::Reg(RegType::General),
            size: NominalSize::Natural,
        }),
        operand3: None,
        operand4: None,
    }
}

fn exec_def_inc_dec(mnemonic: Mnemonic) -> (r: InstructionDefinition)
    ensures
        r == def_inc_dec(mnemonic),
{
    InstructionDefinition {
        mnemonic: mnemonic,
        opcode_ext: None,
        operand1: Some(OperandDefinition {
            encoding: OperandEncoding::OpcodeAddend,
            op_type: OperandType::Reg(RegType::General),
            size: NominalSize::Natural,
        }),
        operand2: None,
        operand3: None,
        operand4: None,
    }
}

fn exec_def_mov_offset() -> (r: InstructionDefinition)
    ensures
        r == def_mov_offset(),
{
    InstructionDefinition {
        mnemonic: Mnemonic::MOV,
        opcode_ext: None,
        operand1: Some(OperandDefinition {
            encoding: OperandEncoding::Fixed,
            op_type: OperandType::Fixed(FixedOperand::AccumulatorSized),
            size: NominalSize::Natural,
        }),
        operand2: Some(OperandDefinition {
            encoding: OperandEncoding::Offset,
            op_type: OperandType::Mem,
            size: NominalSize::Natural,
        }),
        operand3: None,
        operand4: None,
    }
}

fn exec_def_mov_imm() -> (r: InstructionDefinition)
    ensures
        r == def_mov_imm(),
{
    InstructionDefinition {
        mnemonic: Mnemonic::MOV,
        opcode_ext: None,
        operand1: Some(OperandDefinition {
            encoding: OperandEncoding::OpcodeAddend,
            op_type: OperandType::Reg(RegType::General),
            size: NominalSize::Natural,
        }),
        operand2: Some(OperandDefinition {
            encoding: OperandEncoding::Imm,
            op_type: OperandType::Imm,
            size: NominalSize::Natural,
        }),
        operand3: None,
        operand4: None,
    }
}

fn exec_def_jmp_far() -> (r: InstructionDefinition)
    ensures
        r == def_jmp_far(),
{
    InstructionDefinition {
        mnemonic: Mnemonic::JMP,
        opcode_ext: None,
        operand1: Some(OperandDefinition {
            encoding: OperandEncoding::Imm,
            op_type: OperandType::FarPointer,
            size: NominalSize::Natural,
        }),
        operand2: None,
        operand3: None,
        operand4: None,
    }
}

fn exec_def_fcmove() -> (r: InstructionDefinition)
    ensures
        r == def_fcmove(),
{
    InstructionDefinition {
        mnemonic: Mnemonic::FCMOVE,
        opcode_ext: Some(1),
        operand1: Some(OperandDefinition {
            encoding: OperandEncoding::Fixed,
            op_type: OperandType::Fixed(FixedOperand::Reg(Reg::ST)),
            size: NominalSize::Fixed(OperandSize::Unsized),
        }),
        operand2: Some(OperandDefinition {
            encoding: OperandEncoding::ModRmRm,
            op_type: OperandType::Reg(RegType::Fpu),
            size: NominalSize::Fixed(OperandSize::Unsized),
        }),
        operand3: None,
        operand4: None,
    }
}

fn exec_def_xsavec() -> (r: InstructionDefinition)
    ensures
        r == def_xsavec(),
{
    InstructionDefinition {
        mnemonic: Mnemonic::XSAVEC,
        opcode_ext: Some(4),
        operand1: Some(OperandDefinition {
            encoding: OperandEncoding::ModRmRm,
            op_type: OperandType::Mem,
            size: NominalSize::Fixed(OperandSize::Unsized),
        }),
        operand2: None,
        operand3: None,
        operand4: None,
    }
}

fn exec_def_mask_op(mnemonic: Mnemonic) -> (r: InstructionDefinition)
    ensures
        r == def_mask_op(mnemonic),
{
    InstructionDefinition {
        mnemonic: mnemonic,
        opcode_ext: None,
        operand1: Some(OperandDefinition {
            encoding: OperandEncoding::ModRmReg,
            op_type: OperandType::Reg(RegType::Mask),
            size: NominalSize::Fixed(OperandSize::Unsized),
        }),
        operand2: Some(OperandDefinition {
            encoding: OperandEncoding::Vex,
            op_type: OperandType::Reg(RegType::Mask),
            size: NominalSize::Fixed(OperandSize::Unsized),
        }),
        operand3: Some(OperandDefinition {
            encoding: OperandEncoding::ModRmRm,
            op_type: OperandType::Reg(RegType::Mask),
            size: NominalSize::Fixed(OperandSize::Unsized),
        }),
        operand4: None,
    }
}

} // verus!
