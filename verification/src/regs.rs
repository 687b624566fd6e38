//! Registers and the `(code, kind, size) -> register` conversion tables.
//!
//! Register codes arrive from ModR/M, SIB, VEX and opcode-addend fields with
//! their REX/VEX/EVEX extension bits already merged in, so they range over
//! 0–31; codes with no register of the requested kind and size yield `None`.

use vstd::prelude::*;

use crate::insn::OperandSize;

verus! {

/// Every register the decoder can name.
#[derive(Clone, Copy, Debug, PartialEq, Eq)]
pub enum Reg {
    // 8-bit general purpose, legacy bank.
    AL, CL, DL, BL, AH, CH, DH, BH,
    // 8-bit general purpose, REX bank.
    SPL, BPL, SIL, DIL,
    R8B, R9B, R10B, R11B, R12B, R13B, R14B, R15B,
    // 16-bit general purpose.
    AX, CX, DX, BX, SP, BP, SI, DI,
    R8W, R9W, R10W, R11W, R12W, R13W, R14W, R15W,
    // 32-bit general purpose.
    EAX, ECX, EDX, EBX, ESP, EBP, ESI, EDI,
    R8D, R9D, R10D, R11D, R12D, R13D, R14D, R15D,
    // 64-bit general purpose.
    RAX, RCX, RDX, RBX, RSP, RBP, RSI, RDI,
    R8, R9, R10, R11, R12, R13, R14, R15,
    // Segment registers.
    CS, DS, SS, ES, FS, GS,
    // FPU stack: the current top, and the eight slots.
    ST, ST0, ST1, ST2, ST3, ST4, ST5, ST6, ST7,
    // MMX.
    MM0, MM1, MM2, MM3, MM4, MM5, MM6, MM7,
    // XMM.
    XMM0, XMM1, XMM2, XMM3, XMM4, XMM5, XMM6, XMM7,
    XMM8, XMM9, XMM10, XMM11, XMM12, XMM13, XMM14, XMM15,
    // YMM.
    YMM0, YMM1, YMM2, YMM3, YMM4, YMM5, YMM6, YMM7,
    YMM8, YMM9, YMM10, YMM11, YMM12, YMM13, YMM14, YMM15,
    // ZMM.
    ZMM0, ZMM1, ZMM2, ZMM3, ZMM4, ZMM5, ZMM6, ZMM7,
    ZMM8, ZMM9, ZMM10, ZMM11, ZMM12, ZMM13, ZMM14, ZMM15,
    ZMM16, ZMM17, ZMM18, ZMM19, ZMM20, ZMM21, ZMM22, ZMM23,
    ZMM24, ZMM25, ZMM26, ZMM27, ZMM28, ZMM29, ZMM30, ZMM31,
    // Opmask registers.
    K0, K1, K2, K3, K4, K5, K6, K7,
    // Control and debug registers.
    CR0, CR1, CR2, CR3, CR4, CR5, CR6, CR7, CR8,
    DR0, DR1, DR2, DR3, DR4, DR5, DR6, DR7,
    // Flags registers.
    FLAGS, EFLAGS, RFLAGS,
}

/// The register kind a catalogue operand slot asks for.
#[derive(Clone, Copy, Debug, PartialEq, Eq)]
pub enum RegType {
    General,
    Avx,
    Fpu,
    Mmx,
    Mask,
    Segment,
    Control,
    Debug,
}

/// SIB index scale factor.
#[derive(Clone, Copy, Debug, PartialEq, Eq)]
pub enum RegScale {
    One,
    Two,
    Four,
    Eight,
}

impl RegScale {
    /// The scale named by the two-bit SIB `scale` field.
    pub open spec fn spec_from_sib_code(code: u8) -> Option<RegScale> {
        if code == 0 {
            Some(RegScale::One)
        } else if code == 1 {
            Some(RegScale::Two)
        } else if code == 2 {
            Some(RegScale::Four)
        } else if code == 3 {
            Some(RegScale::Eight)
        } else {
            None
        }
    }

    pub fn from_sib_code(code: u8) -> (r: Option<RegScale>)
        ensures
            r == RegScale::spec_from_sib_code(code),
    {
        if code == 0 {
            Some(RegScale::One)
        } else if code == 1 {
            Some(RegScale::Two)
        } else if code == 2 {
            Some(RegScale::Four)
        } else if code == 3 {
            Some(RegScale::Eight)
        } else {
            None
        }
    }
}

/// A segment override recorded on a memory operand.
#[derive(Clone, Copy, Debug, PartialEq, Eq)]
pub enum SegmentReg {
    CS,
    DS,
    SS,
    ES,
    FS,
    GS,
}

/// An opmask register named by the EVEX `aaa` field; K0 means "no mask" and
/// is never named here.
#[derive(Clone, Copy, Debug, PartialEq, Eq)]
pub enum MaskReg {
    K1,
    K2,
    K3,
    K4,
    K5,
    K6,
    K7,
}

impl MaskReg {
    /// The mask register named by a nonzero EVEX `aaa` field.
    pub open spec fn spec_from_code(code: u8) -> Option<MaskReg> {
        if code == 1 {
            Some(MaskReg::K1)
        } else if code == 2 {
            Some(MaskReg::K2)
        } else if code == 3 {
            Some(MaskReg::K3)
        } else if code == 4 {
            Some(MaskReg::K4)
        } else if code == 5 {
            Some(MaskReg::K5)
        } else if code == 6 {
            Some(MaskReg::K6)
        } else if code == 7 {
            Some(MaskReg::K7)
        } else {
            None
        }
    }

    pub fn from_code(code: u8) -> (r: Option<MaskReg>)
        ensures
            r == MaskReg::spec_from_code(code),
    {
        if code == 1 {
            Some(MaskReg::K1)
        } else if code == 2 {
            Some(MaskReg::K2)
        } else if code == 3 {
            Some(MaskReg::K3)
        } else if code == 4 {
            Some(MaskReg::K4)
        } else if code == 5 {
            Some(MaskReg::K5)
        } else if code == 6 {
            Some(MaskReg::K6)
        } else if code == 7 {
            Some(MaskReg::K7)
        } else {
            None
        }
    }
}

impl Reg {
    /// The 16-bit general-purpose register with the given merged code.
    pub open spec fn spec_from_code_general_16(code: u8) -> Option<Reg> {
        match code {
            0 => Some(Reg::AX),
            1 => Some(Reg::CX),
            2 => Some(Reg::DX),
            3 => Some(Reg::BX),
            4 => Some(Reg::SP),
            5 => Some(Reg::BP),
            6 => Some(Reg::SI),
            7 => Some(Reg::DI),
            8 => Some(Reg::R8W),
            9 => Some(Reg::R9W),
            10 => Some(Reg::R10W),
            11 => Some(Reg::R11W),
            12 => Some(Reg::R12W),
            13 => Some(Reg::R13W),
            14 => Some(Reg::R14W),
            15 => Some(Reg::R15W),
            _ => None,
        }
    }

    pub fn from_code_general_16(code: u8) -> (r: Option<Reg>)
        ensures
            r == Reg::spec_from_code_general_16(code),
    {
        match code {
            0 => Some(Reg::AX),
            1 => Some(Reg::CX),
            2 => Some(Reg::DX),
            3 => Some(Reg::BX),
            4 => Some(Reg::SP),
            5 => Some(Reg::BP),
            6 => Some(Reg::SI),
            7 => Some(Reg::DI),
            8 => Some(Reg::R8W),
            9 => Some(Reg::R9W),
            10 => Some(Reg::R10W),
            11 => Some(Reg::R11W),
            12 => Some(Reg::R12W),
            13 => Some(Reg::R13W),
            14 => Some(Reg::R14W),
            15 => Some(Reg::R15W),
            _ => None,
        }
    }

    /// The 8-bit general-purpose register with the given merged code. With a
    /// REX prefix present, codes 4–7 name the low bytes SPL–DIL instead of
    /// the high bytes AH–BH.
    pub open spec fn spec_from_code_general_8(code: u8, has_rex: bool) -> Option<Reg> {
        match code {
            0 => Some(Reg::AL),
            1 => Some(Reg::CL),
            2 => Some(Reg::DL),
            3 => Some(Reg::BL),
            4 => Some(if has_rex { Reg::SPL } else { Reg::AH }),
            5 => Some(if has_rex { Reg::BPL } else { Reg::CH }),
            6 => Some(if has_rex { Reg::SIL } else { Reg::DH }),
            7 => Some(if has_rex { Reg::DIL } else { Reg::BH }),
            8 => Some(Reg::R8B),
            9 => Some(Reg::R9B),
            10 => Some(Reg::R10B),
            11 => Some(Reg::R11B),
            12 => Some(Reg::R12B),
            13 => Some(Reg::R13B),
            14 => Some(Reg::R14B),
            15 => Some(Reg::R15B),
            _ => None,
        }
    }

    pub fn from_code_general_8(code: u8, has_rex: bool) -> (r: Option<Reg>)
        ensures
            r == Reg::spec_from_code_general_8(code, has_rex),
    {
        match code {
            0 => Some(Reg::AL),
            1 => Some(Reg::CL),
            2 => Some(Reg::DL),
            3 => Some(Reg::BL),
            4 => Some(if has_rex { Reg::SPL } else { Reg::AH }),
            5 => Some(if has_rex { Reg::BPL } else { Reg::CH }),
            6 => Some(if has_rex { Reg::SIL } else { Reg::DH }),
            7 => Some(if has_rex { Reg::DIL } else { Reg::BH }),
            8 => Some(Reg::R8B),
            9 => Some(Reg::R9B),
            10 => Some(Reg::R10B),
            11 => Some(Reg::R11B),
            12 => Some(Reg::R12B),
            13 => Some(Reg::R13B),
            14 => Some(Reg::R14B),
            15 => Some(Reg::R15B),
            _ => None,
        }
    }

    /// The 32-bit general-purpose register with the given merged code.
    pub open spec fn spec_from_code_general_32(code: u8) -> Option<Reg> {
        match code {
            0 => Some(Reg::EAX),
            1 => Some(Reg::ECX),
            2 => Some(Reg::EDX),
            3 => Some(Reg::EBX),
            4 => Some(Reg::ESP),
            5 => Some(Reg::EBP),
            6 => Some(Reg::ESI),
            7 => Some(Reg::EDI),
            8 => Some(Reg::R8D),
            9 => Some(Reg::R9D),
            10 => Some(Reg::R10D),
            11 => Some(Reg::R11D),
            12 => Some(Reg::R12D),
            13 => Some(Reg::R13D),
            14 => Some(Reg::R14D),
            15 => Some(Reg::R15D),
            _ => None,
        }
    }

    pub fn from_code_general_32(code: u8) -> (r: Option<Reg>)
        ensures
            r == Reg::spec_from_code_general_32(code),
    {
        match code {
            0 => Some(Reg::EAX),
            1 => Some(Reg::ECX),
            2 => Some(Reg::EDX),
            3 => Some(Reg::EBX),
            4 => Some(Reg::ESP),
            5 => Some(Reg::EBP),
            6 => Some(Reg::ESI),
            7 => Some(Reg::EDI),
            8 => Some(Reg::R8D),
            9 => Some(Reg::R9D),
            10 => Some(Reg::R10D),
            11 => Some(Reg::R11D),
            12 => Some(Reg::R12D),
            13 => Some(Reg::R13D),
            14 => Some(Reg::R14D),
            15 => Some(Reg::R15D),
            _ => None,
        }
    }

    /// The 64-bit general-purpose register with the given merged code.
    pub open spec fn spec_from_code_general_64(code: u8) -> Option<Reg> {
        match code {
            0 => Some(Reg::RAX),
            1 => Some(Reg::RCX),
            2 => Some(Reg::RDX),
            3 => Some(Reg::RBX),
            4 => Some(Reg::RSP),
            5 => Some(Reg::RBP),
            6 => Some(Reg::RSI),
            7 => Some(Reg::RDI),
            8 => Some(Reg::R8),
            9 => Some(Reg::R9),
            10 => Some(Reg::R10),
            11 => Some(Reg::R11),
            12 => Some(Reg::R12),
            13 => Some(Reg::R13),
            14 => Some(Reg::R14),
            15 => Some(Reg::R15),
            _ => None,
        }
    }

    pub fn from_code_general_64(code: u8) -> (r: Option<Reg>)
        ensures
            r == Reg::spec_from_code_general_64(code),
    {
        match code {
            0 => Some(Reg::RAX),
            1 => Some(Reg::RCX),
            2 => Some(Reg::RDX),
            3 => Some(Reg::RBX),
            4 => Some(Reg::RSP),
            5 => Some(Reg::RBP),
            6 => Some(Reg::RSI),
            7 => Some(Reg::RDI),
            8 => Some(Reg::R8),
            9 => Some(Reg::R9),
            10 => Some(Reg::R10),
            11 => Some(Reg::R11),
            12 => Some(Reg::R12),
            13 => Some(Reg::R13),
            14 => Some(Reg::R14),
            15 => Some(Reg::R15),
            _ => None,
        }
    }

    /// The FPU stack slot with the given code.
    pub open spec fn spec_from_code_fpu(code: u8) -> Option<Reg> {
        match code {
            0 => Some(Reg::ST0),
            1 => Some(Reg::ST1),
            2 => Some(Reg::ST2),
            3 => Some(Reg::ST3),
            4 => Some(Reg::ST4),
            5 => Some(Reg::ST5),
            6 => Some(Reg::ST6),
            7 => Some(Reg::ST7),
            _ => None,
        }
    }

    pub fn from_code_fpu(code: u8) -> (r: Option<Reg>)
        ensures
            r == Reg::spec_from_code_fpu(code),
    {
        match code {
            0 => Some(Reg::ST0),
            1 => Some(Reg::ST1),
            2 => Some(Reg::ST2),
            3 => Some(Reg::ST3),
            4 => Some(Reg::ST4),
            5 => Some(Reg::ST5),
            6 => Some(Reg::ST6),
            7 => Some(Reg::ST7),
            _ => None,
        }
    }

    /// The MMX register with the given code.
    pub open spec fn spec_from_code_mmx(code: u8) -> Option<Reg> {
        match code {
            0 => Some(Reg::MM0),
            1 => Some(Reg::MM1),
            2 => Some(Reg::MM2),
            3 => Some(Reg::MM3),
            4 => Some(Reg::MM4),
            5 => Some(Reg::MM5),
            6 => Some(Reg::MM6),
            7 => Some(Reg::MM7),
            _ => None,
        }
    }

    pub fn from_code_mmx(code: u8) -> (r: Option<Reg>)
        ensures
            r == Reg::spec_from_code_mmx(code),
    {
        match code {
            0 => Some(Reg::MM0),
            1 => Some(Reg::MM1),
            2 => Some(Reg::MM2),
            3 => Some(Reg::MM3),
            4 => Some(Reg::MM4),
            5 => Some(Reg::MM5),
            6 => Some(Reg::MM6),
            7 => Some(Reg::MM7),
            _ => None,
        }
    }

    /// The XMM register with the given merged code.
    pub open spec fn spec_from_code_xmm(code: u8) -> Option<Reg> {
        match code {
            0 => Some(Reg::XMM0),
            1 => Some(Reg::XMM1),
            2 => Some(Reg::XMM2),
            3 => Some(Reg::XMM3),
            4 => Some(Reg::XMM4),
            5 => Some(Reg::XMM5),
            6 => Some(Reg::XMM6),
            7 => Some(Reg::XMM7),
            8 => Some(Reg::XMM8),
            9 => Some(Reg::XMM9),
            10 => Some(Reg::XMM10),
            11 => Some(Reg::XMM11),
            12 => Some(Reg::XMM12),
            13 => Some(Reg::XMM13),
            14 => Some(Reg::XMM14),
            15 => Some(Reg::XMM15),
            _ => None,
        }
    }

    pub fn from_code_xmm(code: u8) -> (r: Option<Reg>)
        ensures
            r == Reg::spec_from_code_xmm(code),
    {
        match code {
            0 => Some(Reg::XMM0),
            1 => Some(Reg::XMM1),
            2 => Some(Reg::XMM2),
            3 => Some(Reg::XMM3),
            4 => Some(Reg::XMM4),
            5 => Some(Reg::XMM5),
            6 => Some(Reg::XMM6),
            7 => Some(Reg::XMM7),
            8 => Some(Reg::XMM8),
            9 => Some(Reg::XMM9),
            10 => Some(Reg::XMM10),
            11 => Some(Reg::XMM11),
            12 => Some(Reg::XMM12),
            13 => Some(Reg::XMM13),
            14 => Some(Reg::XMM14),
            15 => Some(Reg::XMM15),
            _ => None,
        }
    }

    /// The YMM register with the given merged code.
    pub open spec fn spec_from_code_ymm(code: u8) -> Option<Reg> {
        match code {
            0 => Some(Reg::YMM0),
            1 => Some(Reg::YMM1),
            2 => Some(Reg::YMM2),
            3 => Some(Reg::YMM3),
            4 => Some(Reg::YMM4),
            5 => Some(Reg::YMM5),
            6 => Some(Reg::YMM6),
            7 => Some(Reg::YMM7),
            8 => Some(Reg::YMM8),
            9 => Some(Reg::YMM9),
            10 => Some(Reg::YMM10),
            11 => Some(Reg::YMM11),
            12 => Some(Reg::YMM12),
            13 => Some(Reg::YMM13),
            14 => Some(Reg::YMM14),
            15 => Some(Reg::YMM15),
            _ => None,
        }
    }

    pub fn from_code_ymm(code: u8) -> (r: Option<Reg>)
        ensures
            r == Reg::spec_from_code_ymm(code),
    {
        match code {
            0 => Some(Reg::YMM0),
            1 => Some(Reg::YMM1),
            2 => Some(Reg::YMM2),
            3 => Some(Reg::YMM3),
            4 => Some(Reg::YMM4),
            5 => Some(Reg::YMM5),
            6 => Some(Reg::YMM6),
            7 => Some(Reg::YMM7),
            8 => Some(Reg::YMM8),
            9 => Some(Reg::YMM9),
            10 => Some(Reg::YMM10),
            11 => Some(Reg::YMM11),
            12 => Some(Reg::YMM12),
            13 => Some(Reg::YMM13),
            14 => Some(Reg::YMM14),
            15 => Some(Reg::YMM15),
            _ => None,
        }
    }

    /// The ZMM register with the given merged code.
    pub open spec fn spec_from_code_zmm(code: u8) -> Option<Reg> {
        match code {
            0 => Some(Reg::ZMM0),
            1 => Some(Reg::ZMM1),
            2 => Some(Reg::ZMM2),
            3 => Some(Reg::ZMM3),
            4 => Some(Reg::ZMM4),
            5 => Some(Reg::ZMM5),
            6 => Some(Reg::ZMM6),
            7 => Some(Reg::ZMM7),
            8 => Some(Reg::ZMM8),
            9 => Some(Reg::ZMM9),
            10 => Some(Reg::ZMM10),
            11 => Some(Reg::ZMM11),
            12 => Some(Reg::ZMM12),
            13 => Some(Reg::ZMM13),
            14 => Some(Reg::ZMM14),
            15 => Some(Reg::ZMM15),
            16 => Some(Reg::ZMM16),
            17 => Some(Reg::ZMM17),
            18 => Some(Reg::ZMM18),
            19 => Some(Reg::ZMM19),
            20 => Some(Reg::ZMM20),
            21 => Some(Reg::ZMM21),
            22 => Some(Reg::ZMM22),
            23 => Some(Reg::ZMM23),
            24 => Some(Reg::ZMM24),
            25 => Some(Reg::ZMM25),
            26 => Some(Reg::ZMM26),
            27 => Some(Reg::ZMM27),
            28 => Some(Reg::ZMM28),
            29 => Some(Reg::ZMM29),
            30 => Some(Reg::ZMM30),
            31 => Some(Reg::ZMM31),
            _ => None,
        }
    }

    pub fn from_code_zmm(code: u8) -> (r: Option<Reg>)
        ensures
            r == Reg::spec_from_code_zmm(code),
    {
        match code {
            0 => Some(Reg::ZMM0),
            1 => Some(Reg::ZMM1),
            2 => Some(Reg::ZMM2),
            3 => Some(Reg::ZMM3),
            4 => Some(Reg::ZMM4),
            5 => Some(Reg::ZMM5),
            6 => Some(Reg::ZMM6),
            7 => Some(Reg::ZMM7),
            8 => Some(Reg::ZMM8),
            9 => Some(Reg::ZMM9),
            10 => Some(Reg::ZMM10),
            11 => Some(Reg::ZMM11),
            12 => Some(Reg::ZMM12),
            13 => Some(Reg::ZMM13),
            14 => Some(Reg::ZMM14),
            15 => Some(Reg::ZMM15),
            16 => Some(Reg::ZMM16),
            17 => Some(Reg::ZMM17),
            18 => Some(Reg::ZMM18),
            19 => Some(Reg::ZMM19),
            20 => Some(Reg::ZMM20),
            21 => Some(Reg::ZMM21),
            22 => Some(Reg::ZMM22),
            23 => Some(Reg::ZMM23),
            24 => Some(Reg::ZMM24),
            25 => Some(Reg::ZMM25),
            26 => Some(Reg::ZMM26),
            27 => Some(Reg::ZMM27),
            28 => Some(Reg::ZMM28),
            29 => Some(Reg::ZMM29),
            30 => Some(Reg::ZMM30),
            31 => Some(Reg::ZMM31),
            _ => None,
        }
    }

    /// The opmask register with the given code.
    pub open spec fn spec_from_code_mask(code: u8) -> Option<Reg> {
        match code {
            0 => Some(Reg::K0),
            1 => Some(Reg::K1),
            2 => Some(Reg::K2),
            3 => Some(Reg::K3),
            4 => Some(Reg::K4),
            5 => Some(Reg::K5),
            6 => Some(Reg::K6),
            7 => Some(Reg::K7),
            _ => None,
        }
    }

    pub fn from_code_mask(code: u8) -> (r: Option<Reg>)
        ensures
            r == Reg::spec_from_code_mask(code),
    {
        match code {
            0 => Some(Reg::K0),
            1 => Some(Reg::K1),
            2 => Some(Reg::K2),
            3 => Some(Reg::K3),
            4 => Some(Reg::K4),
            5 => Some(Reg::K5),
            6 => Some(Reg::K6),
            7 => Some(Reg::K7),
            _ => None,
        }
    }

    /// The control register with the given code.
    pub open spec fn spec_from_code_control(code: u8) -> Option<Reg> {
        match code {
            0 => Some(Reg::CR0),
            1 => Some(Reg::CR1),
            2 => Some(Reg::CR2),
            3 => Some(Reg::CR3),
            4 => Some(Reg::CR4),
            5 => Some(Reg::CR5),
            6 => Some(Reg::CR6),
            7 => Some(Reg::CR7),
            8 => Some(Reg::CR8),
            _ => None,
        }
    }

    pub fn from_code_control(code: u8) -> (r: Option<Reg>)
        ensures
            r == Reg::spec_from_code_control(code),
    {
        match code {
            0 => Some(Reg::CR0),
            1 => Some(Reg::CR1),
            2 => Some(Reg::CR2),
            3 => Some(Reg::CR3),
            4 => Some(Reg::CR4),
            5 => Some(Reg::CR5),
            6 => Some(Reg::CR6),
            7 => Some(Reg::CR7),
            8 => Some(Reg::CR8),
            _ => None,
        }
    }

    /// The debug register with the given code.
    pub open spec fn spec_from_code_debug(code: u8) -> Option<Reg> {
        match code {
            0 => Some(Reg::DR0),
            1 => Some(Reg::DR1),
            2 => Some(Reg::DR2),
            3 => Some(Reg::DR3),
            4 => Some(Reg::DR4),
            5 => Some(Reg::DR5),
            6 => Some(Reg::DR6),
            7 => Some(Reg::DR7),
            _ => None,
        }
    }

    pub fn from_code_debug(code: u8) -> (r: Option<Reg>)
        ensures
            r == Reg::spec_from_code_debug(code),
    {
        match code {
            0 => Some(Reg::DR0),
            1 => Some(Reg::DR1),
            2 => Some(Reg::DR2),
            3 => Some(Reg::DR3),
            4 => Some(Reg::DR4),
            5 => Some(Reg::DR5),
            6 => Some(Reg::DR6),
            7 => Some(Reg::DR7),
            _ => None,
        }
    }

    /// The segment register with the given code.
    pub open spec fn spec_from_code_segment(code: u8) -> Option<Reg> {
        match code {
            0 => Some(Reg::ES),
            1 => Some(Reg::CS),
            2 => Some(Reg::SS),
            3 => Some(Reg::DS),
            4 => Some(Reg::FS),
            5 => Some(Reg::GS),
            _ => None,
        }
    }

    pub fn from_code_segment(code: u8) -> (r: Option<Reg>)
        ensures
            r == Reg::spec_from_code_segment(code),
    {
        match code {
            0 => Some(Reg::ES),
            1 => Some(Reg::CS),
            2 => Some(Reg::SS),
            3 => Some(Reg::DS),
            4 => Some(Reg::FS),
            5 => Some(Reg::GS),
            _ => None,
        }
    }

    /// The general-purpose register with the given merged code, at the given
    /// width.
    pub open spec fn spec_from_code_general_sized(code: u8, has_rex: bool, size: OperandSize) -> Option<Reg> {
        match size {
            OperandSize::Byte => Reg::spec_from_code_general_8(code, has_rex),
            OperandSize::Word => Reg::spec_from_code_general_16(code),
            OperandSize::Dword => Reg::spec_from_code_general_32(code),
            OperandSize::Qword => Reg::spec_from_code_general_64(code),
            _ => None,
        }
    }

    pub fn from_code_general_sized(code: u8, has_rex: bool, size: OperandSize) -> (r: Option<Reg>)
        ensures
            r == Reg::spec_from_code_general_sized(code, has_rex, size),
    {
        match size {
            OperandSize::Byte => Reg::from_code_general_8(code, has_rex),
            OperandSize::Word => Reg::from_code_general_16(code),
            OperandSize::Dword => Reg::from_code_general_32(code),
            OperandSize::Qword => Reg::from_code_general_64(code),
            _ => None,
        }
    }

    /// The register with the given merged code, under the register kind a
    /// catalogue slot declares and the computed operand size. Vector codes
    /// pick XMM/YMM/ZMM by the size; 8-bit general codes use the legacy
    /// bank, since the slot carries no REX knowledge.
    pub open spec fn spec_from_code_reg_type(code: u8, reg_type: RegType, size: OperandSize) -> Option<Reg> {
        match reg_type {
            RegType::General => Reg::spec_from_code_general_sized(code, false, size),
            RegType::Avx => match size {
                OperandSize::Dqword => Reg::spec_from_code_xmm(code),
                OperandSize::Qqword => Reg::spec_from_code_ymm(code),
                OperandSize::Dqqword => Reg::spec_from_code_zmm(code),
                _ => None,
            },
            RegType::Fpu => Reg::spec_from_code_fpu(code),
            RegType::Mmx => Reg::spec_from_code_mmx(code),
            RegType::Mask => Reg::spec_from_code_mask(code),
            RegType::Segment => Reg::spec_from_code_segment(code),
            RegType::Control => Reg::spec_from_code_control(code),
            RegType::Debug => Reg::spec_from_code_debug(code),
        }
    }

    pub fn from_code_reg_type(code: u8, reg_type: RegType, size: OperandSize) -> (r: Option<Reg>)
        ensures
            r == Reg::spec_from_code_reg_type(code, reg_type, size),
    {
        match reg_type {
            RegType::General => Reg::from_code_general_sized(code, false, size),
            RegType::Avx => match size {
                OperandSize::Dqword => Reg::from_code_xmm(code),
                OperandSize::Qqword => Reg::from_code_ymm(code),
                OperandSize::Dqqword => Reg::from_code_zmm(code),
                _ => None,
            },
            RegType::Fpu => Reg::from_code_fpu(code),
            RegType::Mmx => Reg::from_code_mmx(code),
            RegType::Mask => Reg::from_code_mask(code),
            RegType::Segment => Reg::from_code_segment(code),
            RegType::Control => Reg::from_code_control(code),
            RegType::Debug => Reg::from_code_debug(code),
        }
    }
}

} // verus!
