use x86_decoder::{
    ByteSource, Instruction, InstructionDecodingError, InstructionReader, Mnemonic, Mode, Operand,
    OperandSize, SegmentReg,
};
use x86_decoder::Operand::{
    Direct, Indirect, IndirectDisplaced, IndirectScaledDisplaced, Literal16, Literal32, Literal64,
    Memory, MemoryAndSegment16, MemoryAndSegment32, Offset,
};
use x86_decoder::Reg::{AX, BP, CX, EAX, EBX, ECX, EDX, RAX, RDX};
use x86_decoder::RegScale::Eight;

fn decode(bytes: &[u8], mode: Mode) -> Result<Instruction, InstructionDecodingError> {
    let mut reader = InstructionReader::new(ByteSource::new(bytes.to_vec()), mode);
    reader.read()
}

fn decode_operands(bytes: &[u8], mode: Mode) -> (Mnemonic, Option<Operand>, Option<Operand>) {
    let instruction = decode(bytes, mode).unwrap();
    (instruction.mnemonic, instruction.operand1, instruction.operand2)
}

#[test]
fn end_of_stream_on_empty_source() {
    assert_eq!(decode(&[], Mode::Real), Err(InstructionDecodingError::EndOfStream));
    assert_eq!(decode(&[], Mode::Protected), Err(InstructionDecodingError::EndOfStream));
    assert_eq!(decode(&[], Mode::Long), Err(InstructionDecodingError::EndOfStream));
}

#[test]
fn partial_instruction_after_rex() {
    assert_eq!(decode(&[0x48], Mode::Long), Err(InstructionDecodingError::PartialInstruction));
}

#[test]
fn partial_instruction_when_mod_rm_missing() {
    assert_eq!(
        decode(&[0x0F, 0xC7], Mode::Long),
        Err(InstructionDecodingError::PartialInstruction)
    );
}

#[test]
fn read_error_from_failing_source() {
    let mut reader = InstructionReader::new(ByteSource::with_trailing_error(vec![]), Mode::Long);
    assert_eq!(reader.read(), Err(InstructionDecodingError::ReadError));
}

#[test]
fn read_error_mid_instruction() {
    let mut reader = InstructionReader::new(
        ByteSource::with_trailing_error(vec![0x48]),
        Mode::Long,
    );
    assert_eq!(reader.read(), Err(InstructionDecodingError::ReadError));
}

#[test]
fn mode_sensitivity_long_add() {
    assert_eq!(
        decode_operands(&[0x48, 0x01, 0xC0], Mode::Long),
        (Mnemonic::ADD, Some(Direct(RAX)), Some(Direct(RAX)))
    );
}

#[test]
fn mode_sensitivity_protected_dec_then_add() {
    let mut reader = InstructionReader::new(
        ByteSource::new(vec![0x48, 0x01, 0xC0]),
        Mode::Protected,
    );
    let first = reader.read().unwrap();
    assert_eq!(first.mnemonic, Mnemonic::DEC);
    assert_eq!(first.operand1, Some(Direct(EAX)));
    let second = reader.read().unwrap();
    assert_eq!(second.mnemonic, Mnemonic::ADD);
    assert_eq!(second.operand1, Some(Direct(EAX)));
    assert_eq!(second.operand2, Some(Direct(EAX)));
    assert_eq!(reader.read(), Err(InstructionDecodingError::EndOfStream));
}

#[test]
fn inc_decodes_outside_long_mode() {
    let (mnemonic, op1, _) = decode_operands(&[0x40], Mode::Real);
    assert_eq!(mnemonic, Mnemonic::INC);
    assert_eq!(op1, Some(Direct(AX)));
}

#[test]
fn address_size_prefix_real_selects_32_bit_table() {
    let (_, op1, _) = decode_operands(&[0x67, 0x0F, 0xC7, 0x23], Mode::Real);
    assert_eq!(op1, Some(Indirect(EBX, Some(OperandSize::Unsized), None)));
}

#[test]
fn address_size_prefix_real_enables_sib() {
    let (_, op1, _) = decode_operands(
        &[0x67, 0x0F, 0xC7, 0x24, 0xD5, 0x7F, 0x93, 0x49, 0x3F],
        Mode::Real,
    );
    assert_eq!(
        op1,
        Some(IndirectScaledDisplaced(EDX, Eight, 0x3F49937F, Some(OperandSize::Unsized), None))
    );
}

#[test]
fn address_size_prefix_protected_selects_16_bit_table() {
    let (_, op1, _) = decode_operands(&[0x67, 0x0F, 0xC7, 0x66, 0x52], Mode::Protected);
    assert_eq!(op1, Some(IndirectDisplaced(BP, 82, Some(OperandSize::Unsized), None)));
}

#[test]
fn address_size_prefix_long_selects_32_bit_registers() {
    let (_, op1, _) = decode_operands(&[0x67, 0x0F, 0xC7, 0x23], Mode::Long);
    assert_eq!(op1, Some(Indirect(EBX, Some(OperandSize::Unsized), None)));
}

#[test]
fn sib_base_101_without_index_is_bare_displacement() {
    let (_, op1, _) = decode_operands(
        &[0x0F, 0xC7, 0x24, 0x25, 0x78, 0x56, 0x34, 0x12],
        Mode::Protected,
    );
    assert_eq!(op1, Some(Memory(0x12345678, Some(OperandSize::Unsized), None)));
}

#[test]
fn sib_base_101_with_index_is_scaled_displacement() {
    let (_, op1, _) = decode_operands(
        &[0x0F, 0xC7, 0x24, 0xD5, 0x7F, 0x93, 0x49, 0x3F],
        Mode::Long,
    );
    assert_eq!(
        op1,
        Some(IndirectScaledDisplaced(RDX, Eight, 0x3F49937F, Some(OperandSize::Unsized), None))
    );
}

#[test]
fn rm_101_is_rip_relative_in_long_mode() {
    let (_, op1, _) = decode_operands(&[0x0F, 0xC7, 0x25, 0x78, 0x56, 0x34, 0x12], Mode::Long);
    assert_eq!(op1, Some(Offset(0x12345678, Some(OperandSize::Unsized), None)));
}

#[test]
fn rm_101_is_absolute_in_protected_mode() {
    let (_, op1, _) = decode_operands(&[0x0F, 0xC7, 0x25, 0x78, 0x56, 0x34, 0x12], Mode::Protected);
    assert_eq!(op1, Some(Memory(0x12345678, Some(OperandSize::Unsized), None)));
}

#[test]
fn vex3_map_select_31_is_invalid() {
    assert_eq!(
        decode(&[0xC4, 0xFF, 0xFF], Mode::Protected),
        Err(InstructionDecodingError::InvalidInstruction)
    );
}

#[test]
fn unknown_two_byte_opcode() {
    assert_eq!(
        decode(&[0x0F, 0x05], Mode::Protected),
        Err(InstructionDecodingError::UnknownOpcode)
    );
}

#[test]
fn unknown_opcode_extension() {
    assert_eq!(
        decode(&[0xDA, 0xD8], Mode::Protected),
        Err(InstructionDecodingError::UnknownOpcode)
    );
}

#[test]
fn rex_before_vex_is_invalid() {
    assert_eq!(
        decode(&[0x48, 0xC5, 0xF5, 0x41, 0xE5], Mode::Long),
        Err(InstructionDecodingError::InvalidInstruction)
    );
}

#[test]
fn evex_map_select_zero_is_invalid() {
    assert_eq!(
        decode(&[0x62, 0x60, 0x00, 0x00], Mode::Long),
        Err(InstructionDecodingError::InvalidInstruction)
    );
}

#[test]
fn fpu_register_code_out_of_range_is_invalid() {
    assert_eq!(
        decode(&[0x41, 0xDA, 0xCF], Mode::Long),
        Err(InstructionDecodingError::InvalidInstruction)
    );
}

#[test]
fn lock_prefix_is_recorded() {
    let instruction = decode(&[0xF0, 0x01, 0xC8], Mode::Protected).unwrap();
    assert_eq!(instruction.mnemonic, Mnemonic::ADD);
    assert_eq!(instruction.operand1, Some(Direct(EAX)));
    assert_eq!(instruction.operand2, Some(Direct(ECX)));
    assert!(instruction.lock);
}

#[test]
fn segment_override_is_recorded() {
    let (_, op1, _) = decode_operands(&[0x2E, 0x0F, 0xC7, 0x23], Mode::Long);
    assert_eq!(
        op1,
        Some(Indirect(x86_decoder::Reg::RBX, Some(OperandSize::Unsized), Some(SegmentReg::CS)))
    );
}

#[test]
fn operand_size_prefix_demotes_protected_to_word() {
    let (mnemonic, op1, op2) = decode_operands(&[0x66, 0x01, 0xC8], Mode::Protected);
    assert_eq!(mnemonic, Mnemonic::ADD);
    assert_eq!(op1, Some(Direct(AX)));
    assert_eq!(op2, Some(Direct(CX)));
}

#[test]
fn operand_size_prefix_promotes_real_to_dword() {
    let (mnemonic, op1, op2) = decode_operands(&[0x66, 0x01, 0xC8], Mode::Real);
    assert_eq!(mnemonic, Mnemonic::ADD);
    assert_eq!(op1, Some(Direct(EAX)));
    assert_eq!(op2, Some(Direct(ECX)));
}

#[test]
fn mov_imm64_in_long_mode() {
    let (mnemonic, op1, op2) = decode_operands(
        &[0x48, 0xB8, 0x88, 0x77, 0x66, 0x55, 0x44, 0x33, 0x22, 0x11],
        Mode::Long,
    );
    assert_eq!(mnemonic, Mnemonic::MOV);
    assert_eq!(op1, Some(Direct(RAX)));
    assert_eq!(op2, Some(Literal64(0x1122334455667788)));
}

#[test]
fn mov_imm16_in_real_mode() {
    let (mnemonic, op1, op2) = decode_operands(&[0xB8, 0x34, 0x12], Mode::Real);
    assert_eq!(mnemonic, Mnemonic::MOV);
    assert_eq!(op1, Some(Direct(AX)));
    assert_eq!(op2, Some(Literal16(0x1234)));
}

#[test]
fn mov_imm32_uses_opcode_addend() {
    let (mnemonic, op1, op2) = decode_operands(&[0xB9, 0x78, 0x56, 0x34, 0x12], Mode::Protected);
    assert_eq!(mnemonic, Mnemonic::MOV);
    assert_eq!(op1, Some(Direct(ECX)));
    assert_eq!(op2, Some(Literal32(0x12345678)));
}

#[test]
fn mov_offset_in_protected_mode() {
    let (mnemonic, op1, op2) = decode_operands(&[0xA1, 0x78, 0x56, 0x34, 0x12], Mode::Protected);
    assert_eq!(mnemonic, Mnemonic::MOV);
    assert_eq!(op1, Some(Direct(EAX)));
    assert_eq!(op2, Some(Memory(0x12345678, Some(OperandSize::Dword), None)));
}

#[test]
fn jmp_far_pointer_real_mode() {
    let (mnemonic, op1, _) = decode_operands(&[0xEA, 0x34, 0x12, 0x78, 0x56], Mode::Real);
    assert_eq!(mnemonic, Mnemonic::JMP);
    assert_eq!(op1, Some(MemoryAndSegment16(0x5678, 0x1234)));
}

#[test]
fn jmp_far_pointer_protected_mode() {
    let (mnemonic, op1, _) = decode_operands(
        &[0xEA, 0x78, 0x56, 0x34, 0x12, 0xCD, 0xAB],
        Mode::Protected,
    );
    assert_eq!(mnemonic, Mnemonic::JMP);
    assert_eq!(op1, Some(MemoryAndSegment32(0xABCD, 0x12345678)));
}

#[test]
fn jmp_far_pointer_rejected_in_long_mode() {
    assert_eq!(
        decode(&[0xEA, 0x78, 0x56, 0x34, 0x12, 0xCD, 0xAB], Mode::Long),
        Err(InstructionDecodingError::UnknownOpcode)
    );
}
