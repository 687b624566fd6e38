use x86_decoder::{ByteSource, Instruction, InstructionReader, Mnemonic, Mode, OperandSize};
use x86_decoder::Operand::{Indirect, IndirectDisplaced, IndirectScaledDisplaced};
use x86_decoder::Reg::{BP, EDX, RBX};
use x86_decoder::RegScale::Eight;

fn run_test(expected: &Instruction, bytes: &[u8], size: OperandSize) {
    let mode = Mode::from_size(size).unwrap();
    let source = ByteSource::new(bytes.to_vec());
    let mut reader = InstructionReader::new(source, mode);
    assert_eq!(reader.read().unwrap(), *expected);
}

#[test]
fn xsavec_1() {
    run_test(&Instruction { mnemonic: Mnemonic::XSAVEC, operand1: Some(IndirectDisplaced(BP, 82, Some(OperandSize::Unsized), None)), operand2: None, operand3: None, operand4: None, lock: false, rounding_mode: None, merge_mode: None, sae: false, mask: None, broadcast: None }, &[15, 199, 102, 82], OperandSize::Word)
}

#[test]
fn xsavec_2() {
    run_test(&Instruction { mnemonic: Mnemonic::XSAVEC, operand1: Some(IndirectScaledDisplaced(EDX, Eight, 1061786495, Some(OperandSize::Unsized), None)), operand2: None, operand3: None, operand4: None, lock: false, rounding_mode: None, merge_mode: None, sae: false, mask: None, broadcast: None }, &[15, 199, 36, 213, 127, 147, 73, 63], OperandSize::Dword)
}

#[test]
fn xsavec_3() {
    run_test(&Instruction { mnemonic: Mnemonic::XSAVEC, operand1: Some(Indirect(RBX, Some(OperandSize::Unsized), None)), operand2: None, operand3: None, operand4: None, lock: false, rounding_mode: None, merge_mode: None, sae: false, mask: None, broadcast: None }, &[15, 199, 35], OperandSize::Qword)
}
