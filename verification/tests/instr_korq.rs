use x86_decoder::{ByteSource, Instruction, InstructionReader, Mnemonic, Mode, OperandSize};
use x86_decoder::Operand::Direct;
use x86_decoder::Reg::{K3, K4, K5, K7};

fn run_test(expected: &Instruction, bytes: &[u8], size: OperandSize) {
    let mode = Mode::from_size(size).unwrap();
    let source = ByteSource::new(bytes.to_vec());
    let mut reader = InstructionReader::new(source, mode);
    assert_eq!(reader.read().unwrap(), *expected);
}

#[test]
fn korq_1() {
    run_test(&Instruction { mnemonic: Mnemonic::KORQ, operand1: Some(Direct(K7)), operand2: Some(Direct(K7)), operand3: Some(Direct(K3)), operand4: None, lock: false, rounding_mode: None, merge_mode: None, sae: false, mask: None, broadcast: None }, &[196, 225, 196, 69, 251], OperandSize::Dword)
}

#[test]
fn korq_2() {
    run_test(&Instruction { mnemonic: Mnemonic::KORQ, operand1: Some(Direct(K3)), operand2: Some(Direct(K4)), operand3: Some(Direct(K5)), operand4: None, lock: false, rounding_mode: None, merge_mode: None, sae: false, mask: None, broadcast: None }, &[196, 225, 220, 69, 221], OperandSize::Qword)
}
