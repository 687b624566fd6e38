use x86_decoder::{ByteSource, Instruction, InstructionReader, Mnemonic, Mode, OperandSize};
use x86_decoder::Operand::Direct;
use x86_decoder::Reg::{ST, ST3, ST7};

fn run_test(expected: &Instruction, bytes: &[u8], size: OperandSize) {
    let mode = Mode::from_size(size).unwrap();
    let source = ByteSource::new(bytes.to_vec());
    let mut reader = InstructionReader::new(source, mode);
    assert_eq!(reader.read().unwrap(), *expected);
}

#[test]
fn fcmove_1() {
    run_test(&Instruction { mnemonic: Mnemonic::FCMOVE, operand1: Some(Direct(ST)), operand2: Some(Direct(ST7)), operand3: None, operand4: None, lock: false, rounding_mode: None, merge_mode: None, sae: false, mask: None, broadcast: None }, &[218, 207], OperandSize::Word)
}

#[test]
fn fcmove_2() {
    run_test(&Instruction { mnemonic: Mnemonic::FCMOVE, operand1: Some(Direct(ST)), operand2: Some(Direct(ST7)), operand3: None, operand4: None, lock: false, rounding_mode: None, merge_mode: None, sae: false, mask: None, broadcast: None }, &[218, 207], OperandSize::Dword)
}

#[test]
fn fcmove_3() {
    run_test(&Instruction { mnemonic: Mnemonic::FCMOVE, operand1: Some(Direct(ST)), operand2: Some(Direct(ST3)), operand3: None, operand4: None, lock: false, rounding_mode: None, merge_mode: None, sae: false, mask: None, broadcast: None }, &[218, 203], OperandSize::Qword)
}
