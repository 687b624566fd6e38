use x86_decoder::{ByteSource, Instruction, InstructionReader, Mnemonic, Mode, OperandSize};
use x86_decoder::Operand::Direct;
use x86_decoder::Reg::{K2, K4, K5, K7};

fn run_test(expected: &Instruction, bytes: &[u8], size: OperandSize) {
    let mode = Mode::from_size(size).unwrap();
    let source = ByteSource::new(bytes.to_vec());
    let mut reader = InstructionReader::new(source, mode);
    assert_eq!(reader.read().unwrap(), *expected);
}

#[test]
fn kxnorq_1() {
    run_test(&Instruction { mnemonic: Mnemonic::KXNORQ, operand1: Some(Direct(K4)), operand2: Some(Direct(K5)), operand3: Some(Direct(K4)), operand4: None, lock: false, rounding_mode: None, merge_mode: None, sae: false, mask: None, broadcast: None }, &[196, 225, 212, 70, 228], OperandSize::Dword)
}

#[test]
fn kxnorq_2() {
    run_test(&Instruction { mnemonic: Mnemonic::KXNORQ, operand1: Some(Direct(K2)), operand2: Some(Direct(K7)), operand3: Some(Direct(K4)), operand4: None, lock: false, rounding_mode: None, merge_mode: None, sae: false, mask: None, broadcast: None }, &[196, 225, 196, 70, 212], OperandSize::Qword)
}
