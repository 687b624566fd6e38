use x86_decoder::{ByteSource, Instruction, InstructionReader, Mnemonic, Mode, OperandSize};
use x86_decoder::Operand::Direct;
use x86_decoder::Reg::{K1, K4, K5, K7};

fn run_test(expected: &Instruction, bytes: &[u8], size: OperandSize) {
    let mode = Mode::from_size(size).unwrap();
    let source = ByteSource::new(bytes.to_vec());
    let mut reader = InstructionReader::new(source, mode);
    assert_eq!(reader.read().unwrap(), *expected);
}

#[test]
fn kandb_1() {
    run_test(&Instruction { mnemonic: Mnemonic::KANDB, operand1: Some(Direct(K4)), operand2: Some(Direct(K1)), operand3: Some(Direct(K5)), operand4: None, lock: false, rounding_mode: None, merge_mode: None, sae: false, mask: None, broadcast: None }, &[197, 245, 65, 229], OperandSize::Dword)
}

#[test]
fn kandb_2() {
    run_test(&Instruction { mnemonic: Mnemonic::KANDB, operand1: Some(Direct(K1)), operand2: Some(Direct(K1)), operand3: Some(Direct(K7)), operand4: None, lock: false, rounding_mode: None, merge_mode: None, sae: false, mask: None, broadcast: None }, &[197, 245, 65, 207], OperandSize::Qword)
}
