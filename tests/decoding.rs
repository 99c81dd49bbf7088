use glulx_terp::decode::{
    encode_opcode_number, fetch_opcode_number, Errors, Operand, OperandAddressingMode,
    OperandMode, Operation,
};
use glulx_terp::memory::Memory;
use glulx_terp::opcode::OPCode;

const CODE_AT: u32 = 0x40;

/// A memory whose code, from 0x40, is `code`; memory ends at 0x100.
fn memory_with(code: &[u8]) -> Memory {
    let mut image = vec![0u8; 0x40];
    image[0..4].copy_from_slice(b"Glul");
    image[8..12].copy_from_slice(&0x40u32.to_be_bytes());
    image[12..16].copy_from_slice(&0x40u32.to_be_bytes());
    image[16..20].copy_from_slice(&0x100u32.to_be_bytes());
    image.extend_from_slice(code);
    while image.len() % 4 != 0 {
        image.push(0);
    }
    Memory::new(image).expect("builds")
}

fn load(mode: OperandAddressingMode) -> Operand {
    Operand { operand_mode: OperandMode::Load, addressing_mode: mode }
}

fn store(mode: OperandAddressingMode) -> Operand {
    Operand { operand_mode: OperandMode::Store, addressing_mode: mode }
}

#[test]
fn add_with_three_modes() {
    let mem = memory_with(&[0x10, 0x01, 0x05, 0x03, 0x07]);
    let (op, next) = Operation::fetch(&mem, CODE_AT).expect("decodes");
    assert_eq!(op.code, OPCode::ADD);
    assert_eq!(
        op.operands,
        vec![
            load(OperandAddressingMode::Constant1Byte(3)),
            load(OperandAddressingMode::ConstantZero),
            store(OperandAddressingMode::ContentOfAddress1Byte(7)),
        ]
    );
    assert_eq!(next, CODE_AT + 5);
}

#[test]
fn two_byte_opcode() {
    let mem = memory_with(&[0x81, 0x04, 0x01, 0x10]);
    let (op, next) = Operation::fetch(&mem, CODE_AT).expect("decodes");
    assert_eq!(op.code, OPCode::JUMPABS);
    assert_eq!(op.operands, vec![load(OperandAddressingMode::Constant1Byte(0x10))]);
    assert_eq!(next, CODE_AT + 4);
}

#[test]
fn four_byte_opcode() {
    let mem = memory_with(&[0xC0, 0x00, 0x01, 0x04, 0x00]);
    let (op, next) = Operation::fetch(&mem, CODE_AT).expect("decodes");
    assert_eq!(op.code, OPCode::JUMPABS);
    assert_eq!(op.operands, vec![load(OperandAddressingMode::ConstantZero)]);
    assert_eq!(next, CODE_AT + 5);
}

#[test]
fn catch_stores_first() {
    let mem = memory_with(&[0x32, 0x81, 0x09]);
    let (op, next) = Operation::fetch(&mem, CODE_AT).expect("decodes");
    assert_eq!(op.code, OPCode::CATCH);
    assert_eq!(
        op.operands,
        vec![
            store(OperandAddressingMode::Constant1Byte(9)),
            load(OperandAddressingMode::Stack),
        ]
    );
    assert_eq!(next, CODE_AT + 3);
    assert_eq!(op.operands[0].check_target(), Err(Errors::InvalidStoreTarget(1)));
    assert_eq!(op.operands[1].check_target(), Ok(()));
}

#[test]
fn other_opcodes_load_first() {
    let mem = memory_with(&[0x40, 0x81, 0x09]);
    let (op, _) = Operation::fetch(&mem, CODE_AT).expect("decodes");
    assert_eq!(op.code, OPCode::COPY);
    assert_eq!(op.operands[0].operand_mode, OperandMode::Load);
    assert_eq!(op.operands[1].operand_mode, OperandMode::Store);
    assert_eq!(op.operands[0].check_target(), Ok(()));
}

#[test]
fn wide_immediates() {
    let mem = memory_with(&[
        0x10, 0xE3, 0x0F, 0xFF, 0xFF, 0xFF, 0xFE, 0x12, 0x34, 0x00, 0x00, 0x00, 0x08,
    ]);
    let (op, next) = Operation::fetch(&mem, CODE_AT).expect("decodes");
    assert_eq!(
        op.operands,
        vec![
            load(OperandAddressingMode::Constant4Bytes(0xFFFF_FFFE)),
            load(OperandAddressingMode::ContentOfRAMAddress2Bytes(0x1234)),
            store(OperandAddressingMode::ContentOfRAMAddress4Bytes(8)),
        ]
    );
    assert_eq!(next, CODE_AT + 13);
}

#[test]
fn local_and_stack_modes() {
    let mem = memory_with(&[0x10, 0x89, 0x0A, 0x04, 0x00, 0x10, 0x22]);
    let (op, next) = Operation::fetch(&mem, CODE_AT).expect("decodes");
    assert_eq!(
        op.operands,
        vec![
            load(OperandAddressingMode::CallFrameLocalAtAddress1Byte(4)),
            load(OperandAddressingMode::Stack),
            store(OperandAddressingMode::CallFrameLocalAtAddress2Bytes(0x10)),
        ]
    );
    assert_eq!(next, CODE_AT + 6);
}

#[test]
fn reserved_modes_are_refused() {
    let mem = memory_with(&[0x10, 0x04, 0x00]);
    assert!(matches!(Operation::fetch(&mem, CODE_AT), Err(Errors::ReservedOperandMode(4))));
    let mem = memory_with(&[0x20, 0x0C]);
    assert!(matches!(Operation::fetch(&mem, CODE_AT), Err(Errors::ReservedOperandMode(12))));
    let mem = memory_with(&[0x00, 0xC4]);
    assert!(Operation::fetch(&mem, CODE_AT).is_ok());
}

#[test]
fn unknown_opcodes_are_refused() {
    let mem = memory_with(&[0x01]);
    assert!(matches!(Operation::fetch(&mem, CODE_AT), Err(Errors::UnknownOpcode(1))));
    let mem = memory_with(&[0x81, 0x05]);
    assert!(matches!(Operation::fetch(&mem, CODE_AT), Err(Errors::UnknownOpcode(0x105))));
}

#[test]
fn decoding_past_the_end_fails() {
    let mem = memory_with(&[]);
    assert!(matches!(
        Operation::fetch(&mem, 0x100),
        Err(Errors::TruncatedInstruction(0x100))
    ));
    assert!(matches!(
        Operation::fetch(&mem, 0xFF),
        Ok((_, 0x100))
    ));
}

#[test]
fn opcode_numbers_round_trip() {
    let mem = memory_with(&[]);
    for (n, width) in [(0x00u32, 1u32), (0x7F, 1), (0x80, 2), (0x104, 2), (0x3FFF, 2), (0x4000, 4), (0x3FFF_FFFF, 4)] {
        let bytes = encode_opcode_number(n);
        assert_eq!(bytes.len() as u32, width);
        let mem = memory_with(&bytes);
        assert_eq!(fetch_opcode_number(&mem, CODE_AT), Ok((n, CODE_AT + width)));
    }
    assert_eq!(encode_opcode_number(0x104), vec![0x81, 0x04]);
    assert_eq!(encode_opcode_number(0x4000), vec![0xC0, 0x00, 0x40, 0x00]);
    assert_eq!(mem.len(), 0x100);
}

#[test]
fn opcode_table_round_trips() {
    for n in 0u32..0x300 {
        if let Some(op) = OPCode::from_number(n) {
            assert_eq!(op.number(), n);
        }
    }
    assert_eq!(OPCode::from_number(0x10), Some(OPCode::ADD));
    assert_eq!(OPCode::from_number(0x239), Some(OPCode::JDISINF));
    assert_eq!(OPCode::from_number(0x21), None);
    assert_eq!(OPCode::ADD.get_operand_types(), (2, 1));
    assert_eq!(OPCode::JUMP.get_operand_types(), (1, 0));
    assert_eq!(OPCode::CALL.get_operand_types(), (2, 1));
    assert_eq!(OPCode::JEQ.get_operand_types(), (3, 0));
    assert_eq!(OPCode::LINEARSEARCH.get_operand_types(), (7, 1));
    assert_eq!(OPCode::CATCH.get_operand_types(), (1, 1));
}

#[test]
fn try_fetch_reads_immediates() {
    let mem = memory_with(&[0xAB, 0xCD]);
    assert_eq!(
        OperandAddressingMode::try_fetch(&mem, CODE_AT, 6),
        Ok((OperandAddressingMode::ContentOfAddress2Bytes(0xABCD), CODE_AT + 2))
    );
    assert_eq!(OperandAddressingMode::try_fetch(&mem, CODE_AT, 12), Err(Errors::ReservedOperandMode(12)));
    assert_eq!(
        OperandAddressingMode::try_fetch(&mem, 0xFE, 3),
        Err(Errors::TruncatedInstruction(0xFE))
    );
    assert_eq!(
        OperandAddressingMode::try_fetch(&mem, 0x200, 8),
        Ok((OperandAddressingMode::Stack, 0x200))
    );
}

#[test]
fn fetch_for_opcode_needs_mode_bytes() {
    let mem = memory_with(&[]);
    assert_eq!(
        Operand::fetch_for_opcode(&mem, 0x100, OPCode::ADD),
        Err(Errors::TruncatedInstruction(0x100))
    );
    assert_eq!(Operand::fetch_for_opcode(&mem, 0x100, OPCode::NOP), Ok((vec![], 0x100)));
    assert_eq!(Operand::fetch_for_opcode(&mem, 0x200, OPCode::NOP), Ok((vec![], 0x200)));
}

#[test]
fn trailing_mode_nibble_is_ignored() {
    let plain = memory_with(&[0x10, 0x01, 0x05, 0x03, 0x07]);
    let noisy = memory_with(&[0x10, 0x01, 0xF5, 0x03, 0x07]);
    let (a, next_a) = Operation::fetch(&plain, CODE_AT).expect("decodes");
    let (b, next_b) = Operation::fetch(&noisy, CODE_AT).expect("decodes");
    assert_eq!(a.operands, b.operands);
    assert_eq!(next_a, next_b);
}

/// A memory of 0x100 bytes whose last bytes are `tail`.
fn memory_ending_with(tail: &[u8]) -> Memory {
    let mut code = vec![0u8; 0xC0 - tail.len()];
    code.extend_from_slice(tail);
    memory_with(&code)
}

#[test]
fn truncated_opcode_reports_its_pc() {
    let mem = memory_ending_with(&[0xC0, 0x00]);
    assert!(matches!(Operation::fetch(&mem, 0xFE), Err(Errors::TruncatedInstruction(0xFE))));
}

#[test]
fn truncated_mode_bytes_report_the_pc() {
    let mem = memory_ending_with(&[0x81, 0x04]);
    assert!(matches!(Operation::fetch(&mem, 0xFE), Err(Errors::TruncatedInstruction(0xFE))));
}

#[test]
fn truncated_immediate_reports_the_pc() {
    let mem = memory_ending_with(&[0x10, 0x03, 0x00]);
    assert!(matches!(Operation::fetch(&mem, 0xFD), Err(Errors::TruncatedInstruction(0xFD))));
    let mem = memory_ending_with(&[0x20, 0x02, 0x12]);
    assert!(matches!(Operation::fetch(&mem, 0xFD), Err(Errors::TruncatedInstruction(0xFD))));
}

#[test]
fn store_to_wider_constants_is_invalid() {
    let two = Operand {
        operand_mode: OperandMode::Store,
        addressing_mode: OperandAddressingMode::Constant2Bytes(1),
    };
    let four = Operand {
        operand_mode: OperandMode::Store,
        addressing_mode: OperandAddressingMode::Constant4Bytes(1),
    };
    assert_eq!(two.check_target(), Err(Errors::InvalidStoreTarget(2)));
    assert_eq!(four.check_target(), Err(Errors::InvalidStoreTarget(3)));
    let reserved = Operand {
        operand_mode: OperandMode::Load,
        addressing_mode: OperandAddressingMode::Unused2,
    };
    assert_eq!(reserved.check_target(), Err(Errors::ReservedOperandMode(12)));
}

#[test]
fn constants_are_sign_extended() {
    let mem = memory_with(&[0x10, 0x21, 0x00, 0xFF, 0x80, 0x00]);
    let (op, next) = Operation::fetch(&mem, CODE_AT).expect("decodes");
    assert_eq!(
        op.operands,
        vec![
            load(OperandAddressingMode::Constant1Byte(0xFFFF_FFFF)),
            load(OperandAddressingMode::Constant2Bytes(0xFFFF_8000)),
            store(OperandAddressingMode::ConstantZero),
        ]
    );
    assert_eq!(next, CODE_AT + 6);
    let mem = memory_with(&[0x7F, 0x7F, 0xFF]);
    assert_eq!(
        OperandAddressingMode::try_fetch(&mem, CODE_AT, 1),
        Ok((OperandAddressingMode::Constant1Byte(0x7F), CODE_AT + 1))
    );
    assert_eq!(
        OperandAddressingMode::try_fetch(&mem, CODE_AT, 2),
        Ok((OperandAddressingMode::Constant2Bytes(0x7F7F), CODE_AT + 2))
    );
    assert_eq!(
        OperandAddressingMode::try_fetch(&mem, CODE_AT + 2, 5),
        Ok((OperandAddressingMode::ContentOfAddress1Byte(0xFF), CODE_AT + 3))
    );
    assert_eq!(
        OperandAddressingMode::try_fetch(&mem, CODE_AT + 1, 10),
        Ok((OperandAddressingMode::CallFrameLocalAtAddress2Bytes(0x7FFF), CODE_AT + 3))
    );
}
