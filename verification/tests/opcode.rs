use iridium::instruction::Opcode;

#[test]
fn every_named_byte_maps_to_its_operation() {
    let table = [
        Opcode::HLT,
        Opcode::LOAD,
        Opcode::ADD,
        Opcode::SUB,
        Opcode::MUL,
        Opcode::DIV,
        Opcode::JMP,
        Opcode::JMPF,
        Opcode::JMPB,
        Opcode::EQ,
        Opcode::NEQ,
        Opcode::GT,
        Opcode::LT,
        Opcode::GTQ,
        Opcode::LTQ,
        Opcode::JEQ,
    ];
    for (byte, opcode) in table.iter().enumerate() {
        assert_eq!(Opcode::from(byte as u8), *opcode);
    }
}

#[test]
fn every_other_byte_is_illegal() {
    for byte in 16..=255u8 {
        assert_eq!(Opcode::from(byte), Opcode::IGL);
    }
}

#[test]
fn into_gives_the_same_operation_as_from() {
    let opcode: Opcode = 5u8.into();
    assert_eq!(opcode, Opcode::DIV);
}

#[test]
fn operand_widths_follow_the_encoding() {
    assert_eq!(Opcode::HLT.operand_width(), 0);
    assert_eq!(Opcode::IGL.operand_width(), 0);
    assert_eq!(Opcode::LOAD.operand_width(), 3);
    assert_eq!(Opcode::ADD.operand_width(), 3);
    assert_eq!(Opcode::SUB.operand_width(), 3);
    assert_eq!(Opcode::MUL.operand_width(), 3);
    assert_eq!(Opcode::DIV.operand_width(), 3);
    assert_eq!(Opcode::JMP.operand_width(), 1);
    assert_eq!(Opcode::JMPF.operand_width(), 1);
    assert_eq!(Opcode::JMPB.operand_width(), 1);
    assert_eq!(Opcode::EQ.operand_width(), 3);
    assert_eq!(Opcode::NEQ.operand_width(), 3);
    assert_eq!(Opcode::GT.operand_width(), 3);
    assert_eq!(Opcode::LT.operand_width(), 3);
    assert_eq!(Opcode::GTQ.operand_width(), 3);
    assert_eq!(Opcode::LTQ.operand_width(), 3);
    assert_eq!(Opcode::JEQ.operand_width(), 1);
}
