use rv32i::inst::BinaryInstruction;

fn word(opcode: u32, low: u32, funct3: u32, rs1: u32, rs2: u32, high: u32) -> u32 {
    opcode | (low << 7) | (funct3 << 12) | (rs1 << 15) | (rs2 << 20) | (high << 25)
}

#[test]
fn addi_word_decodes_to_its_fields() {
    // addi x5, x5, -1
    let decoded = BinaryInstruction::parse(0xFFF2_8293);
    assert_eq!(
        decoded,
        BinaryInstruction::I { opcode: 0b0010011, rd: 5, funct3: 0, rs: 5, imm: 0xFFF }
    );
}

#[test]
fn i_format_fields_come_back_for_each_opcode() {
    for opcode in [0b0010011u32, 0b0000011, 0b1100111, 0b1110011] {
        let built = opcode | (21 << 7) | (0b101 << 12) | (10 << 15) | (0xABC << 20);
        assert_eq!(
            BinaryInstruction::parse(built),
            BinaryInstruction::I { opcode: opcode as u8, rd: 21, funct3: 0b101, rs: 10, imm: 0xABC }
        );
    }
}

#[test]
fn i_format_immediate_is_raw_and_unsigned() {
    let built = 0b0010011u32 | (0x800 << 20);
    match BinaryInstruction::parse(built) {
        BinaryInstruction::I { imm, .. } => assert_eq!(imm, 0x800),
        other => panic!("not an I instruction: {:?}", other),
    }
}

#[test]
fn u_format_fields_come_back_for_each_opcode() {
    for opcode in [0b0010111u32, 0b0110111] {
        let built = opcode | (31 << 7) | (0xFEDCB << 12);
        assert_eq!(
            BinaryInstruction::parse(built),
            BinaryInstruction::U { opcode: opcode as u8, rd: 31, imm: 0xFEDCB }
        );
    }
}

#[test]
fn j_format_fields_come_back() {
    let built = 0b1101111u32 | (1 << 7) | (0x80001 << 12);
    assert_eq!(
        BinaryInstruction::parse(built),
        BinaryInstruction::J { opcode: 0b1101111, rd: 1, imm: 0x80001 }
    );
}

#[test]
fn s_format_fields_come_back() {
    let built = word(0b0100011, 0b10101, 0b010, 2, 14, 0b1111111);
    assert_eq!(
        BinaryInstruction::parse(built),
        BinaryInstruction::S {
            opcode: 0b0100011,
            imm1: 0b10101,
            funct3: 0b010,
            rs1: 2,
            rs2: 14,
            imm2: 0b1111111,
        }
    );
}

#[test]
fn b_format_fields_come_back() {
    let built = word(0b1100011, 0b01010, 0b111, 31, 0, 0b1000000);
    assert_eq!(
        BinaryInstruction::parse(built),
        BinaryInstruction::B {
            opcode: 0b1100011,
            imm1: 0b01010,
            funct3: 0b111,
            rs1: 31,
            rs2: 0,
            imm2: 0b1000000,
        }
    );
}

#[test]
fn r_format_fields_come_back() {
    // sub x3, x1, x2
    let built = word(0b0110011, 3, 0, 1, 2, 0x20);
    assert_eq!(built, 0x4020_81B3);
    assert_eq!(
        BinaryInstruction::parse(built),
        BinaryInstruction::R { opcode: 0b0110011, rd: 3, funct3: 0, rs1: 1, rs2: 2, funct7: 0x20 }
    );
}

#[test]
fn fields_at_their_largest_do_not_spill() {
    let built = word(0b0110011, 31, 7, 31, 31, 127);
    assert_eq!(built, 0xFFFF_FFB3);
    assert_eq!(
        BinaryInstruction::parse(built),
        BinaryInstruction::R { opcode: 0b0110011, rd: 31, funct3: 7, rs1: 31, rs2: 31, funct7: 127 }
    );
    let built = word(0b0110011, 0, 0, 0, 0, 0);
    assert_eq!(
        BinaryInstruction::parse(built),
        BinaryInstruction::R { opcode: 0b0110011, rd: 0, funct3: 0, rs1: 0, rs2: 0, funct7: 0 }
    );
}

#[test]
fn all_ones_opcode_is_unknown() {
    assert_eq!(BinaryInstruction::parse(0x0000_007F), BinaryInstruction::Unknown);
    assert_eq!(BinaryInstruction::parse(0xFFFF_FFFF), BinaryInstruction::Unknown);
}

#[test]
fn zero_word_is_unknown() {
    assert_eq!(BinaryInstruction::parse(0), BinaryInstruction::Unknown);
}

#[test]
fn exactly_the_ten_opcodes_of_the_table_are_known() {
    let known = [
        0b0010011u32, 0b0000011, 0b1100111, 0b1110011, 0b0010111, 0b0110111, 0b0100011,
        0b1100011, 0b1101111, 0b0110011,
    ];
    for opcode in 0u32..128 {
        let decoded = BinaryInstruction::parse(0xFFFF_FF80 | opcode);
        assert_eq!(decoded == BinaryInstruction::Unknown, !known.contains(&opcode));
    }
}

#[test]
fn opcode_alone_fixes_the_format() {
    for rest in [0u32, 0x0000_0080, 0x8000_0000, 0xFFFF_FF80, 0x1234_5600] {
        assert!(matches!(BinaryInstruction::parse(rest | 0b0010011), BinaryInstruction::I { .. }));
        assert!(matches!(BinaryInstruction::parse(rest | 0b0000011), BinaryInstruction::I { .. }));
        assert!(matches!(BinaryInstruction::parse(rest | 0b1100111), BinaryInstruction::I { .. }));
        assert!(matches!(BinaryInstruction::parse(rest | 0b1110011), BinaryInstruction::I { .. }));
        assert!(matches!(BinaryInstruction::parse(rest | 0b0010111), BinaryInstruction::U { .. }));
        assert!(matches!(BinaryInstruction::parse(rest | 0b0110111), BinaryInstruction::U { .. }));
        assert!(matches!(BinaryInstruction::parse(rest | 0b0100011), BinaryInstruction::S { .. }));
        assert!(matches!(BinaryInstruction::parse(rest | 0b1100011), BinaryInstruction::B { .. }));
        assert!(matches!(BinaryInstruction::parse(rest | 0b1101111), BinaryInstruction::J { .. }));
        assert!(matches!(BinaryInstruction::parse(rest | 0b0110011), BinaryInstruction::R { .. }));
    }
}
