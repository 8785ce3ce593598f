use rv32i::alu::{compute, select_immediate, select_register, sign_extend, zero_extend, Operation};

#[test]
fn sign_extend_repeats_bit_eleven() {
    assert_eq!(sign_extend(0x000), 0x0000_0000);
    assert_eq!(sign_extend(0x001), 0x0000_0001);
    assert_eq!(sign_extend(0x7FF), 0x0000_07FF);
    assert_eq!(sign_extend(0x800), 0xFFFF_F800);
    assert_eq!(sign_extend(0xFFF), 0xFFFF_FFFF);
}

#[test]
fn sign_extend_reads_twelve_bits_only() {
    assert_eq!(sign_extend(0xF7FF), 0x0000_07FF);
    assert_eq!(sign_extend(0x1800), 0xFFFF_F800);
}

#[test]
fn zero_extend_keeps_twelve_bits() {
    assert_eq!(zero_extend(0x000), 0);
    assert_eq!(zero_extend(0x800), 0x0000_0800);
    assert_eq!(zero_extend(0xFFF), 0x0000_0FFF);
    assert_eq!(zero_extend(0xFFFF), 0x0000_0FFF);
}

#[test]
fn add_and_sub_wrap_around() {
    assert_eq!(compute(Operation::Add, 5, 0xFFFF_FFFF), 4);
    assert_eq!(compute(Operation::Add, 0xFFFF_FFFF, 1), 0);
    assert_eq!(compute(Operation::Add, 0x7FFF_FFFF, 1), 0x8000_0000);
    assert_eq!(compute(Operation::Add, 2, 3), 5);
    assert_eq!(compute(Operation::Sub, 3, 5), 0xFFFF_FFFE);
    assert_eq!(compute(Operation::Sub, 5, 3), 2);
    assert_eq!(compute(Operation::Sub, 0, 0x8000_0000), 0x8000_0000);
}

#[test]
fn logical_operations_work_bit_by_bit() {
    assert_eq!(compute(Operation::Xor, 0b1100, 0b1010), 0b0110);
    assert_eq!(compute(Operation::Or, 0b1100, 0b1010), 0b1110);
    assert_eq!(compute(Operation::And, 0b1100, 0b1010), 0b1000);
    assert_eq!(compute(Operation::Xor, 0xFFFF_FFFF, 0xFFFF_FFFF), 0);
}

#[test]
fn shifts_go_by_the_low_five_bits() {
    assert_eq!(compute(Operation::Sll, 1, 31), 0x8000_0000);
    assert_eq!(compute(Operation::Sll, 1, 32), 1);
    assert_eq!(compute(Operation::Sll, 3, 33), 6);
    assert_eq!(compute(Operation::Sll, 0xC000_0001, 1), 0x8000_0002);
    assert_eq!(compute(Operation::Srl, 0x8000_0000, 31), 1);
    assert_eq!(compute(Operation::Srl, 0x8000_0000, 32), 0x8000_0000);
    assert_eq!(compute(Operation::Srl, 0x8000_0000, 0xFFFF_FFE4), 0x0800_0000);
    assert_eq!(compute(Operation::Sra, 0x8000_0000, 36), 0xF800_0000);
}

#[test]
fn arithmetic_shift_fills_with_the_sign() {
    assert_eq!(compute(Operation::Sra, 0x8000_0000, 4), 0xF800_0000);
    assert_eq!(compute(Operation::Srl, 0x8000_0000, 4), 0x0800_0000);
    assert_eq!(compute(Operation::Sra, 0x7FFF_FFFF, 4), 0x07FF_FFFF);
    assert_eq!(compute(Operation::Sra, 0xFFFF_FFFF, 31), 0xFFFF_FFFF);
    assert_eq!(compute(Operation::Sra, 0x8000_0000, 31), 0xFFFF_FFFF);
    assert_eq!(compute(Operation::Sra, 0x8000_0000, 0), 0x8000_0000);
    // -7 / 2 rounds down to -4
    assert_eq!(compute(Operation::Sra, 0xFFFF_FFF9, 1), 0xFFFF_FFFC);
}

#[test]
fn arithmetic_shift_keeps_the_sign_of_every_sample() {
    for word in [0u32, 1, 0x7FFF_FFFF, 0x8000_0000, 0x8000_0001, 0xDEAD_BEEF, 0xFFFF_FFFF] {
        for amount in 0u32..32 {
            let shifted = compute(Operation::Sra, word, amount);
            assert_eq!(shifted >= 0x8000_0000, word >= 0x8000_0000);
        }
    }
}

#[test]
fn comparisons_differ_on_the_sign() {
    assert_eq!(compute(Operation::Slt, 0xFFFF_FFFF, 1), 1);
    assert_eq!(compute(Operation::Sltu, 0xFFFF_FFFF, 1), 0);
    assert_eq!(compute(Operation::Slt, 1, 0xFFFF_FFFF), 0);
    assert_eq!(compute(Operation::Sltu, 1, 0xFFFF_FFFF), 1);
    assert_eq!(compute(Operation::Slt, 7, 7), 0);
    assert_eq!(compute(Operation::Sltu, 7, 7), 0);
    assert_eq!(compute(Operation::Slt, 0x8000_0000, 0x7FFF_FFFF), 1);
    assert_eq!(compute(Operation::Sltu, 0x8000_0000, 0x7FFF_FFFF), 0);
}

#[test]
fn immediate_table_selects_each_operation() {
    assert_eq!(select_immediate(0x0, 0xFFF), Some((Operation::Add, 0xFFFF_FFFF)));
    assert_eq!(select_immediate(0x4, 0xFFF), Some((Operation::Xor, 0x0000_0FFF)));
    assert_eq!(select_immediate(0x6, 0x800), Some((Operation::Or, 0x0000_0800)));
    assert_eq!(select_immediate(0x7, 0x0F0), Some((Operation::And, 0x0000_00F0)));
    assert_eq!(select_immediate(0x1, 0x01F), Some((Operation::Sll, 31)));
    assert_eq!(select_immediate(0x5, 0x004), Some((Operation::Srl, 4)));
    assert_eq!(select_immediate(0x5, 0x404), Some((Operation::Sra, 4)));
    assert_eq!(select_immediate(0x2, 0x801), Some((Operation::Slt, 0xFFFF_F801)));
    assert_eq!(select_immediate(0x3, 0x801), Some((Operation::Sltu, 0x0000_0801)));
}

#[test]
fn immediate_table_rejects_other_shift_kinds() {
    assert_eq!(select_immediate(0x1, 0x020), None);
    assert_eq!(select_immediate(0x1, 0x404), None);
    assert_eq!(select_immediate(0x5, 0x024), None);
    assert_eq!(select_immediate(0x5, 0x804), None);
    assert_eq!(select_immediate(0x1, 0x1001), None);
    assert_eq!(select_immediate(0x8, 0x000), None);
    assert_eq!(select_immediate(0xFF, 0x000), None);
}

#[test]
fn register_table_selects_each_operation() {
    assert_eq!(select_register(0x0, 0x00), Some(Operation::Add));
    assert_eq!(select_register(0x0, 0x20), Some(Operation::Sub));
    assert_eq!(select_register(0x1, 0x00), Some(Operation::Sll));
    assert_eq!(select_register(0x2, 0x00), Some(Operation::Slt));
    assert_eq!(select_register(0x3, 0x00), Some(Operation::Sltu));
    assert_eq!(select_register(0x4, 0x00), Some(Operation::Xor));
    assert_eq!(select_register(0x5, 0x00), Some(Operation::Srl));
    assert_eq!(select_register(0x5, 0x20), Some(Operation::Sra));
    assert_eq!(select_register(0x6, 0x00), Some(Operation::Or));
    assert_eq!(select_register(0x7, 0x00), Some(Operation::And));
}

#[test]
fn register_table_rejects_other_function_codes() {
    // funct7 = 1 is the multiply and divide extension
    for funct3 in 0u8..8 {
        assert_eq!(select_register(funct3, 0x01), None);
    }
    assert_eq!(select_register(0x1, 0x20), None);
    assert_eq!(select_register(0x4, 0x20), None);
    assert_eq!(select_register(0x0, 0x40), None);
    assert_eq!(select_register(0x8, 0x00), None);
}
