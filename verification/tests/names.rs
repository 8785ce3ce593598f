use rv32i::cpu::Cpu;
use rv32i::names::same_text;

#[test]
fn same_text_compares_contents() {
    assert!(same_text("sp", "sp"));
    assert!(same_text("", ""));
    assert!(!same_text("sp", "s"));
    assert!(!same_text("s", "sp"));
    assert!(!same_text("s1", "s10"));
    assert!(!same_text("t0", "t1"));
    assert!(!same_text("", "a0"));
}

#[test]
fn same_text_takes_text_outside_ascii() {
    assert!(same_text("zéro", "zéro"));
    assert!(!same_text("zéro", "zero"));
    assert!(!same_text("é", "è"));
}

#[test]
fn registers_carry_both_names_in_order() {
    let abi = [
        "zero", "ra", "sp", "gp", "tp", "t0", "t1", "t2", "s0", "s1", "a0", "a1", "a2", "a3",
        "a4", "a5", "a6", "a7", "s2", "s3", "s4", "s5", "s6", "s7", "s8", "s9", "s10", "s11",
        "t3", "t4", "t5", "t6",
    ];
    let cpu = Cpu::new();
    for index in 0..32 {
        let reg = cpu.reg(index);
        assert_eq!(reg.name, format!("x{}", index));
        assert_eq!(reg.abi_name, abi[index]);
    }
}

#[test]
fn every_abi_name_finds_its_register() {
    let mut cpu = Cpu::new();
    for index in 1..32 {
        cpu.write_reg(index, 1000 + index as u32);
    }
    for index in 0..32 {
        let by_index = cpu.reg(index);
        let by_name = cpu.reg_by_abi_name(by_index.abi_name).unwrap();
        assert_eq!(by_name.name, by_index.name);
        assert_eq!(by_name.abi_name, by_index.abi_name);
        assert_eq!(by_name.value, by_index.value);
    }
    assert_eq!(cpu.reg_by_abi_name("zero").unwrap().value, 0);
    assert_eq!(cpu.reg_by_abi_name("s11").unwrap().value, 1027);
    assert_eq!(cpu.reg_by_abi_name("t6").unwrap().name, "x31");
}

#[test]
fn stack_pointer_is_found_by_its_abi_name() {
    let cpu = Cpu::new();
    let sp = cpu.reg_by_abi_name("sp").unwrap();
    assert_eq!(sp.name, "x2");
    assert_eq!(sp.value, 131072);
}

#[test]
fn other_names_find_no_register() {
    let cpu = Cpu::new();
    assert!(cpu.reg_by_abi_name("").is_none());
    assert!(cpu.reg_by_abi_name("x2").is_none());
    assert!(cpu.reg_by_abi_name("fp").is_none());
    assert!(cpu.reg_by_abi_name("SP").is_none());
    assert!(cpu.reg_by_abi_name("s12").is_none());
    assert!(cpu.reg_by_abi_name("sp ").is_none());
}
