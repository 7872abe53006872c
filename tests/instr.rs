use lc3_vm::instruction::instr::{
    instr_add, instr_and, instr_brx, instr_jmp, instr_jsr, instr_ld, instr_ldi, instr_ldr,
    instr_lea, instr_not, instr_st, instr_sti, instr_str,
};
use lc3_vm::memory::Memory;
use lc3_vm::register::{CondFlag, RegFile, COND_REG, PC_REG};

#[test]
fn test_instr_add() {
    let mut reg_file = RegFile::new();
    reg_file.update_reg(1, 3);
    reg_file.update_reg(2, 4);
    let binary_instr: u16 = 0b0001011001000010; // R3 <- R1 + R2
    instr_add(binary_instr, &mut reg_file);
    let value = reg_file.read_reg(3);
    assert_eq!(value, 7 as u16);
}

#[test]
fn test_instr_add2() {
    let mut reg_file = RegFile::new();
    reg_file.update_reg(4, 13);
    let binary_instr: u16 = 0b0001010100100011; // R2 <- R4 + 3
    instr_add(binary_instr, &mut reg_file);
    let value = reg_file.read_reg(2);
    assert_eq!(value, 16 as u16);
}

#[test]
fn test_instr_and() {
    let mut reg_file = RegFile::new();
    reg_file.update_reg(1, 0b0011 as u16);
    reg_file.update_reg(2, 0b1110 as u16);
    let binary_instr: u16 = 0b0101011001000010;
    instr_and(binary_instr, &mut reg_file); // R3 <- R1 & R2
    let value = reg_file.read_reg(3);
    assert_eq!(value, 0b0010 as u16);
}

#[test]
fn test_instr_and2() {
    let mut reg_file = RegFile::new();
    reg_file.update_reg(1, 0b1110 as u16);
    let binary_instr: u16 = 0b0101010001100110; // R2 <- R1 & 00110
    instr_and(binary_instr, &mut reg_file);
    let value = reg_file.read_reg(2);
    assert_eq!(value, 0b0110 as u16);
}

#[test]
fn test_instr_brz() {
    let mut reg_file = RegFile::new();
    let and: u16 = 0b0101001001100000;
    let brz: u16 = 0b0000010010101011;
    instr_and(and, &mut reg_file);
    let pc_val = reg_file.read_reg(PC_REG);
    instr_brx(brz, &mut reg_file);
    let value = reg_file.read_reg(PC_REG);
    assert_eq!(value - pc_val, 0b010101011 as u16);
}

#[test]
fn test_instr_brn() {
    let mut reg_file = RegFile::new();
    let add: u16 = 0b0101001001111100;
    let brn: u16 = 0b0000100001110110;
    instr_add(add, &mut reg_file);
    let pc_val = reg_file.read_reg(PC_REG);
    instr_brx(brn, &mut reg_file);
    let value = reg_file.read_reg(PC_REG);
    assert_eq!(value - pc_val, 0b001110110 as u16);
}

#[test]
fn test_instr_brp() {
    let mut reg_file = RegFile::new();
    let add: u16 = 0b0101001001100001;
    let brp: u16 = 0b0000001000111000; // PC <- PC + 000111000
    instr_add(add, &mut reg_file);
    let pc_val = reg_file.read_reg(PC_REG);
    instr_brx(brp, &mut reg_file);
    let value = reg_file.read_reg(PC_REG);
    assert_eq!(value - pc_val, 0b000111000);
}

#[test]
fn test_instr_jmp() {
    let mut reg_file = RegFile::new();
    reg_file.update_reg(1, 0b0111 as u16);
    let jmp: u16 = 0b1100000001000000;
    instr_jmp(jmp, &mut reg_file);
    let value = reg_file.read_reg(PC_REG);
    assert_eq!(value, 0b0111 as u16);
}

#[test]
fn test_instr_jsr() {
    let mut reg_file = RegFile::new();
    let jsr: u16 = 0b0100100011011010;
    let pc_val = reg_file.read_reg(PC_REG);
    instr_jsr(jsr, &mut reg_file);
    let r7 = reg_file.read_reg(7);
    let value = reg_file.read_reg(PC_REG);
    assert!((r7 == pc_val) && (value - pc_val == 0b00011011010 as u16));
}

#[test]
fn test_instr_jsrr() {
    let mut reg_file = RegFile::new();
    reg_file.update_reg(2, 0b011101 as u16);
    let jsrr: u16 = 0b0100000010000000;
    let pc_val = reg_file.read_reg(PC_REG);
    instr_jsr(jsrr, &mut reg_file);
    let r7 = reg_file.read_reg(7);
    let value = reg_file.read_reg(PC_REG);
    assert!((r7 == pc_val) && (value == 0b011101 as u16));
}

#[test]
fn test_instr_ld() {
    let mut reg_file = RegFile::new();
    let mut mem = Memory::new();
    let location = (0x3000 + 0x25) as u16;
    mem.write(location, 0x333 as u16);
    let ld = (0b0010001000000000 | 0x25) as u16;
    instr_ld(ld, &mut reg_file, &mut mem);
    let value = reg_file.read_reg(1);
    assert_eq!(value, 0x333 as u16);
}

#[test]
fn test_instr_ldi() {
    let mut reg_file = RegFile::new();
    let mut mem = Memory::new();
    let addr = (0x3000 + 0x35) as u16;
    mem.write(addr, 0x3333 as u16);
    mem.write(0x3333, 0x1528);
    let ldi = (0b1010001000000000 | 0x35) as u16;
    instr_ldi(ldi, &mut reg_file, &mut mem);
    let value = reg_file.read_reg(1);
    assert_eq!(value, 0x1528 as u16);
}

#[test]
fn test_instr_ldr() {
    let mut reg_file = RegFile::new();
    let mut mem = Memory::new();
    let addr = (0x2099 + 0x00F) as u16;
    mem.write(addr, 0x5555);
    reg_file.update_reg(5, 0x2099);
    let ldr = (0b0110010101000000 | 0x00F) as u16;
    instr_ldr(ldr, &mut reg_file, &mut mem);
    let value = reg_file.read_reg(2);
    println!("{}", value);
    assert_eq!(value, 0x5555);
}

#[test]
fn test_instr_lea() {
    let mut reg_file = RegFile::new();
    let addr = (0x3000 + 0x003B) as u16;
    let lea = (0b1110110000000000 | 0x003B) as u16;
    instr_lea(lea, &mut reg_file);
    let value = reg_file.read_reg(6);
    assert_eq!(value, addr);
}

#[test]
fn test_instr_not() {
    let mut reg_file = RegFile::new();
    let not = 0b1001001001111111 as u16;
    reg_file.update_reg(1, 0xFFFF);
    instr_not(not, &mut reg_file);
    let value = reg_file.read_reg(1);
    assert_eq!(value, 0x0000 as u16);
}

#[test]
fn add_wraps_to_zero_and_sets_zero_flag() {
    let mut reg_file = RegFile::new();
    reg_file.update_reg(1, 0xFFFF);
    reg_file.update_reg(2, 1);
    instr_add(0b0001_011_001_0_00_010, &mut reg_file); // R3 <- R1 + R2
    assert_eq!(reg_file.read_reg(3), 0);
    assert_eq!(reg_file.read_reg(COND_REG), CondFlag::ZRO.bits());
}

#[test]
fn add_wraps_past_the_top_and_flags_the_sign() {
    let mut reg_file = RegFile::new();
    reg_file.update_reg(1, 0x7FFF);
    reg_file.update_reg(2, 0x7FFF);
    instr_add(0b0001_011_001_0_00_010, &mut reg_file);
    assert_eq!(reg_file.read_reg(3), 0xFFFE);
    assert_eq!(reg_file.read_reg(COND_REG), CondFlag::NEG.bits());
    reg_file.update_reg(1, 0xFFFE);
    reg_file.update_reg(2, 0x0005);
    instr_add(0b0001_011_001_0_00_010, &mut reg_file);
    assert_eq!(reg_file.read_reg(3), 3);
    assert_eq!(reg_file.read_reg(COND_REG), CondFlag::POS.bits());
}

#[test]
fn add_negative_immediate() {
    let mut reg_file = RegFile::new();
    reg_file.update_reg(4, 10);
    instr_add(0b0001_010_100_1_11101, &mut reg_file); // R2 <- R4 + (-3)
    assert_eq!(reg_file.read_reg(2), 7);
    assert_eq!(reg_file.read_reg(4), 10);
}

#[test]
fn and_negative_immediate_keeps_high_bits() {
    let mut reg_file = RegFile::new();
    reg_file.update_reg(1, 0xF0F3);
    instr_and(0b0101_010_001_1_11110, &mut reg_file); // R2 <- R1 & 0xFFFE
    assert_eq!(reg_file.read_reg(2), 0xF0F2);
    assert_eq!(reg_file.read_reg(COND_REG), CondFlag::NEG.bits());
}

#[test]
fn not_twice_gives_the_value_back() {
    let mut reg_file = RegFile::new();
    reg_file.update_reg(5, 0x1234);
    let not = 0b1001_101_101_111111; // R5 <- NOT R5
    instr_not(not, &mut reg_file);
    assert_eq!(reg_file.read_reg(5), 0xEDCB);
    assert_eq!(reg_file.read_reg(COND_REG), CondFlag::NEG.bits());
    instr_not(not, &mut reg_file);
    assert_eq!(reg_file.read_reg(5), 0x1234);
    assert_eq!(reg_file.read_reg(COND_REG), CondFlag::POS.bits());
}

#[test]
fn branch_not_taken_changes_nothing() {
    let mut reg_file = RegFile::new();
    reg_file.update_reg(1, 5);
    reg_file.update_cond_flag(1); // POSITIVE
    let brnz: u16 = 0b0000_110_000010000;
    instr_brx(brnz, &mut reg_file);
    assert_eq!(reg_file.read_reg(PC_REG), 0x3000);
    assert_eq!(reg_file.read_reg(COND_REG), CondFlag::POS.bits());
}

#[test]
fn branch_backwards_with_negative_offset() {
    let mut reg_file = RegFile::new();
    reg_file.update_cond_flag(0); // ZERO
    let brz_back: u16 = 0b0000_010_111111110; // offset -2
    instr_brx(brz_back, &mut reg_file);
    assert_eq!(reg_file.read_reg(PC_REG), 0x2FFE);
}

#[test]
fn branch_with_zero_condition_code_is_not_taken() {
    let mut reg_file = RegFile::new();
    let brnzp: u16 = 0b0000_111_000000100;
    instr_brx(brnzp, &mut reg_file);
    assert_eq!(reg_file.read_reg(PC_REG), 0x3000);
}

#[test]
fn jsrr_through_r7_keeps_the_return_address() {
    let mut reg_file = RegFile::new();
    reg_file.update_reg(7, 0x4000);
    let jsrr_r7: u16 = 0b0100_0_00_111_000000;
    instr_jsr(jsrr_r7, &mut reg_file);
    assert_eq!(reg_file.read_reg(7), 0x3000);
    assert_eq!(reg_file.read_reg(PC_REG), 0x3000);
}

#[test]
fn jsr_negative_offset() {
    let mut reg_file = RegFile::new();
    let jsr: u16 = 0b0100_1_11111111111; // offset -1
    instr_jsr(jsr, &mut reg_file);
    assert_eq!(reg_file.read_reg(7), 0x3000);
    assert_eq!(reg_file.read_reg(PC_REG), 0x2FFF);
}

#[test]
fn ldi_scenario_through_0x3025() {
    let mut reg_file = RegFile::new();
    let mut mem = Memory::new();
    mem.write(0x3333, 0x1528);
    mem.write(0x3025, 0x3333);
    let ldi = 0b1010_001_000000000 | 0x25;
    instr_ldi(ldi, &mut reg_file, &mut mem);
    assert_eq!(reg_file.read_reg(1), 0x1528);
    assert_eq!(reg_file.read_reg(COND_REG), CondFlag::POS.bits());
}

#[test]
fn ld_negative_offset_and_flag() {
    let mut reg_file = RegFile::new();
    let mut mem = Memory::new();
    mem.write(0x2F00, 0x8001);
    let ld = 0b0010_011_100000000; // R3 <- mem[PC - 256]
    instr_ld(ld, &mut reg_file, &mut mem);
    assert_eq!(reg_file.read_reg(3), 0x8001);
    assert_eq!(reg_file.read_reg(COND_REG), CondFlag::NEG.bits());
}

#[test]
fn ldr_wraps_around_address_zero() {
    let mut reg_file = RegFile::new();
    let mut mem = Memory::new();
    mem.write(0xFFFF, 0x0042);
    reg_file.update_reg(2, 0x0000);
    let ldr = 0b0110_100_010_111111; // R4 <- mem[R2 - 1]
    instr_ldr(ldr, &mut reg_file, &mut mem);
    assert_eq!(reg_file.read_reg(4), 0x0042);
}

#[test]
fn lea_sets_flag_without_reading_memory() {
    let mut reg_file = RegFile::new();
    let lea = 0b1110_000_111111111; // R0 <- PC - 1
    instr_lea(lea, &mut reg_file);
    assert_eq!(reg_file.read_reg(0), 0x2FFF);
    assert_eq!(reg_file.read_reg(COND_REG), CondFlag::POS.bits());
}

#[test]
fn store_family_writes_memory_only() {
    let mut reg_file = RegFile::new();
    let mut mem = Memory::new();
    reg_file.update_reg(3, 0xBEEF);
    instr_st(0b0011_011_000000101, &mut reg_file, &mut mem); // mem[0x3005] <- R3
    assert_eq!(mem.read(0x3005), 0xBEEF);
    mem.write(0x3010, 0x4444);
    instr_sti(0b1011_011_000010000, &mut reg_file, &mut mem); // mem[mem[0x3010]] <- R3
    assert_eq!(mem.read(0x4444), 0xBEEF);
    reg_file.update_reg(6, 0x5000);
    instr_str(0b0111_011_110_111110, &mut reg_file, &mut mem); // mem[R6 - 2] <- R3
    assert_eq!(mem.read(0x4FFE), 0xBEEF);
    assert_eq!(reg_file.read_reg(COND_REG), 0);
}
