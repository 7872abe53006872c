use vstd::prelude::*;

use crate::instruction::{
    add16, field_dr, field_imm5, field_imm_mode, field_offset11, field_offset6, field_offset9,
    field_sr1, field_sr2, lemma_fields_in_range, set_dr, sext, sign_extend, wrapping_add16,
};
use crate::memory::Memory;
use crate::register::{CondFlag, RegFile, COND_REG, PC_REG};

verus! {

const DR_SHIFT: u16 = 9;

const SR1_SHIFT: u16 = 6;

const REG_MASK: u16 = 0x7;

const IMM_BIT: u16 = 5;

/// The second operand of ADD and AND: the immediate or register `sr2`.
pub open spec fn second_operand(instr: u16, regs: Seq<u16>) -> u16 {
    if field_imm_mode(instr) {
        field_imm5(instr)
    } else {
        regs[field_sr2(instr) as int]
    }
}

/// Whether a branch with the mask of `instr` is taken under condition code `cond`.
pub open spec fn branch_taken(instr: u16, cond: u16) -> bool {
    ((instr >> 9u16) & 7) & cond != 0
}

/// The address of a PC-relative access: program counter plus the 9-bit offset.
pub open spec fn pc_relative(instr: u16, regs: Seq<u16>) -> u16 {
    add16(regs[PC_REG as int], field_offset9(instr))
}

/// The address of a base-relative access: register `sr1` plus the 6-bit offset.
pub open spec fn base_relative(instr: u16, regs: Seq<u16>) -> u16 {
    add16(regs[field_sr1(instr) as int], field_offset6(instr))
}

/// Registers after ADD.
pub open spec fn spec_add(instr: u16, regs: Seq<u16>) -> Seq<u16> {
    set_dr(regs, field_dr(instr), add16(regs[field_sr1(instr) as int], second_operand(instr, regs)))
}

/// Registers after AND.
pub open spec fn spec_and(instr: u16, regs: Seq<u16>) -> Seq<u16> {
    set_dr(regs, field_dr(instr), regs[field_sr1(instr) as int] & second_operand(instr, regs))
}

/// Registers after NOT.
pub open spec fn spec_not(instr: u16, regs: Seq<u16>) -> Seq<u16> {
    set_dr(regs, field_dr(instr), !regs[field_sr1(instr) as int])
}

/// Registers after BR.
pub open spec fn spec_brx(instr: u16, regs: Seq<u16>) -> Seq<u16> {
    if branch_taken(instr, regs[COND_REG as int]) {
        regs.update(PC_REG as int, pc_relative(instr, regs))
    } else {
        regs
    }
}

/// Registers after JMP.
pub open spec fn spec_jmp(instr: u16, regs: Seq<u16>) -> Seq<u16> {
    regs.update(PC_REG as int, regs[field_sr1(instr) as int])
}

/// Registers after JSR / JSRR: R7 is written before the base register is read.
pub open spec fn spec_jsr(instr: u16, regs: Seq<u16>) -> Seq<u16> {
    let linked = regs.update(7, regs[PC_REG as int]);
    linked.update(
        PC_REG as int,
        if (instr >> 11u16) & 1 != 0 {
            add16(regs[PC_REG as int], field_offset11(instr))
        } else {
            linked[field_sr1(instr) as int]
        },
    )
}

/// Registers after LEA.
pub open spec fn spec_lea(instr: u16, regs: Seq<u16>) -> Seq<u16> {
    set_dr(regs, field_dr(instr), pc_relative(instr, regs))
}

/// Registers after LD.
pub open spec fn spec_ld(instr: u16, regs: Seq<u16>, mem: Seq<u16>) -> Seq<u16> {
    set_dr(regs, field_dr(instr), mem[pc_relative(instr, regs) as int])
}

/// Registers after LDI.
pub open spec fn spec_ldi(instr: u16, regs: Seq<u16>, mem: Seq<u16>) -> Seq<u16> {
    set_dr(regs, field_dr(instr), mem[mem[pc_relative(instr, regs) as int] as int])
}

/// Registers after LDR.
pub open spec fn spec_ldr(instr: u16, regs: Seq<u16>, mem: Seq<u16>) -> Seq<u16> {
    set_dr(regs, field_dr(instr), mem[base_relative(instr, regs) as int])
}

/// Memory after ST.
pub open spec fn spec_st(instr: u16, regs: Seq<u16>, mem: Seq<u16>) -> Seq<u16> {
    mem.update(pc_relative(instr, regs) as int, regs[field_dr(instr) as int])
}

/// Memory after STI.
pub open spec fn spec_sti(instr: u16, regs: Seq<u16>, mem: Seq<u16>) -> Seq<u16> {
    mem.update(mem[pc_relative(instr, regs) as int] as int, regs[field_dr(instr) as int])
}

/// Memory after STR.
pub open spec fn spec_str(instr: u16, regs: Seq<u16>, mem: Seq<u16>) -> Seq<u16> {
    mem.update(base_relative(instr, regs) as int, regs[field_dr(instr) as int])
}

/// ADD writes `(a + b) mod 65536` to its destination, where `a` is register `sr1`
/// and `b` the second operand, and sets the condition code from the sign of that
/// wrapped sum: ZERO for 0, NEGATIVE when bit 15 is set, POSITIVE otherwise.
pub proof fn lemma_add_wraps_and_flags(instr: u16, regs: Seq<u16>)
    requires
        regs.len() == 10,
    ensures
        ({
            let v = (regs[field_sr1(instr) as int] as int + second_operand(instr, regs) as int)
                % 65536;
            let after = spec_add(instr, regs);
            &&& after[field_dr(instr) as int] as int == v
            &&& v == 0 ==> after[COND_REG as int] == CondFlag::ZRO.spec_bits()
            &&& v >= 0x8000 ==> after[COND_REG as int] == CondFlag::NEG.spec_bits()
            &&& 0 < v < 0x8000 ==> after[COND_REG as int] == CondFlag::POS.spec_bits()
        }),
{
    lemma_fields_in_range(instr);
}

/// NOT is its own inverse: the complement of the complement of any word is that
/// word, so NOT applied twice to one register gives its first value back.
pub proof fn lemma_not_involutive(instr: u16, regs: Seq<u16>, x: u16)
    requires
        regs.len() == 10,
        field_dr(instr) == field_sr1(instr),
    ensures
        !(!x) == x,
        spec_not(instr, spec_not(instr, regs))[field_dr(instr) as int] == regs[field_dr(
            instr,
        ) as int],
{
    lemma_fields_in_range(instr);
    assert(!(!x) == x) by (bit_vector);
    let y = regs[field_sr1(instr) as int];
    assert(!(!y) == y) by (bit_vector);
}

/// BR is taken exactly when its mask shares a bit with the condition code. Taken,
/// the program counter becomes the post-fetch program counter plus the
/// sign-extended 9-bit offset, modulo 65536; not taken, nothing changes.
pub proof fn lemma_branch(instr: u16, regs: Seq<u16>)
    requires
        regs.len() == 10,
    ensures
        ((instr >> 9u16) & 7) & regs[COND_REG as int] != 0 ==> spec_brx(instr, regs)[PC_REG as int]
            == add16(regs[PC_REG as int], sext(instr & 0x1FF, 9)),
        ((instr >> 9u16) & 7) & regs[COND_REG as int] != 0 ==> spec_brx(instr, regs)
            == regs.update(PC_REG as int, spec_brx(instr, regs)[PC_REG as int]),
        ((instr >> 9u16) & 7) & regs[COND_REG as int] == 0 ==> spec_brx(instr, regs) == regs,
{
}

/// JSR and JSRR leave in R7 the program counter they found (the post-fetch value,
/// that is the return address), whichever way the target is computed.
pub proof fn lemma_jsr_links(instr: u16, regs: Seq<u16>)
    requires
        regs.len() == 10,
    ensures
        spec_jsr(instr, regs)[7] == regs[PC_REG as int],
{
}

/// The second operand of ADD and AND, read from the instruction and the registers.
fn read_second_operand(instr: u16, reg_file: &mut RegFile) -> (r: u16)
    ensures
        *final(reg_file) == *old(reg_file),
        r == second_operand(instr, old(reg_file)@),
{
    let imm_flag = (instr >> IMM_BIT) & 0x1;
    if imm_flag == 1 {
        sign_extend(instr & 0x1F, IMM_BIT as u8)
    } else {
        proof {
            lemma_fields_in_range(instr);
        }
        reg_file.read_reg(instr & REG_MASK)
    }
}

/// Writes `val` to register `dr` and sets the condition code from it.
fn write_dest(reg_file: &mut RegFile, dr: u16, val: u16)
    requires
        dr <= 7,
    ensures
        final(reg_file)@ == set_dr(old(reg_file)@, dr, val),
{
    reg_file.update_reg(dr, val);
    reg_file.update_cond_flag(dr);
}

/// ADD: `dr` gets `sr1` plus the second operand modulo 65536; the condition
/// code follows the sign of the sum.
pub fn instr_add(instr: u16, reg_file: &mut RegFile)
    ensures
        final(reg_file)@ == spec_add(instr, old(reg_file)@),
{
    proof {
        lemma_fields_in_range(instr);
    }
    let dr = (instr >> DR_SHIFT) & REG_MASK;
    let sr1 = (instr >> SR1_SHIFT) & REG_MASK;
    let operand = read_second_operand(instr, reg_file);
    let val = wrapping_add16(reg_file.read_reg(sr1), operand);
    write_dest(reg_file, dr, val);
}

/// AND: `dr` gets `sr1` and the second operand, bit by bit; the condition code
/// follows the sign of the result.
pub fn instr_and(instr: u16, reg_file: &mut RegFile)
    ensures
        final(reg_file)@ == spec_and(instr, old(reg_file)@),
{
    proof {
        lemma_fields_in_range(instr);
    }
    let dr = (instr >> DR_SHIFT) & REG_MASK;
    let sr1 = (instr >> SR1_SHIFT) & REG_MASK;
    let operand = read_second_operand(instr, reg_file);
    let val = reg_file.read_reg(sr1) & operand;
    write_dest(reg_file, dr, val);
}

/// BR: when the mask in bits 9 to 11 shares a bit with the condition code, the
/// program counter moves by the 9-bit offset; otherwise nothing changes.
pub fn instr_brx(instr: u16, reg_file: &mut RegFile)
    ensures
        final(reg_file)@ == spec_brx(instr, old(reg_file)@),
{
    let pc_offset = sign_extend(instr & 0x1ff, 9);
    let cond_flag = (instr >> 9u16) & 0x7;
    if cond_flag & reg_file.r_cond != 0 {
        let next_pc = wrapping_add16(reg_file.r_pc, pc_offset);
        reg_file.update_reg(PC_REG, next_pc);
    }
}

/// JMP (and RET, with base register 7): the program counter gets the base register.
pub fn instr_jmp(instr: u16, reg_file: &mut RegFile)
    ensures
        final(reg_file)@ == spec_jmp(instr, old(reg_file)@),
{
    proof {
        lemma_fields_in_range(instr);
    }
    let base_reg = (instr >> 6u16) & 0x7;
    let target = reg_file.read_reg(base_reg);
    reg_file.update_reg(PC_REG, target);
}

/// JSR / JSRR: R7 gets the program counter (the return address); then, with bit
/// 11 set, the program counter moves by the 11-bit offset, and otherwise it gets
/// the base register, read after R7 was written.
pub fn instr_jsr(instr: u16, reg_file: &mut RegFile)
    ensures
        final(reg_file)@ == spec_jsr(instr, old(reg_file)@),
{
    proof {
        lemma_fields_in_range(instr);
    }
    let base_reg = (instr >> 6u16) & 0x7;
    let pc_offset = sign_extend(instr & 0x7ff, 11);
    let flag = (instr >> 11u16) & 1;
    let return_addr = reg_file.r_pc;
    reg_file.update_reg(7, return_addr);
    if flag != 0 {
        let target = wrapping_add16(return_addr, pc_offset);
        reg_file.update_reg(PC_REG, target);
    } else {
        let target = reg_file.read_reg(base_reg);
        reg_file.update_reg(PC_REG, target);
    }
}

/// LD: `dr` gets the word at the program counter plus the 9-bit offset.
pub fn instr_ld(instr: u16, reg_file: &mut RegFile, mem: &mut Memory)
    requires
        old(mem).wf(),
    ensures
        *final(mem) == *old(mem),
        final(reg_file)@ == spec_ld(instr, old(reg_file)@, old(mem)@),
{
    proof {
        lemma_fields_in_range(instr);
    }
    let dr = (instr >> DR_SHIFT) & REG_MASK;
    let pc_offset = sign_extend(instr & 0x1ff, 9);
    let address = wrapping_add16(reg_file.r_pc, pc_offset);
    let val = mem.read(address);
    write_dest(reg_file, dr, val);
}

/// LDI: `dr` gets the word at the address stored at the program counter plus the
/// 9-bit offset.
pub fn instr_ldi(instr: u16, reg_file: &mut RegFile, mem: &mut Memory)
    requires
        old(mem).wf(),
    ensures
        *final(mem) == *old(mem),
        final(reg_file)@ == spec_ldi(instr, old(reg_file)@, old(mem)@),
{
    proof {
        lemma_fields_in_range(instr);
    }
    let dr = (instr >> DR_SHIFT) & REG_MASK;
    let pc_offset = sign_extend(instr & 0x1ff, 9);
    let address = mem.read(wrapping_add16(reg_file.r_pc, pc_offset));
    let val = mem.read(address);
    write_dest(reg_file, dr, val);
}

/// LDR: `dr` gets the word at the base register plus the 6-bit offset.
pub fn instr_ldr(instr: u16, reg_file: &mut RegFile, mem: &mut Memory)
    requires
        old(mem).wf(),
    ensures
        *final(mem) == *old(mem),
        final(reg_file)@ == spec_ldr(instr, old(reg_file)@, old(mem)@),
{
    proof {
        lemma_fields_in_range(instr);
    }
    let dr = (instr >> DR_SHIFT) & REG_MASK;
    let sr1 = (instr >> SR1_SHIFT) & REG_MASK;
    let offset = sign_extend(instr & 0x3f, 6);
    let address = wrapping_add16(reg_file.read_reg(sr1), offset);
    let val = mem.read(address);
    write_dest(reg_file, dr, val);
}

/// LEA: `dr` gets the program counter plus the 9-bit offset; memory is not read.
pub fn instr_lea(instr: u16, reg_file: &mut RegFile)
    ensures
        final(reg_file)@ == spec_lea(instr, old(reg_file)@),
{
    proof {
        lemma_fields_in_range(instr);
    }
    let dr = (instr >> DR_SHIFT) & REG_MASK;
    let pc_offset = sign_extend(instr & 0x1ff, 9);
    let val = wrapping_add16(reg_file.r_pc, pc_offset);
    write_dest(reg_file, dr, val);
}

/// NOT: `dr` gets the bitwise complement of `sr1`.
pub fn instr_not(instr: u16, reg_file: &mut RegFile)
    ensures
        final(reg_file)@ == spec_not(instr, old(reg_file)@),
{
    proof {
        lemma_fields_in_range(instr);
    }
    let dr = (instr >> DR_SHIFT) & REG_MASK;
    let sr1 = (instr >> SR1_SHIFT) & REG_MASK;
    let val = reg_file.read_reg(sr1);
    write_dest(reg_file, dr, !val);
}

/// ST: the word at the program counter plus the 9-bit offset gets register `sr`
/// (bits 9 to 11).
pub fn instr_st(instr: u16, reg_file: &mut RegFile, mem: &mut Memory)
    requires
        old(mem).wf(),
    ensures
        *final(reg_file) == *old(reg_file),
        final(mem).wf(),
        final(mem)@ == spec_st(instr, old(reg_file)@, old(mem)@),
{
    proof {
        lemma_fields_in_range(instr);
    }
    let sr = (instr >> DR_SHIFT) & REG_MASK;
    let pc_offset = sign_extend(instr & 0x1ff, 9);
    let address = wrapping_add16(reg_file.r_pc, pc_offset);
    mem.write(address, reg_file.read_reg(sr));
}

/// STI: the word at the address stored at the program counter plus the 9-bit
/// offset gets register `sr` (bits 9 to 11).
pub fn instr_sti(instr: u16, reg_file: &mut RegFile, mem: &mut Memory)
    requires
        old(mem).wf(),
    ensures
        *final(reg_file) == *old(reg_file),
        final(mem).wf(),
        final(mem)@ == spec_sti(instr, old(reg_file)@, old(mem)@),
{
    proof {
        lemma_fields_in_range(instr);
    }
    let sr = (instr >> DR_SHIFT) & REG_MASK;
    let pc_offset = sign_extend(instr & 0x1ff, 9);
    let addr1 = wrapping_add16(reg_file.r_pc, pc_offset);
    let addr2 = mem.read(addr1);
    mem.write(addr2, reg_file.read_reg(sr));
}

/// STR: the word at the base register plus the 6-bit offset gets register `sr`
/// (bits 9 to 11).
pub fn instr_str(instr: u16, reg_file: &mut RegFile, mem: &mut Memory)
    requires
        old(mem).wf(),
    ensures
        *final(reg_file) == *old(reg_file),
        final(mem).wf(),
        final(mem)@ == spec_str(instr, old(reg_file)@, old(mem)@),
{
    proof {
        lemma_fields_in_range(instr);
    }
    let sr = (instr >> DR_SHIFT) & REG_MASK;
    let sr1 = (instr >> SR1_SHIFT) & REG_MASK;
    let offset = sign_extend(instr & 0x3f, 6);
    let address = wrapping_add16(reg_file.read_reg(sr1), offset);
    mem.write(address, reg_file.read_reg(sr));
}

} // verus!
