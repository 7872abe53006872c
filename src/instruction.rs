use vstd::prelude::*;

use crate::register::{cond_bits, COND_REG};

pub mod instr;
pub mod trap;

verus! {

/// Bits 9 to 11: the destination register (or the source of a store).
pub open spec fn field_dr(instr: u16) -> u16 {
    (instr >> 9u16) & 7
}

/// Bits 6 to 8: the first source register, or the base register.
pub open spec fn field_sr1(instr: u16) -> u16 {
    (instr >> 6u16) & 7
}

/// Bits 0 to 2: the second source register.
pub open spec fn field_sr2(instr: u16) -> u16 {
    instr & 7
}

/// Bit 5: whether ADD and AND take an immediate operand.
pub open spec fn field_imm_mode(instr: u16) -> bool {
    (instr >> 5u16) & 1 == 1
}

/// The 5-bit immediate, sign-extended.
pub open spec fn field_imm5(instr: u16) -> u16 {
    sext(instr & 0x1F, 5)
}

/// The 6-bit offset, sign-extended.
pub open spec fn field_offset6(instr: u16) -> u16 {
    sext(instr & 0x3F, 6)
}

/// The 9-bit offset, sign-extended.
pub open spec fn field_offset9(instr: u16) -> u16 {
    sext(instr & 0x1FF, 9)
}

/// The 11-bit offset, sign-extended.
pub open spec fn field_offset11(instr: u16) -> u16 {
    sext(instr & 0x7FF, 11)
}

/// Sum of two words modulo 65536.
pub open spec fn add16(a: u16, b: u16) -> u16 {
    ((a as int + b as int) % 0x10000) as u16
}

/// Register file `regs` after `v` is written to register `d` and the condition
/// code is set from it.
pub open spec fn set_dr(regs: Seq<u16>, d: u16, v: u16) -> Seq<u16> {
    regs.update(d as int, v).update(COND_REG as int, cond_bits(v))
}

/// Each register field is an index of a general-purpose register.
pub proof fn lemma_fields_in_range(instr: u16)
    ensures
        field_dr(instr) <= 7,
        field_sr1(instr) <= 7,
        field_sr2(instr) <= 7,
{
    assert((instr >> 9u16) & 7 <= 7 && (instr >> 6u16) & 7 <= 7 && instr & 7 <= 7) by (bit_vector);
}

/// The sum of two words, wrapping modulo 65536.
pub fn wrapping_add16(a: u16, b: u16) -> (r: u16)
    ensures
        r == add16(a, b),
{
    let s: u32 = a as u32 + b as u32;
    assert((s as u16) == ((a as int + b as int) % 0x10000) as u16) by (bit_vector)
        requires
            s == a + b,
    ;
    s as u16
}

/// `x` with bit `n - 1` copied into bits `n` to 15.
pub open spec fn sext(x: u16, n: u16) -> u16 {
    if (x >> ((n - 1) as u16)) & 1 == 0 {
        x
    } else {
        x | (0xFFFFu16 << n)
    }
}

/// Sign-extends the `bit_count`-bit field held in the low bits of `x` to 16 bits:
/// when bit `bit_count - 1` is set, every higher bit is set; otherwise `x` is kept.
pub fn sign_extend(x: u16, bit_count: u8) -> (r: u16)
    requires
        1 <= bit_count <= 15,
    ensures
        r == sext(x, bit_count as u16),
        (x >> ((bit_count - 1) as u16)) & 1 == 0 ==> r == x,
        (x >> ((bit_count - 1) as u16)) & 1 == 1 ==> r >> (bit_count as u16) == 0xFFFFu16
            >> (bit_count as u16),
        (x >> ((bit_count - 1) as u16)) & 1 == 1 ==> r & !(0xFFFFu16 << (bit_count as u16)) == x
            & !(0xFFFFu16 << (bit_count as u16)),
{
    let n: u16 = bit_count as u16;
    let mut y: u16 = x;
    if (x >> (n - 1)) & 1 != 0 {
        y = x | (0xFFFFu16 << n);
    }
    assert((x >> ((n - 1) as u16)) & 1 == 1 ==> (x | (0xFFFFu16 << n)) >> n == 0xFFFFu16 >> n
        && (x | (0xFFFFu16 << n)) & !(0xFFFFu16 << n) == x & !(0xFFFFu16 << n)) by (bit_vector)
        requires
            1 <= n <= 15,
    ;
    assert((x >> ((n - 1) as u16)) & 1 != 0 <==> (x >> ((n - 1) as u16)) & 1 == 1) by (bit_vector);
    y
}

} // verus!
