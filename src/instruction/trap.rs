use vstd::prelude::*;

use crate::instruction::{add16, wrapping_add16};
use crate::memory::Memory;
use crate::register::RegFile;

verus! {

/// Read one character into R0.
pub const GETC: u16 = 0x20;

/// Write the low byte of R0.
pub const OUT: u16 = 0x21;

/// Write the string at the address in R0, one character per word.
pub const PUTS: u16 = 0x22;

/// Prompt, then read one character into R0.
pub const IN: u16 = 0x23;

/// Write the string at the address in R0, two characters per word.
pub const PUTSP: u16 = 0x24;

/// Stop the machine.
pub const HALT: u16 = 0x25;

/// Most words a string output reads: one full pass over memory. A string with no
/// zero word ends there.
pub const STRING_WORD_LIMIT: u32 = 0x10000;

/// The service a TRAP instruction asks for, from the low byte of the instruction.
#[derive(Debug, Clone, Copy, PartialEq, Eq, Structural)]
pub enum TrapVector {
    Getc,
    Out,
    Puts,
    In,
    Putsp,
    Halt,
}

/// The vector in the low byte of `instr`, if it names a service.
pub open spec fn spec_trap_vector(instr: u16) -> Option<TrapVector> {
    let v = instr & 0xFF;
    if v == GETC {
        Some(TrapVector::Getc)
    } else if v == OUT {
        Some(TrapVector::Out)
    } else if v == PUTS {
        Some(TrapVector::Puts)
    } else if v == IN {
        Some(TrapVector::In)
    } else if v == PUTSP {
        Some(TrapVector::Putsp)
    } else if v == HALT {
        Some(TrapVector::Halt)
    } else {
        None
    }
}

/// Decodes the low byte of a TRAP instruction.
pub fn trap_vector(instr: u16) -> (r: Option<TrapVector>)
    ensures
        r == spec_trap_vector(instr),
{
    let v = instr & 0xff;
    match v {
        GETC => Some(TrapVector::Getc),
        OUT => Some(TrapVector::Out),
        PUTS => Some(TrapVector::Puts),
        IN => Some(TrapVector::In),
        PUTSP => Some(TrapVector::Putsp),
        HALT => Some(TrapVector::Halt),
        _ => None,
    }
}

/// What a TRAP instruction needs from the character streams.
#[derive(Debug, Clone, PartialEq, Eq)]
pub enum TrapEffect {
    /// Read one byte (after a prompt, when `prompt` holds) and hand it to
    /// `store_input`.
    Input { prompt: bool },
    /// Write these bytes and flush.
    Output { bytes: Vec<u8> },
    /// Stop running.
    Halt,
}

/// The error of a TRAP instruction.
#[derive(Debug, Clone, Copy, PartialEq, Eq, Structural)]
pub enum TrapError {
    /// The low byte names no service.
    InvalidVector { vector: u16 },
}

/// The characters of PUTS: the low byte of each word from `addr` on, up to the
/// first zero word, reading at most `fuel` words; addresses wrap.
pub open spec fn puts_text(mem: Seq<u16>, addr: u16, fuel: nat) -> Seq<u8>
    decreases fuel,
{
    if fuel == 0 || mem[addr as int] == 0 {
        seq![]
    } else {
        seq![(mem[addr as int] & 0xFF) as u8] + puts_text(mem, add16(addr, 1), (fuel - 1) as nat)
    }
}

/// The two characters packed in `w`: the low byte, then the high byte unless it
/// is zero.
pub open spec fn packed_chars(w: u16) -> Seq<u8> {
    if (w >> 8u16) as u8 == 0 {
        seq![(w & 0xFF) as u8]
    } else {
        seq![(w & 0xFF) as u8, (w >> 8u16) as u8]
    }
}

/// The characters of PUTSP: the packed characters of each word from `addr` on,
/// up to the first zero word, reading at most `fuel` words; addresses wrap.
pub open spec fn putsp_text(mem: Seq<u16>, addr: u16, fuel: nat) -> Seq<u8>
    decreases fuel,
{
    if fuel == 0 || mem[addr as int] == 0 {
        seq![]
    } else {
        packed_chars(mem[addr as int]) + putsp_text(mem, add16(addr, 1), (fuel - 1) as nat)
    }
}

/// Whether the service writes to the output.
pub open spec fn writes_output(v: Option<TrapVector>) -> bool {
    v == Some(TrapVector::Out) || v == Some(TrapVector::Puts) || v == Some(TrapVector::Putsp)
}

/// The bytes that OUT, PUTS or PUTSP writes, given R0 and memory.
pub open spec fn trap_output(instr: u16, r0: u16, mem: Seq<u16>) -> Seq<u8> {
    if spec_trap_vector(instr) == Some(TrapVector::Out) {
        seq![r0 as u8]
    } else if spec_trap_vector(instr) == Some(TrapVector::Puts) {
        puts_text(mem, r0, STRING_WORD_LIMIT as nat)
    } else {
        putsp_text(mem, r0, STRING_WORD_LIMIT as nat)
    }
}

/// The bytes that PUTS (or, with `packed`, PUTSP) writes for the string at `start`.
fn string_bytes(mem: &Memory, start: u16, packed: bool) -> (r: Vec<u8>)
    requires
        mem.wf(),
    ensures
        !packed ==> r@ == puts_text(mem@, start, STRING_WORD_LIMIT as nat),
        packed ==> r@ == putsp_text(mem@, start, STRING_WORD_LIMIT as nat),
{
    let ghost full = if packed {
        putsp_text(mem@, start, STRING_WORD_LIMIT as nat)
    } else {
        puts_text(mem@, start, STRING_WORD_LIMIT as nat)
    };
    let mut out: Vec<u8> = Vec::new();
    let mut addr: u16 = start;
    let mut count: u32 = 0;
    loop
        invariant
            mem.wf(),
            count <= STRING_WORD_LIMIT,
            full == if packed {
                putsp_text(mem@, start, STRING_WORD_LIMIT as nat)
            } else {
                puts_text(mem@, start, STRING_WORD_LIMIT as nat)
            },
            !packed ==> out@ + puts_text(mem@, addr, (STRING_WORD_LIMIT - count) as nat) == full,
            packed ==> out@ + putsp_text(mem@, addr, (STRING_WORD_LIMIT - count) as nat) == full,
        ensures
            out@ == full,
        decreases STRING_WORD_LIMIT - count,
    {
        if count == STRING_WORD_LIMIT {
            assert(out@ =~= full);
            break;
        }
        let w = mem.read(addr);
        if w == 0 {
            assert(out@ =~= full);
            break;
        }
        let ghost before = out@;
        let ghost rest = (STRING_WORD_LIMIT - count - 1) as nat;
        let ghost next = add16(addr, 1);
        let lo = (w & 0xff) as u8;
        out.push(lo);
        if packed {
            let hi = (w >> 8u16) as u8;
            if hi != 0 {
                out.push(hi);
            }
            assert(out@ =~= before + packed_chars(w));
            assert(putsp_text(mem@, addr, (STRING_WORD_LIMIT - count) as nat) == packed_chars(w)
                + putsp_text(mem@, next, rest));
            assert(out@ + putsp_text(mem@, next, rest) =~= before + putsp_text(
                mem@,
                addr,
                (STRING_WORD_LIMIT - count) as nat,
            ));
        } else {
            assert(puts_text(mem@, addr, (STRING_WORD_LIMIT - count) as nat) == seq![lo]
                + puts_text(mem@, next, rest));
            assert(out@ + puts_text(mem@, next, rest) =~= before + puts_text(
                mem@,
                addr,
                (STRING_WORD_LIMIT - count) as nat,
            ));
        }
        addr = wrapping_add16(addr, 1);
        count = count + 1;
    }
    out
}

/// The effect of a TRAP instruction, by the vector in its low byte: GETC and IN
/// ask for one byte of input (IN after a prompt); OUT writes the low byte of R0;
/// PUTS and PUTSP write the string at the address in R0; HALT stops; any other
/// vector is an error. Registers and memory are left as they are: a byte read for
/// GETC or IN is stored by `store_input`.
pub fn instr_trap(instr: u16, reg_file: &mut RegFile, mem: &mut Memory) -> (r: Result<
    TrapEffect,
    TrapError,
>)
    requires
        old(mem).wf(),
    ensures
        *final(reg_file) == *old(reg_file),
        *final(mem) == *old(mem),
        match r {
            Ok(TrapEffect::Input { prompt }) => spec_trap_vector(instr) == Some(
                if prompt {
                    TrapVector::In
                } else {
                    TrapVector::Getc
                },
            ),
            Ok(TrapEffect::Output { bytes }) => writes_output(spec_trap_vector(instr))
                && bytes@ == trap_output(instr, old(reg_file).r_r0, old(mem)@),
            Ok(TrapEffect::Halt) => spec_trap_vector(instr) == Some(TrapVector::Halt),
            Err(e) => spec_trap_vector(instr) is None && e == TrapError::InvalidVector {
                vector: instr & 0xFF,
            },
        },
{
    match trap_vector(instr) {
        Some(TrapVector::Getc) => Ok(TrapEffect::Input { prompt: false }),
        Some(TrapVector::Out) => {
            let c = reg_file.r_r0 as u8;
            let mut bytes: Vec<u8> = Vec::new();
            bytes.push(c);
            Ok(TrapEffect::Output { bytes })
        },
        Some(TrapVector::Puts) => Ok(TrapEffect::Output { bytes: string_bytes(mem, reg_file.r_r0, false) }),
        Some(TrapVector::In) => Ok(TrapEffect::Input { prompt: true }),
        Some(TrapVector::Putsp) => Ok(TrapEffect::Output { bytes: string_bytes(mem, reg_file.r_r0, true) }),
        Some(TrapVector::Halt) => Ok(TrapEffect::Halt),
        None => Err(TrapError::InvalidVector { vector: instr & 0xff }),
    }
}

/// Completes GETC or IN: R0 gets the byte read; the condition code is not touched.
pub fn store_input(reg_file: &mut RegFile, byte: u8)
    ensures
        final(reg_file)@ == old(reg_file)@.update(0, byte as u16),
{
    reg_file.update_reg(0, byte as u16);
}

} // verus!
