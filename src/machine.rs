use vstd::prelude::*;

use crate::instruction::add16;
use crate::instruction::instr::{
    instr_add, instr_and, instr_brx, instr_jmp, instr_jsr, instr_ld, instr_ldi, instr_ldr,
    instr_lea, instr_not, instr_st, instr_sti, instr_str, spec_add, spec_and, spec_brx, spec_jmp,
    spec_jsr, spec_ld, spec_ldi, spec_ldr, spec_lea, spec_not, spec_st, spec_sti, spec_str,
};
use crate::instruction::trap::{
    instr_trap, store_input, spec_trap_vector, trap_output, writes_output, TrapEffect, TrapVector,
};
use crate::instruction::wrapping_add16;
use crate::memory::Memory;
use crate::register::{RegFile, PC_REG};

verus! {

pub const OP_BR: u16 = 0;

pub const OP_ADD: u16 = 1;

pub const OP_LD: u16 = 2;

pub const OP_ST: u16 = 3;

pub const OP_JSR: u16 = 4;

pub const OP_AND: u16 = 5;

pub const OP_LDR: u16 = 6;

pub const OP_STR: u16 = 7;

/// Return from interrupt: not provided by this machine.
pub const OP_RTI: u16 = 8;

pub const OP_NOT: u16 = 9;

pub const OP_LDI: u16 = 10;

pub const OP_STI: u16 = 11;

pub const OP_JMP: u16 = 12;

/// Reserved: no instruction.
pub const OP_RES: u16 = 13;

pub const OP_LEA: u16 = 14;

pub const OP_TRAP: u16 = 15;

/// Bits 12 to 15 of an instruction.
pub open spec fn opcode(instr: u16) -> u16 {
    instr >> 12u16
}

/// Whether the opcode runs without the caller: a defined opcode other than TRAP.
pub open spec fn is_plain(op: u16) -> bool {
    op != OP_RTI && op != OP_RES && op != OP_TRAP
}

/// Registers once the program counter has moved past the fetched word.
pub open spec fn fetched(regs: Seq<u16>) -> Seq<u16> {
    regs.update(PC_REG as int, add16(regs[PC_REG as int], 1))
}

/// Registers after a plain instruction, given the registers after the fetch.
pub open spec fn regs_after(instr: u16, regs: Seq<u16>, mem: Seq<u16>) -> Seq<u16> {
    let op = opcode(instr);
    if op == OP_BR {
        spec_brx(instr, regs)
    } else if op == OP_ADD {
        spec_add(instr, regs)
    } else if op == OP_LD {
        spec_ld(instr, regs, mem)
    } else if op == OP_JSR {
        spec_jsr(instr, regs)
    } else if op == OP_AND {
        spec_and(instr, regs)
    } else if op == OP_LDR {
        spec_ldr(instr, regs, mem)
    } else if op == OP_NOT {
        spec_not(instr, regs)
    } else if op == OP_LDI {
        spec_ldi(instr, regs, mem)
    } else if op == OP_JMP {
        spec_jmp(instr, regs)
    } else if op == OP_LEA {
        spec_lea(instr, regs)
    } else {
        regs
    }
}

/// Memory after a plain instruction, given the registers after the fetch.
pub open spec fn mem_after(instr: u16, regs: Seq<u16>, mem: Seq<u16>) -> Seq<u16> {
    let op = opcode(instr);
    if op == OP_ST {
        spec_st(instr, regs, mem)
    } else if op == OP_STI {
        spec_sti(instr, regs, mem)
    } else if op == OP_STR {
        spec_str(instr, regs, mem)
    } else {
        mem
    }
}

/// The word at the program counter.
pub open spec fn next_instr(regs: Seq<u16>, mem: Seq<u16>) -> u16 {
    mem[regs[PC_REG as int] as int]
}

/// Registers and memory after one cycle. A TRAP or an undefined opcode changes
/// nothing but the program counter's advance.
pub open spec fn next_state(regs: Seq<u16>, mem: Seq<u16>) -> (Seq<u16>, Seq<u16>) {
    let instr = next_instr(regs, mem);
    if is_plain(opcode(instr)) {
        (regs_after(instr, fetched(regs), mem), mem_after(instr, fetched(regs), mem))
    } else {
        (fetched(regs), mem)
    }
}

/// Why the machine stopped with an error.
#[derive(Debug, Clone, Copy, PartialEq, Eq, Structural)]
pub enum Fault {
    /// The opcode of `instr`, fetched from `pc`, has no instruction.
    UnknownOpcode { instr: u16, pc: u16 },
    /// The TRAP `instr`, fetched from `pc`, names no service.
    UnknownTrap { instr: u16, pc: u16 },
}

/// What a cycle (or a run of cycles) ends with.
#[derive(Debug, Clone, PartialEq, Eq)]
pub enum Event {
    /// An instruction ran and nothing is asked of the caller.
    Continue,
    /// GETC or IN: read one byte (after a prompt, when `prompt` holds) and hand it
    /// to `provide_input`.
    Input { prompt: bool },
    /// OUT, PUTS or PUTSP: write these bytes and flush.
    Output { bytes: Vec<u8> },
    /// HALT ran.
    Halted,
    /// The machine cannot go on.
    Fault { fault: Fault },
    /// The budget of cycles ran out first.
    BudgetSpent,
}

/// Whether `e` is what the cycle from `regs` and `mem` reports.
pub open spec fn event_of_cycle(regs: Seq<u16>, mem: Seq<u16>, e: Event) -> bool {
    let pc = regs[PC_REG as int];
    let instr = next_instr(regs, mem);
    let op = opcode(instr);
    match e {
        Event::Continue => is_plain(op),
        Event::Input { prompt } => op == OP_TRAP && spec_trap_vector(instr) == Some(
            if prompt {
                TrapVector::In
            } else {
                TrapVector::Getc
            },
        ),
        Event::Output { bytes } => op == OP_TRAP && writes_output(spec_trap_vector(instr))
            && bytes@ == trap_output(instr, regs[0], mem),
        Event::Halted => op == OP_TRAP && spec_trap_vector(instr) == Some(TrapVector::Halt),
        Event::Fault { fault } => {
            ||| (op == OP_RTI || op == OP_RES) && fault == Fault::UnknownOpcode { instr, pc }
            ||| op == OP_TRAP && spec_trap_vector(instr) is None && fault == Fault::UnknownTrap {
                instr,
                pc,
            }
        },
        Event::BudgetSpent => false,
    }
}

/// Registers and memory after `k` cycles from `regs` and `mem`.
pub open spec fn state_after(regs: Seq<u16>, mem: Seq<u16>, k: nat) -> (Seq<u16>, Seq<u16>)
    decreases k,
{
    if k == 0 {
        (regs, mem)
    } else {
        let s = state_after(regs, mem, (k - 1) as nat);
        next_state(s.0, s.1)
    }
}

/// Whether each of the first `k` cycles from `regs` and `mem` runs a plain instruction.
pub open spec fn plain_for(regs: Seq<u16>, mem: Seq<u16>, k: nat) -> bool {
    forall|j: nat|
        j < k ==> is_plain(
            opcode(#[trigger] next_instr(state_after(regs, mem, j).0, state_after(regs, mem, j).1)),
        )
}

/// Whether a run from `regs` and `mem` can end with `e` in `regs2` and `mem2` by
/// `k` plain instructions and one more cycle that reported `e`.
pub open spec fn ends_after(
    regs: Seq<u16>,
    mem: Seq<u16>,
    k: nat,
    e: Event,
    regs2: Seq<u16>,
    mem2: Seq<u16>,
) -> bool {
    let s = state_after(regs, mem, k);
    plain_for(regs, mem, k) && event_of_cycle(s.0, s.1, e) && (regs2, mem2) == next_state(s.0, s.1)
}

/// Memory once `words` is stored from `origin` on.
pub open spec fn loaded(mem: Seq<u16>, origin: u16, words: Seq<u16>) -> Seq<u16> {
    Seq::new(
        mem.len(),
        |a: int|
            if origin <= a < origin + words.len() {
                words[a - origin]
            } else {
                mem[a]
            },
    )
}

/// The words of an object file: each pair of bytes, high byte first.
pub open spec fn be_words(bytes: Seq<u8>) -> Seq<u16> {
    Seq::new(bytes.len() / 2, |i: int| (bytes[2 * i] as int * 256 + bytes[2 * i + 1] as int) as u16)
}

/// Why a program could not be loaded.
#[derive(Debug, Clone, Copy, PartialEq, Eq, Structural)]
pub enum LoadError {
    /// The image holds no origin word.
    EmptyImage,
    /// The words would run past the last address.
    TooLarge,
    /// An object file of an odd number of bytes.
    OddLength,
}

/// The words of an object file, each made of two bytes, high byte first.
pub fn image_words(bytes: &Vec<u8>) -> (r: Result<Vec<u16>, LoadError>)
    ensures
        bytes@.len() % 2 == 0 ==> r is Ok && r->Ok_0@ == be_words(bytes@),
        bytes@.len() % 2 != 0 ==> r == Err::<Vec<u16>, LoadError>(LoadError::OddLength),
{
    if bytes.len() % 2 != 0 {
        return Err(LoadError::OddLength);
    }
    let mut words: Vec<u16> = Vec::new();
    let mut i: usize = 0;
    while i < bytes.len() / 2
        invariant
            bytes@.len() % 2 == 0,
            i <= bytes@.len() / 2,
            words@ == be_words(bytes@).subrange(0, i as int),
        decreases bytes@.len() / 2 - i,
    {
        let hi = bytes[2 * i] as u16;
        let lo = bytes[2 * i + 1] as u16;
        assert((hi << 8u16) | lo == hi * 256 + lo) by (bit_vector)
            requires
                hi < 256,
                lo < 256,
        ;
        words.push((hi << 8u16) | lo);
        i = i + 1;
        assert(words@ =~= be_words(bytes@).subrange(0, i as int));
    }
    assert(words@ =~= be_words(bytes@));
    Ok(words)
}

/// Stores `words[skip..]` from `origin` on.
fn write_words(mem: &mut Memory, origin: u16, words: &Vec<u16>, skip: usize)
    requires
        old(mem).wf(),
        skip <= words@.len(),
        origin + (words@.len() - skip) <= 65536,
    ensures
        final(mem).wf(),
        final(mem)@ == loaded(old(mem)@, origin, words@.subrange(skip as int, words@.len() as int)),
{
    let ghost start = mem@;
    let ghost body = words@.subrange(skip as int, words@.len() as int);
    let mut i: usize = skip;
    while i < words.len()
        invariant
            mem.wf(),
            skip <= i <= words@.len(),
            origin + (words@.len() - skip) <= 65536,
            body == words@.subrange(skip as int, words@.len() as int),
            mem@ == loaded(start, origin, body.subrange(0, i - skip)),
        decreases words@.len() - i,
    {
        let addr = origin + (i - skip) as u16;
        mem.write(addr, words[i]);
        i = i + 1;
        assert(mem@ =~= loaded(start, origin, body.subrange(0, i - skip)));
    }
    assert(body.subrange(0, i - skip) =~= body);
}

/// A register file and a memory, run one instruction at a time.
pub struct Machine {
    pub reg_file: RegFile,
    pub mem: Memory,
}

impl Machine {
    pub open spec fn wf(&self) -> bool {
        self.mem.wf()
    }

    /// Zeroed registers and memory, the program counter at its start address.
    pub fn new() -> (r: Machine)
        ensures
            r.wf(),
            r.reg_file@ == RegFile::new_spec(),
            r.mem@ == Seq::new(65536, |i: int| 0u16),
    {
        Machine { reg_file: RegFile::new(), mem: Memory::new() }
    }

    /// Completes GETC or IN: R0 gets the byte read; nothing else changes.
    pub fn provide_input(&mut self, byte: u8)
        requires
            old(self).wf(),
        ensures
            final(self).wf(),
            final(self).mem == old(self).mem,
            final(self).reg_file@ == old(self).reg_file@.update(0, byte as u16),
    {
        store_input(&mut self.reg_file, byte);
    }

    /// Cycles until one reports something other than `Continue`, for at most
    /// `max_steps` cycles. Either the budget is spent after `max_steps` plain
    /// instructions, or, after `k < max_steps` plain instructions, the next cycle
    /// ran and its event is returned.
    pub fn run(&mut self, max_steps: u64) -> (r: Event)
        requires
            old(self).wf(),
        ensures
            final(self).wf(),
            !(r is Continue),
            r is BudgetSpent ==> plain_for(old(self).reg_file@, old(self).mem@, max_steps as nat)
                && (final(self).reg_file@, final(self).mem@) == state_after(
                old(self).reg_file@,
                old(self).mem@,
                max_steps as nat,
            ),
            !(r is BudgetSpent) ==> exists|k: nat|
                k < max_steps && #[trigger] ends_after(
                    old(self).reg_file@,
                    old(self).mem@,
                    k,
                    r,
                    final(self).reg_file@,
                    final(self).mem@,
                ),
    {
        let ghost regs0 = self.reg_file@;
        let ghost mem0 = self.mem@;
        let mut count: u64 = 0;
        while count < max_steps
            invariant
                self.wf(),
                regs0 == old(self).reg_file@,
                mem0 == old(self).mem@,
                count <= max_steps,
                plain_for(regs0, mem0, count as nat),
                (self.reg_file@, self.mem@) == state_after(regs0, mem0, count as nat),
            decreases max_steps - count,
        {
            let ghost before = (self.reg_file@, self.mem@);
            let e = self.step();
            match e {
                Event::Continue => {},
                _ => {
                    let ghost k = count as nat;
                    assert(state_after(regs0, mem0, k) == before);
                    assert(ends_after(regs0, mem0, k, e, self.reg_file@, self.mem@));
                    return e;
                },
            }
            assert(state_after(regs0, mem0, (count + 1) as nat) == next_state(before.0, before.1));
            assert forall|j: nat| j < count + 1 implies is_plain(
                opcode(#[trigger] next_instr(state_after(regs0, mem0, j).0, state_after(regs0, mem0, j).1)),
            ) by {
                if j < count {
                    assert(j < count as nat);
                }
            }
            count = count + 1;
        }
        Event::BudgetSpent
    }

    /// Stores `words` from `origin` on and points the program counter at `origin`.
    /// Fails, changing nothing, when the words would run past the last address.
    pub fn load(&mut self, origin: u16, words: &Vec<u16>) -> (r: Result<(), LoadError>)
        requires
            old(self).wf(),
        ensures
            final(self).wf(),
            r is Ok <==> origin + words@.len() <= 65536,
            r is Ok ==> final(self).mem@ == loaded(old(self).mem@, origin, words@)
                && final(self).reg_file@ == old(self).reg_file@.update(PC_REG as int, origin),
            r is Err ==> r == Err::<(), LoadError>(LoadError::TooLarge) && *final(self) == *old(self),
    {
        if words.len() > 65536 - origin as usize {
            return Err(LoadError::TooLarge);
        }
        write_words(&mut self.mem, origin, words, 0);
        assert(words@.subrange(0, words@.len() as int) =~= words@);
        self.reg_file.update_reg(PC_REG, origin);
        Ok(())
    }

    /// Loads a program image: its first word is the origin, the others are stored
    /// from the origin on, and the program counter points at the origin.
    pub fn load_image(&mut self, image: &Vec<u16>) -> (r: Result<(), LoadError>)
        requires
            old(self).wf(),
        ensures
            final(self).wf(),
            image@.len() == 0 ==> r == Err::<(), LoadError>(LoadError::EmptyImage),
            image@.len() > 0 ==> (r is Ok <==> image@[0] + (image@.len() - 1) <= 65536),
            r is Ok ==> final(self).mem@ == loaded(old(self).mem@, image@[0], image@.skip(1))
                && final(self).reg_file@ == old(self).reg_file@.update(PC_REG as int, image@[0]),
            r is Err ==> *final(self) == *old(self),
            image@.len() > 0 && r is Err ==> r == Err::<(), LoadError>(LoadError::TooLarge),
    {
        if image.len() == 0 {
            return Err(LoadError::EmptyImage);
        }
        let origin = image[0];
        if image.len() - 1 > 65536 - origin as usize {
            return Err(LoadError::TooLarge);
        }
        write_words(&mut self.mem, origin, image, 1);
        assert(image@.subrange(1, image@.len() as int) =~= image@.skip(1));
        self.reg_file.update_reg(PC_REG, origin);
        Ok(())
    }

    /// One cycle: fetch the word at the program counter and advance it, decode the
    /// opcode, execute. A TRAP leaves its I/O to the caller, reported in the event.
    pub fn step(&mut self) -> (r: Event)
        requires
            old(self).wf(),
        ensures
            final(self).wf(),
            (final(self).reg_file@, final(self).mem@) == next_state(
                old(self).reg_file@,
                old(self).mem@,
            ),
            event_of_cycle(old(self).reg_file@, old(self).mem@, r),
    {
        let pc = self.reg_file.r_pc;
        let instr = self.mem.read(pc);
        let next_pc = wrapping_add16(pc, 1);
        self.reg_file.update_reg(PC_REG, next_pc);
        let op = instr >> 12u16;
        assert(op <= 15) by (bit_vector)
            requires
                op == instr >> 12u16,
        ;
        if op == OP_BR {
            instr_brx(instr, &mut self.reg_file);
        } else if op == OP_ADD {
            instr_add(instr, &mut self.reg_file);
        } else if op == OP_LD {
            instr_ld(instr, &mut self.reg_file, &mut self.mem);
        } else if op == OP_ST {
            instr_st(instr, &mut self.reg_file, &mut self.mem);
        } else if op == OP_JSR {
            instr_jsr(instr, &mut self.reg_file);
        } else if op == OP_AND {
            instr_and(instr, &mut self.reg_file);
        } else if op == OP_LDR {
            instr_ldr(instr, &mut self.reg_file, &mut self.mem);
        } else if op == OP_STR {
            instr_str(instr, &mut self.reg_file, &mut self.mem);
        } else if op == OP_NOT {
            instr_not(instr, &mut self.reg_file);
        } else if op == OP_LDI {
            instr_ldi(instr, &mut self.reg_file, &mut self.mem);
        } else if op == OP_STI {
            instr_sti(instr, &mut self.reg_file, &mut self.mem);
        } else if op == OP_JMP {
            instr_jmp(instr, &mut self.reg_file);
        } else if op == OP_LEA {
            instr_lea(instr, &mut self.reg_file);
        } else if op == OP_TRAP {
            return match instr_trap(instr, &mut self.reg_file, &mut self.mem) {
                Ok(TrapEffect::Input { prompt }) => Event::Input { prompt },
                Ok(TrapEffect::Output { bytes }) => Event::Output { bytes },
                Ok(TrapEffect::Halt) => Event::Halted,
                Err(_) => Event::Fault { fault: Fault::UnknownTrap { instr, pc } },
            };
        } else {
            return Event::Fault { fault: Fault::UnknownOpcode { instr, pc } };
        }
        Event::Continue
    }
}

} // verus!
