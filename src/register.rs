use vstd::prelude::*;

verus! {

/// Address at which the program counter starts.
pub const PC_START: u16 = 0x3000;

/// Index under which `read_reg` / `update_reg` reach the program counter.
pub const PC_REG: u16 = 8;

/// Index under which `read_reg` / `update_reg` reach the condition code.
pub const COND_REG: u16 = 9;

/// The three mutually exclusive condition flags.
#[derive(Debug, Clone, Copy, PartialEq, Eq, Structural)]
pub enum CondFlag {
    /// Positive
    POS,
    /// Zero
    ZRO,
    /// Negative
    NEG,
}

impl CondFlag {
    /// The bit that stands for this flag in the condition code.
    pub open spec fn spec_bits(self) -> u16 {
        match self {
            CondFlag::POS => 1,
            CondFlag::ZRO => 2,
            CondFlag::NEG => 4,
        }
    }

    pub fn bits(&self) -> (r: u16)
        ensures
            r == self.spec_bits(),
    {
        match self {
            CondFlag::POS => 1,
            CondFlag::ZRO => 2,
            CondFlag::NEG => 4,
        }
    }
}

/// The flag that describes `v` read as a two's-complement number.
pub open spec fn flag_of(v: u16) -> CondFlag {
    if v == 0 {
        CondFlag::ZRO
    } else if v >= 0x8000 {
        CondFlag::NEG
    } else {
        CondFlag::POS
    }
}

/// The condition code that an instruction writing `v` leaves behind.
pub open spec fn cond_bits(v: u16) -> u16 {
    flag_of(v).spec_bits()
}

/// Eight general-purpose registers, the program counter and the condition code.
#[derive(Debug)]
pub struct RegFile {
    pub r_r0: u16,
    pub r_r1: u16,
    pub r_r2: u16,
    pub r_r3: u16,
    pub r_r4: u16,
    pub r_r5: u16,
    pub r_r6: u16,
    /// Holds the return address of a subroutine call.
    pub r_r7: u16,
    pub r_pc: u16,
    pub r_cond: u16,
}

impl View for RegFile {
    /// R0 to R7 at indices 0 to 7, then the program counter and the condition code.
    type V = Seq<u16>;

    open spec fn view(&self) -> Seq<u16> {
        seq![
            self.r_r0,
            self.r_r1,
            self.r_r2,
            self.r_r3,
            self.r_r4,
            self.r_r5,
            self.r_r6,
            self.r_r7,
            self.r_pc,
            self.r_cond,
        ]
    }
}

impl RegFile {
    /// The registers as they start: all zero but the program counter, at `PC_START`.
    pub open spec fn new_spec() -> Seq<u16> {
        seq![0u16, 0, 0, 0, 0, 0, 0, 0, PC_START, 0]
    }

    /// All registers zero, the program counter at `PC_START`.
    pub fn new() -> (r: RegFile)
        ensures
            r@ == RegFile::new_spec(),
    {
        let r = RegFile {
            r_r0: 0,
            r_r1: 0,
            r_r2: 0,
            r_r3: 0,
            r_r4: 0,
            r_r5: 0,
            r_r6: 0,
            r_r7: 0,
            r_pc: PC_START,
            r_cond: 0,
        };
        assert(r@ =~= seq![0u16, 0, 0, 0, 0, 0, 0, 0, PC_START, 0]);
        r
    }

    /// Writes `val` to register `reg` (0 to 7, or `PC_REG`, or `COND_REG`).
    pub fn update_reg(&mut self, reg: u16, val: u16)
        requires
            reg <= COND_REG,
        ensures
            final(self)@ == old(self)@.update(reg as int, val),
    {
        match reg {
            0 => self.r_r0 = val,
            1 => self.r_r1 = val,
            2 => self.r_r2 = val,
            3 => self.r_r3 = val,
            4 => self.r_r4 = val,
            5 => self.r_r5 = val,
            6 => self.r_r6 = val,
            7 => self.r_r7 = val,
            PC_REG => self.r_pc = val,
            _ => self.r_cond = val,
        }
        assert(self@ =~= old(self)@.update(reg as int, val));
    }

    /// The value of register `reg` (0 to 7, or `PC_REG`, or `COND_REG`).
    pub fn read_reg(&mut self, reg: u16) -> (r: u16)
        requires
            reg <= COND_REG,
        ensures
            *final(self) == *old(self),
            r == old(self)@[reg as int],
    {
        match reg {
            0 => self.r_r0,
            1 => self.r_r1,
            2 => self.r_r2,
            3 => self.r_r3,
            4 => self.r_r4,
            5 => self.r_r5,
            6 => self.r_r6,
            7 => self.r_r7,
            PC_REG => self.r_pc,
            _ => self.r_cond,
        }
    }

    /// Sets the condition code from the sign of register `reg`.
    pub fn update_cond_flag(&mut self, reg: u16)
        requires
            reg <= COND_REG,
        ensures
            final(self)@ == old(self)@.update(COND_REG as int, cond_bits(old(self)@[reg as int])),
    {
        let val = self.read_reg(reg);
        let flag = if val == 0 {
            CondFlag::ZRO
        } else if (val >> 15u16) != 0 {
            CondFlag::NEG
        } else {
            CondFlag::POS
        };
        assert((val >> 15u16) != 0 <==> val >= 0x8000) by (bit_vector);
        self.update_reg(COND_REG, flag.bits());
    }
}

} // verus!
