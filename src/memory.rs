use vstd::prelude::*;

verus! {

/// Number of 16-bit cells: one for each 16-bit address.
pub const MEMORY_SIZE: usize = 65536;

/// A flat, word-addressed memory of `MEMORY_SIZE` cells.
#[derive(Clone)]
pub struct Memory {
    pub cells: Vec<u16>,
}

impl View for Memory {
    type V = Seq<u16>;

    open spec fn view(&self) -> Seq<u16> {
        self.cells@
    }
}

impl Memory {
    /// Every address has a cell.
    pub open spec fn wf(&self) -> bool {
        self@.len() == MEMORY_SIZE
    }

    /// A memory with every cell zero.
    pub fn new() -> (r: Memory)
        ensures
            r.wf(),
            r@ == Seq::new(MEMORY_SIZE as nat, |i: int| 0u16),
    {
        let mut cells: Vec<u16> = Vec::new();
        let mut i: usize = 0;
        while i < MEMORY_SIZE
            invariant
                i <= MEMORY_SIZE,
                cells@ == Seq::new(i as nat, |j: int| 0u16),
            decreases MEMORY_SIZE - i,
        {
            cells.push(0);
            i = i + 1;
            assert(cells@ =~= Seq::new(i as nat, |j: int| 0u16));
        }
        Memory { cells }
    }

    /// The word at `addr`.
    pub fn read(&self, addr: u16) -> (r: u16)
        requires
            self.wf(),
        ensures
            r == self@[addr as int],
    {
        self.cells[addr as usize]
    }

    /// Stores `value` at `addr`, leaving every other cell as it was.
    pub fn write(&mut self, addr: u16, value: u16)
        requires
            old(self).wf(),
        ensures
            final(self).wf(),
            final(self)@ == old(self)@.update(addr as int, value),
    {
        self.cells.set(addr as usize, value);
    }
}

/// A word written to an address is the word read back from it, for every address
/// and every value.
pub proof fn lemma_write_then_read(mem: Seq<u16>, addr: u16, value: u16)
    requires
        mem.len() == MEMORY_SIZE,
    ensures
        mem.update(addr as int, value)[addr as int] == value,
        mem.update(addr as int, value).len() == MEMORY_SIZE,
{
}

} // verus!
