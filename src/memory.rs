use vstd::prelude::*;

verus! {

/// Size of the 6502 address space in bytes.
pub const MEMORY_SIZE: usize = 65536;

/// A device that services the CPU's bus requests.
pub trait Memory {
    fn get(&mut self, addr: u16) -> u8;

    fn set(&mut self, addr: u16, value: u8);
}

/// A flat 64 KiB memory.
pub struct DefaultMemory {
    cells: Vec<u8>,
}

impl View for DefaultMemory {
    type V = Seq<u8>;

    closed spec fn view(&self) -> Seq<u8> {
        self.cells@
    }
}

impl DefaultMemory {
    pub open spec fn wf(&self) -> bool {
        self@.len() == MEMORY_SIZE
    }

    /// Memory with every byte zero.
    pub fn new() -> (m: DefaultMemory)
        ensures
            m.wf(),
            m@ == Seq::new(MEMORY_SIZE as nat, |_i: int| 0u8),
    {
        let mut cells: Vec<u8> = Vec::new();
        let mut i: usize = 0;
        while i < MEMORY_SIZE
            invariant
                i <= MEMORY_SIZE,
                cells@ == Seq::new(i as nat, |_i: int| 0u8),
            decreases MEMORY_SIZE - i,
        {
            cells.push(0u8);
            i = i + 1;
            assert(cells@ =~= Seq::new(i as nat, |_i: int| 0u8));
        }
        DefaultMemory { cells }
    }

    /// The byte at `addr`.
    pub fn read(&self, addr: u16) -> (r: u8)
        ensures
            self.wf() ==> r == self@[addr as int],
    {
        if (addr as usize) < self.cells.len() {
            self.cells[addr as usize]
        } else {
            0
        }
    }

    /// Stores `value` at `addr`.
    pub fn write(&mut self, addr: u16, value: u8)
        ensures
            old(self).wf() ==> final(self).wf() && final(self)@ == old(self)@.update(
                addr as int,
                value,
            ),
    {
        if (addr as usize) < self.cells.len() {
            self.cells.set(addr as usize, value);
        }
    }
}

impl Memory for DefaultMemory {
    fn get(&mut self, addr: u16) -> u8 {
        self.read(addr)
    }

    fn set(&mut self, addr: u16, value: u8) {
        self.write(addr, value)
    }
}

} // verus!
