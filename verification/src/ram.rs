use vstd::prelude::*;

verus! {

/// Number of addressable bytes: the machine has a 12-bit address space.
pub const MEMORY_SIZE: usize = 4096;

/// The machine's flat working memory: a fixed-size byte array with indexed
/// byte read and write. Out-of-range addresses are excluded by contract;
/// callers that compute addresses check them and surface `OutOfBounds`.
pub struct Ram {
    mem: Vec<u8>,
}

impl View for Ram {
    type V = Seq<u8>;

    closed spec fn view(&self) -> Seq<u8> {
        self.mem@
    }
}

impl Ram {
    pub open spec fn wf(&self) -> bool {
        self@.len() == MEMORY_SIZE
    }

    /// Fresh memory, every byte zero.
    pub fn new() -> (r: Ram)
        ensures
            r.wf(),
            forall|i: int| 0 <= i < MEMORY_SIZE ==> r@[i] == 0u8,
    {
        Ram { mem: vec![0u8; MEMORY_SIZE] }
    }

    /// The byte stored at `address`.
    pub fn read_byte(&self, address: u16) -> (r: u8)
        requires
            self.wf(),
            address < MEMORY_SIZE,
        ensures
            r == self@[address as int],
    {
        self.mem[address as usize]
    }

    /// Stores `value` at `address`, leaving every other byte unchanged.
    pub fn load_byte(&mut self, address: u16, value: u8)
        requires
            old(self).wf(),
            address < MEMORY_SIZE,
        ensures
            final(self).wf(),
            final(self)@ == old(self)@.update(address as int, value),
    {
        self.mem[address as usize] = value;
    }
}

} // verus!
