//! The byte-addressable address space the CPU reads and writes.

use vstd::prelude::*;

verus! {

/// A flat byte store covering at least the full 16-bit address range, so a
/// read or write at any 16-bit address is always in bounds.
pub struct Memory {
    memory: Vec<u8>,
}

impl View for Memory {
    type V = Seq<u8>;

    closed spec fn view(&self) -> Seq<u8> {
        self.memory@
    }
}

impl Memory {
    /// Every 16-bit address lies inside the backing store.
    #[verifier::type_invariant]
    pub open spec fn wf(self) -> bool {
        self@.len() >= 0x10000
    }

    /// A zero-filled address space of `size` bytes. The space must cover the
    /// full 16-bit address range.
    pub fn new(size: usize) -> (m: Memory)
        requires
            0x10000 <= size,
        ensures
            m@.len() == size,
            forall|i: int| 0 <= i < size ==> m@[i] == 0,
    {
        let v: Vec<u8> = vec![0; size];
        proof {
            assert forall|i: int| 0 <= i < size implies v@[i] == 0u8 by {
                assert(cloned(0u8, v@[i]));
            }
        }
        Memory { memory: v }
    }

    /// The byte stored at `addr`.
    pub fn read(&self, addr: u16) -> (r: u8)
        ensures
            r == self@[addr as int],
    {
        proof {
            use_type_invariant(self);
        }
        self.memory[addr as usize]
    }

    /// Stores `val` at `addr`, leaving every other byte unchanged.
    pub fn write(&mut self, addr: u16, val: u8)
        ensures
            final(self)@ == old(self)@.update(addr as int, val),
    {
        proof {
            use_type_invariant(&*self);
        }
        self.memory[addr as usize] = val;
    }
}

} // verus!
