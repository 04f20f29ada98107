//! Flat byte-addressable memory covering the full 16-bit address space.
//! A fuller system would route these accesses through a banking layer;
//! this core needs only the plain read/write interface.

use vstd::prelude::*;

verus! {

/// Number of addressable bytes: one for every 16-bit address.
pub const MEM_SIZE: usize = 0x10000;

/// Flat memory. Every address a 16-bit pointer can form is backed by a
/// byte, so no access through a valid address can be out of range.
#[derive(Debug)]
pub struct MMU {
    pub memory: Vec<u8>,
}

impl MMU {
    /// The store spans the whole 16-bit address space.
    pub open spec fn wf(self) -> bool {
        self.memory@.len() == MEM_SIZE
    }

    /// Fresh memory: every byte zero.
    pub fn new() -> (m: MMU)
        ensures
            m.wf(),
            forall|i: int| 0 <= i < m.memory@.len() ==> m.memory@[i] == 0,
    {
        let mut memory: Vec<u8> = Vec::new();
        let mut i: usize = 0;
        while i < MEM_SIZE
            invariant
                i <= MEM_SIZE,
                memory@.len() == i,
                forall|j: int| 0 <= j < i ==> memory@[j] == 0,
            decreases MEM_SIZE - i,
        {
            memory.push(0);
            i += 1;
        }
        MMU { memory }
    }

    /// The byte stored at the given address.
    pub fn read_byte(&mut self, address: u16) -> (r: u8)
        requires
            old(self).wf(),
        ensures
            *final(self) == *old(self),
            r == old(self).memory@[address as int],
    {
        self.memory[address as usize]
    }

    /// Store one byte at the given address, leaving every other byte as
    /// it was.
    pub fn write_byte(&mut self, address: u16, value: u8)
        requires
            old(self).wf(),
        ensures
            final(self).wf(),
            final(self).memory@ == old(self).memory@.update(address as int, value),
    {
        self.memory[address as usize] = value;
    }
}

} // verus!
