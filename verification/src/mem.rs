//! A flat 64 KiB memory holding the full 16-bit address space.
//!
//! The execution engine only ever borrows it per call, so other devices a
//! caller emulates can share it between instructions.  Its view is the
//! sequence of all 65536 bytes.

use vstd::prelude::*;

verus! {

/// The number of bytes in the 16-bit address space.
pub const MEM_SIZE: usize = 0x10000;

/// A flat 64 KiB memory.
pub struct Mem {
    bytes: Vec<u8>,
}

impl Mem {
    /// The memory as a sequence of all 65536 bytes.
    pub closed spec fn view(&self) -> Seq<u8> {
        self.bytes@
    }

    /// The memory holds exactly the 16-bit address space.
    pub closed spec fn wf(&self) -> bool {
        self.bytes@.len() == MEM_SIZE
    }

    /// A zero-filled memory.
    pub fn new() -> (m: Mem)
        ensures
            m.wf(),
            m@ == Seq::<u8>::new(MEM_SIZE as nat, |i: int| 0u8),
    {
        let mut bytes: Vec<u8> = Vec::new();
        let mut i: usize = 0;
        while i < MEM_SIZE
            invariant
                i <= MEM_SIZE,
                bytes@.len() == i,
                forall|j: int| 0 <= j < i ==> bytes@[j] == 0u8,
            decreases MEM_SIZE - i,
        {
            bytes.push(0);
            i = i + 1;
        }
        let m = Mem { bytes };
        proof {
            assert(m@ =~= Seq::<u8>::new(MEM_SIZE as nat, |i: int| 0u8));
        }
        m
    }

    /// The byte at `addr`.
    pub fn read(&self, addr: u16) -> (v: u8)
        requires
            self.wf(),
        ensures
            v == self@[addr as int],
    {
        self.bytes[addr as usize]
    }

    /// Stores `v` at `addr` and changes nothing else.
    pub fn write(&mut self, addr: u16, v: u8)
        requires
            old(self).wf(),
        ensures
            final(self).wf(),
            final(self)@ == old(self)@.update(addr as int, v),
    {
        self.bytes.set(addr as usize, v);
    }

    /// Copies `data` into memory starting at `start` and changes nothing
    /// else; the block must fit below the top of the address space.
    pub fn load(&mut self, start: u16, data: &Vec<u8>)
        requires
            old(self).wf(),
            start + data@.len() <= 0x10000,
        ensures
            final(self).wf(),
            forall|j: int| start <= j < start + data@.len()
                ==> final(self)@[j] == data@[j - start],
            forall|j: int| 0 <= j < 0x10000 && !(start <= j < start + data@.len())
                ==> final(self)@[j] == old(self)@[j],
    {
        let mut i: usize = 0;
        while i < data.len()
            invariant
                self.wf(),
                i <= data@.len(),
                start + data@.len() <= 0x10000,
                forall|j: int| start <= j < start + i ==> self@[j] == data@[j - start],
                forall|j: int| 0 <= j < 0x10000 && !(start <= j < start + i)
                    ==> self@[j] == old(self)@[j],
            decreases data@.len() - i,
        {
            self.write(start + (i as u16), data[i]);
            i = i + 1;
        }
    }
}

} // verus!
