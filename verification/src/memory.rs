//! The byte-addressable memory collaborator.
//!
//! Any store supporting random read and random write by 16-bit address works
//! for the processor core; this one keeps the whole 65,536-byte address space
//! in a vector.

use vstd::prelude::*;

use crate::model::address_space;

verus! {

/// A 65,536-byte random-access store, one byte per 16-bit address.
pub struct VecMemory {
    /// The backing bytes; always exactly one per address.
    pub data: Vec<u8>,
}

impl VecMemory {
    /// Whether the store covers the whole address space.
    pub open spec fn wf(&self) -> bool {
        self.data@.len() == address_space()
    }

    /// A zero-filled memory covering the whole address space.
    pub fn new() -> (r: VecMemory)
        ensures
            r.wf(),
            r.data@ == Seq::<u8>::new(address_space() as nat, |i: int| 0u8),
    {
        let mut data: Vec<u8> = Vec::new();
        let mut i: usize = 0;
        while i < 0x10000
            invariant
                i <= 0x10000,
                data@ =~= Seq::<u8>::new(i as nat, |j: int| 0u8),
            decreases 0x10000 - i,
        {
            data.push(0);
            i += 1;
        }
        proof {
            assert(data@ =~= Seq::<u8>::new(address_space() as nat, |i: int| 0u8));
        }
        return VecMemory { data };
    }

    /// The byte at an address.
    pub fn read(&self, addr: u16) -> (r: u8)
        requires
            self.wf(),
        ensures
            r == self.data@[addr as int],
    {
        return self.data[addr as usize];
    }

    /// Replaces the byte at an address.
    pub fn write(&mut self, addr: u16, value: u8)
        requires
            old(self).wf(),
        ensures
            final(self).wf(),
            final(self).data@ == old(self).data@.update(addr as int, value),
    {
        self.data.set(addr as usize, value);
    }

    /// Writes each `(address, value)` pair of the payload into the store, in
    /// order.
    pub fn store(&mut self, payload: &[(u16, u8)])
        requires
            old(self).wf(),
        ensures
            final(self).wf(),
            final(self).data@ == stored(old(self).data@, payload@),
    {
        let ghost orig = payload@;
        let mut i: usize = 0;
        while i < payload.len()
            invariant
                self.wf(),
                payload@ == orig,
                i <= payload@.len(),
                self.data@ == stored(old(self).data@, payload@.take(i as int)),
            decreases payload@.len() - i,
        {
            let (address, value) = payload[i];
            self.data.set(address as usize, value);
            proof {
                assert(payload@.take(i + 1).drop_last() =~= payload@.take(i as int));
                assert(payload@.take(i + 1).last() == payload@[i as int]);
            }
            i += 1;
        }
        proof {
            assert(payload@.take(payload@.len() as int) =~= payload@);
        }
    }
}

/// The memory contents after each `(address, value)` pair of the payload was
/// written, in order; a later pair wins on a repeated address.
pub open spec fn stored(mem: Seq<u8>, payload: Seq<(u16, u8)>) -> Seq<u8>
    decreases payload.len(),
{
    if payload.len() == 0 {
        mem
    } else {
        stored(mem, payload.drop_last()).update(payload.last().0 as int, payload.last().1)
    }
}

} // verus!
