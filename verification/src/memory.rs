use vstd::prelude::*;

use vstd::pervasive::VecAdditionalExecFns;

verus! {

/// A flat 64KB byte store, addressed by a 16-bit index. Every address is
/// valid, so reads and writes are total.
pub struct Memory {
    bytes: Vec<u8>,
}

impl View for Memory {
    type V = Seq<u8>;

    closed spec fn view(&self) -> Seq<u8> {
        self.bytes@
    }
}

impl Memory {
    /// A memory bus holds exactly 65536 bytes, one per 16-bit address.
    pub open spec fn wf(&self) -> bool {
        self@.len() == 65536
    }

    /// A fresh, zero-filled memory bus.
    pub fn new() -> (r: Self)
        ensures
            r.wf(),
            forall|a: int| 0 <= a < 65536 ==> r@[a] == 0u8,
    {
        let mut bytes: Vec<u8> = Vec::new();
        while bytes.len() < 65536
            invariant
                bytes@.len() <= 65536,
                forall|a: int| 0 <= a < bytes@.len() ==> bytes@[a] == 0u8,
            decreases 65536 - bytes@.len(),
        {
            bytes.push(0);
        }
        Memory { bytes }
    }

    /// Reads the byte at `address`.
    pub fn read(&self, address: u16) -> (r: u8)
        requires
            self.wf(),
        ensures
            r == self@[address as int],
    {
        self.bytes[address as usize]
    }

    /// Writes `value` at `address`; the sole mutator of the store.
    pub fn write(&mut self, address: u16, value: u8)
        requires
            old(self).wf(),
        ensures
            final(self).wf(),
            final(self)@ == old(self)@.update(address as int, value),
    {
        self.bytes.set(address as usize, value);
    }
}

} // verus!
