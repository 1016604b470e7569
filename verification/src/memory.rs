//! The memory bus that the 6502 reads and writes, and a flat 64 KiB memory
//! that implements it.

use vstd::prelude::*;

verus! {

/// A memory the CPU is connected to. `spec_read` and `spec_write` describe
/// what a read returns and what a write leaves behind, so the CPU's own
/// behaviour can be stated for any bus.
pub trait Bus: Sized {
    spec fn spec_read(&self, address: u16) -> u8;
    spec fn spec_write(&self, address: u16, data: u8) -> Self;

    fn read(&self, address: u16) -> (data: u8)
        ensures
            data == self.spec_read(address),
    ;

    fn get_pointer(&mut self, address: u16) -> (cell: &mut u8)
        ensures
            *cell == old(self).spec_read(address),
            *final(self) == old(self).spec_write(address, *final(cell)),
    ;

    fn write(&mut self, address: u16, data: u8)
        ensures
            *final(self) == old(self).spec_write(address, data),
    ;
}

/// 64 KiB of plain read/write memory covering the whole address space.
pub struct FlatMemory {
    pub data: [u8; 0x10000],
}

impl FlatMemory {
    /// A memory whose every byte is zero.
    pub fn new() -> (m: FlatMemory)
        ensures forall|a: u16| m.spec_read(a) == 0,
    {
        FlatMemory { data: [0u8; 0x10000] }
    }
}

impl Bus for FlatMemory {
    open spec fn spec_read(&self, address: u16) -> u8 {
        self.data@[address as int]
    }

    open spec fn spec_write(&self, address: u16, data: u8) -> Self {
        FlatMemory { data: vstd::array::spec_array_update(self.data, address as int, data) }
    }

    fn read(&self, address: u16) -> (data: u8) {
        self.data[address as usize]
    }

    fn get_pointer(&mut self, address: u16) -> (cell: &mut u8) {
        &mut self.data[address as usize]
    }

    fn write(&mut self, address: u16, data: u8) {
        self.data[address as usize] = data;
        proof { broadcast use vstd::array::group_array_axioms; }
        assert(self.data =~= vstd::array::spec_array_update(old(self).data, address as int, data));
    }
}

}
