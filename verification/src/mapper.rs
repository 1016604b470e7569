//! How a cartridge's memory is banked: the mappings that mappers hand to the
//! cartridge, and the interface every bank-switching mapper offers.

use vstd::prelude::*;
use crate::common::MirroringMode;
use std::ops::RangeInclusive;

verus! {

/// The memory a bank mapping refers to.
#[derive(Clone, Copy, PartialEq, Eq, Debug, Structural)]
pub enum BankMappingType {
    CpuRam,
    CpuRom,
    Ppu,
}

/// Where one window of the address space is mapped to.
#[derive(Clone, Copy, PartialEq, Eq, Debug, Structural)]
pub struct BankMapping {
    /// type of the mapping (type is reserved, ty is being used)
    pub ty: BankMappingType,
    /// the bank in the whole memory to map to
    pub to: u16,
    /// allow read
    pub read: bool,
    /// allow write
    pub write: bool,
}

/// The outcome of mapping an access: the offset into the memory, or a
/// refusal.
#[derive(Clone, Copy, PartialEq, Eq, Debug, Structural)]
pub enum MappingResult {
    Allowed(usize),
    Denied,
}

/// A mapping change: which kind of window, which window, and its new mapping.
pub type BankMappingChange = (BankMappingType, u8, BankMapping);

/// A bank-switching mapper. The cartridge divides CPU RAM (0x6000-0x7FFF),
/// CPU ROM (0x8000-0xFFFF) and PPU memory (0x0000-0x1FFF) into windows of
/// the mapper's bank sizes; the mapper says where each window points.
pub trait Mapper: Sized {
    /// Whether the nametable mirroring is fixed by the cartridge's wiring.
    spec fn spec_hardwired_mirrored(&self) -> bool;

    /// The first and last CPU address of the mapper's registers.
    spec fn spec_registers_start(&self) -> u16;

    spec fn spec_registers_end(&self) -> u16;

    /// The mapper was initialized and can compute its mappings.
    spec fn spec_ready(&self) -> bool;

    /// The bank counts (in bank-size units) that `init` accepts.
    spec fn spec_accepts(prg_count: u16, chr_count: u16) -> bool;

    /// initialize the mapper, should be called first.
    /// Returnes the initial bank mappings, should include ALL banks
    fn init(&mut self, prg_count: u16, is_chr_ram: bool, chr_count: u16, sram_count: u16) -> (mappings: Vec<
        BankMappingChange,
    >)
        requires
            Self::spec_accepts(prg_count, chr_count),
        ensures
            final(self).spec_ready(),
    ;

    /// return the bank size in (bytes units) that should be used
    fn cpu_ram_bank_size(&self) -> u16;

    /// return the bank size in (bytes units) that should be used
    fn cpu_rom_bank_size(&self) -> u16;

    /// return the bank size (in bytes units) that should be used
    fn ppu_bank_size(&self) -> u16;

    /// the range of the CPU which are registers of this mapper
    fn registers_memory_range(&self) -> (range: RangeInclusive<u16>)
        ensures
            range@.start == self.spec_registers_start(),
            range@.end == self.spec_registers_end(),
            !range@.exhausted,
    ;

    /// write to the register and get where it changed, returns a set of banks
    /// that should be changed
    fn write_register(&mut self, address: u16, data: u8) -> (mappings: Vec<BankMappingChange>)
        requires
            old(self).spec_ready(),
            old(self).spec_registers_start() <= address <= old(self).spec_registers_end(),
        ensures
            final(self).spec_ready(),
    ;

    fn is_hardwired_mirrored(&self) -> (r: bool)
        ensures
            r == self.spec_hardwired_mirrored(),
    ;

    fn nametable_mirroring(&self) -> MirroringMode
        requires
            !self.spec_hardwired_mirrored(),
    ;

    fn is_irq_pin_state_changed_requested(&self) -> (r: bool)
        ensures
            !r,
    {
        false
    }

    fn clear_irq_request_pin(&mut self)
        ensures
            *final(self) == *old(self),
    {
    }
}

} // verus!
