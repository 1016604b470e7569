//! Mapper 0 (NROM): no bank switching; 16 or 32 KiB of PRG ROM and 8 KiB of
//! CHR memory.

use vstd::prelude::*;
use crate::common::MirroringMode;
use crate::mapper::{BankMapping, BankMappingChange, BankMappingType, Mapper};
use std::ops::RangeInclusive;

verus! {

pub struct Mapper0 {}

/// The mappings of mapper 0: PRG RAM when present, the first 16 KiB of PRG
/// ROM at 0x8000, the last 16 KiB at 0xC000 (the same bank when there is only
/// one), and CHR memory, writable when it is RAM.
pub open spec fn mapper0_mappings(prg_count: u16, is_chr_ram: bool, sram_count: u16) -> Seq<BankMappingChange> {
    seq![
        (BankMappingType::CpuRam, 0u8, BankMapping { ty: BankMappingType::CpuRam, to: 0, read: sram_count > 0, write: sram_count > 0 }),
        (BankMappingType::CpuRom, 0u8, BankMapping { ty: BankMappingType::CpuRom, to: 0, read: true, write: false }),
        (BankMappingType::CpuRom, 1u8, BankMapping { ty: BankMappingType::CpuRom, to: if prg_count == 2 { 1 } else { 0 }, read: true, write: false }),
        (BankMappingType::Ppu, 0u8, BankMapping { ty: BankMappingType::Ppu, to: 0, read: true, write: is_chr_ram }),
    ]
}

impl Mapper0 {
    pub fn new() -> (m: Self) {
        Self {}
    }
}

impl Mapper for Mapper0 {
    open spec fn spec_hardwired_mirrored(&self) -> bool {
        true
    }

    open spec fn spec_ready(&self) -> bool {
        true
    }

    open spec fn spec_registers_start(&self) -> u16 {
        2
    }

    open spec fn spec_registers_end(&self) -> u16 {
        1
    }

    /// the only allowed options are 16 KiB and 32 KiB of PRG ROM
    open spec fn spec_accepts(prg_count: u16, chr_count: u16) -> bool {
        prg_count == 1 || prg_count == 2
    }

    fn init(&mut self, prg_count: u16, is_chr_ram: bool, chr_count: u16, sram_count: u16) -> (mappings: Vec<BankMappingChange>)
        ensures
            mappings@ == mapper0_mappings(prg_count, is_chr_ram, sram_count),
    {
        let has_32kb_prg_rom = prg_count == 2;
        let mappings = vec![
            (BankMappingType::CpuRam, 0, BankMapping { ty: BankMappingType::CpuRam, to: 0, read: sram_count > 0, write: sram_count > 0 }),
            (BankMappingType::CpuRom, 0, BankMapping { ty: BankMappingType::CpuRom, to: 0, read: true, write: false }),
            (BankMappingType::CpuRom, 1, BankMapping { ty: BankMappingType::CpuRom, to: if has_32kb_prg_rom { 1 } else { 0 }, read: true, write: false }),
            (BankMappingType::Ppu, 0, BankMapping { ty: BankMappingType::Ppu, to: 0, read: true, write: is_chr_ram }),
        ];
        assert(mappings@ =~= mapper0_mappings(prg_count, is_chr_ram, sram_count));
        mappings
    }

    fn cpu_ram_bank_size(&self) -> (size: u16)
        ensures
            size == 0x2000,
    {
        0x2000
    }

    fn cpu_rom_bank_size(&self) -> (size: u16)
        ensures
            size == 0x4000,
    {
        0x4000
    }

    fn ppu_bank_size(&self) -> (size: u16)
        ensures
            size == 0x2000,
    {
        0x2000
    }

    fn registers_memory_range(&self) -> (range: RangeInclusive<u16>) {
        // empty bounds
        2..=1
    }

    fn write_register(&mut self, address: u16, data: u8) -> (mappings: Vec<BankMappingChange>) {
        // the range of registers is empty
        Vec::new()
    }

    fn is_hardwired_mirrored(&self) -> (r: bool) {
        true
    }

    fn nametable_mirroring(&self) -> (mode: MirroringMode) {
        // mirroring is hardwired
        MirroringMode::Vertical
    }
}

} // verus!
