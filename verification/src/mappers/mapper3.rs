//! Mapper 3 (CNROM): 16 or 32 KiB of fixed PRG ROM and a switchable 8 KiB
//! CHR bank.

use vstd::prelude::*;
use crate::common::Device;
use crate::mapper::{BankMapping, BankMappingChange, BankMappingType, MappingResult};

verus! {

pub struct Mapper3 {
    pub has_32kb_prg_rom: bool,
    pub chr_bank: u8,
    /// in 8kb units
    pub chr_count: u8,
    pub is_chr_ram: bool,
}

impl Mapper3 {
    pub fn new() -> (m: Self)
        ensures
            !m.has_32kb_prg_rom,
            m.chr_bank == 0,
            m.chr_count == 0,
            !m.is_chr_ram,
    {
        Self { has_32kb_prg_rom: false, chr_bank: 0, chr_count: 0, is_chr_ram: false }
    }

    /// The offset a PRG ROM read at `address` (0x8000 up) maps to: the
    /// address in 32 KiB, and in 16 KiB mirrored over both halves.
    pub open spec fn spec_prg_offset(self, address: u16) -> int {
        if self.has_32kb_prg_rom {
            (address & 0x7FFF) as int
        } else {
            (address & 0x3FFF) as int
        }
    }

    /// The offset a PPU access at `address` maps to in the selected CHR bank.
    pub open spec fn spec_chr_offset(self, address: u16) -> int {
        0x2000 * (self.chr_bank % self.chr_count) + (address & 0x1FFF)
    }

    /// Accesses the mapper answers: CPU from 0x6000 up, PPU below 0x2000
    /// once the CHR bank count is set.
    pub open spec fn can_map_read(self, address: u16, device: Device) -> bool {
        match device {
            Device::CPU => 0x6000 <= address,
            Device::PPU => address < 0x2000 && self.chr_count > 0,
        }
    }

    /// The board's banks as the cartridge maps them: no PRG RAM, the fixed
    /// PRG ROM (the same 16 KiB twice when there is only one bank), and the
    /// selected 8 KiB CHR bank, writable when it is RAM.
    pub open spec fn spec_bank_mappings(self) -> Seq<BankMappingChange> {
        seq![
            (BankMappingType::CpuRam, 0u8, BankMapping { ty: BankMappingType::CpuRam, to: 0, read: false, write: false }),
            (BankMappingType::CpuRom, 0u8, BankMapping { ty: BankMappingType::CpuRom, to: 0, read: true, write: false }),
            (BankMappingType::CpuRom, 1u8, BankMapping { ty: BankMappingType::CpuRom, to: if self.has_32kb_prg_rom { 1 } else { 0 }, read: true, write: false }),
            (BankMappingType::Ppu, 0u8, BankMapping { ty: BankMappingType::Ppu, to: self.chr_bank as u16, read: true, write: self.is_chr_ram }),
        ]
    }

    /// The board's banks as the cartridge maps them.
    pub fn bank_mappings(&self) -> (mappings: Vec<BankMappingChange>)
        ensures
            mappings@ == self.spec_bank_mappings(),
    {
        let mappings = vec![
            (BankMappingType::CpuRam, 0, BankMapping { ty: BankMappingType::CpuRam, to: 0, read: false, write: false }),
            (BankMappingType::CpuRom, 0, BankMapping { ty: BankMappingType::CpuRom, to: 0, read: true, write: false }),
            (BankMappingType::CpuRom, 1, BankMapping { ty: BankMappingType::CpuRom, to: if self.has_32kb_prg_rom { 1 } else { 0 }, read: true, write: false }),
            (BankMappingType::Ppu, 0, BankMapping { ty: BankMappingType::Ppu, to: self.chr_bank as u16, read: true, write: self.is_chr_ram }),
        ];
        assert(mappings@ =~= self.spec_bank_mappings());
        mappings
    }

    /// Sets the bank counts; the board holds 16 or 32 KiB of PRG ROM.
    pub fn init(&mut self, prg_count: u8, is_chr_ram: bool, chr_count: u8, sram_count: u8)
        requires
            prg_count == 1 || prg_count == 2,
        ensures
            final(self).has_32kb_prg_rom == (prg_count == 2),
            final(self).chr_count == chr_count,
            final(self).is_chr_ram == is_chr_ram,
            final(self).chr_bank == old(self).chr_bank,
    {
        self.has_32kb_prg_rom = prg_count == 2;
        self.chr_count = chr_count;
        self.is_chr_ram = is_chr_ram;
    }

    /// PRG RAM is not there; PRG ROM is fixed; CHR reads go to the selected bank.
    pub fn map_read(&self, address: u16, device: Device) -> (r: MappingResult)
        requires
            self.can_map_read(address, device),
        ensures
            device == Device::CPU && address <= 0x7FFF ==> r == MappingResult::Denied,
            device == Device::CPU && address >= 0x8000 ==> r == MappingResult::Allowed(
                self.spec_prg_offset(address) as usize,
            ),
            device == Device::PPU ==> r == MappingResult::Allowed(self.spec_chr_offset(address) as usize),
    {
        match device {
            Device::CPU => {
                if address <= 0x7FFF {
                    MappingResult::Denied
                } else {
                    // 0x7FFF is for mapping 0x8000-0xFFFF to 0x0000-0x7FFF
                    // which is the range of the array
                    let offset = if self.has_32kb_prg_rom {
                        address & 0x7FFF
                    } else {
                        // in case of the array being half of the size (i.e.
                        // not 32KB, then the range of the address will be only
                        // 0x8000-0xBFFF, and 0xC000-0xFFFF will mirror the
                        // previous range
                        address & 0xBFFF & 0x7FFF
                    };
                    assert(address & 0xBFFF & 0x7FFF == address & 0x3FFF) by (bit_vector);
                    MappingResult::Allowed(offset as usize)
                }
            },
            Device::PPU => {
                let bank = self.chr_bank % self.chr_count;
                let start_of_bank = 0x2000 * bank as usize;
                MappingResult::Allowed(start_of_bank + (address & 0x1FFF) as usize)
            },
        }
    }

    /// A CPU write from 0x8000 up selects the CHR bank (only its low two
    /// bits on boards of up to four banks); CHR RAM is written in place.
    pub fn map_write(&mut self, address: u16, data: u8, device: Device) -> (r: MappingResult)
        requires
            device == Device::CPU ==> 0x6000 <= address,
        ensures
            device == Device::CPU ==> r == MappingResult::Denied && final(self).chr_bank == (if address
                >= 0x8000 {
                if old(self).chr_count <= 4 {
                    data & 0b11
                } else {
                    data
                }
            } else {
                old(self).chr_bank
            }),
            device == Device::PPU ==> final(self).chr_bank == old(self).chr_bank && r == (if old(
                self,
            ).is_chr_ram && address <= 0x1FFF {
                MappingResult::Allowed(address as usize)
            } else {
                MappingResult::Denied
            }),
            device == Device::CPU && address >= 0x8000 && old(self).chr_count <= 4
                ==> final(self).chr_bank as int == data % 4,
            final(self).chr_count == old(self).chr_count,
            final(self).is_chr_ram == old(self).is_chr_ram,
            final(self).has_32kb_prg_rom == old(self).has_32kb_prg_rom,
    {
        match device {
            Device::CPU => {
                if address >= 0x8000 {
                    proof {
                        crate::bits::lemma_two_bit_fields(data);
                    }
                    if self.chr_count <= 4 {
                        // Maybe expecting CNROM mode, which is taking only the
                        // first 2 bits, because some games write bits on the
                        // leftmost as well which would result in an overflow
                        self.chr_bank = data & 0b11;
                    } else {
                        self.chr_bank = data;
                    }
                }
                MappingResult::Denied
            },
            Device::PPU => {
                // CHR RAM
                if self.is_chr_ram && address <= 0x1FFF {
                    MappingResult::Allowed(address as usize)
                } else {
                    MappingResult::Denied
                }
            },
        }
    }
}

/// Where accesses land: PRG ROM reads at 0x8000 up read the 32 KiB ROM at
/// the address less 0x8000, or the one 16 KiB bank twice; PPU accesses read
/// the selected 8 KiB CHR bank (modulo the bank count) at the address.
pub proof fn lemma_layout(m: Mapper3, address: u16)
    requires
        m.chr_count > 0,
    ensures
        address >= 0x8000 ==> m.spec_prg_offset(address) == if m.has_32kb_prg_rom {
            address - 0x8000
        } else {
            address as int % 0x4000
        },
        address < 0x2000 ==> m.spec_chr_offset(address) == 0x2000 * (m.chr_bank % m.chr_count) + address,
{
    crate::bits::lemma_window_offsets(address);
}

} // verus!
