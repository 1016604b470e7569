//! Mapper 2 (UxROM): a switchable 16 KiB PRG ROM bank at 0x8000, the last
//! bank fixed at 0xC000, and 8 KiB of CHR memory.

use vstd::prelude::*;
use crate::common::Device;
use crate::mapper::{BankMapping, BankMappingChange, BankMappingType};

verus! {

pub struct Mapper2 {
    pub prg_top_bank: u8,
    /// in 16kb units
    pub prg_count: u8,
    pub is_chr_ram: bool,
}

impl Mapper2 {
    pub fn new() -> (m: Self)
        ensures
            m.prg_top_bank == 0,
            m.prg_count == 0,
            !m.is_chr_ram,
    {
        Self { prg_top_bank: 0, prg_count: 0, is_chr_ram: false }
    }

    /// The 16 KiB bank a CPU read at `address` (0x8000 up) falls in: the
    /// selected bank below 0xC000, the last bank above.
    pub open spec fn spec_cpu_bank(self, address: u16) -> int {
        if address <= 0xBFFF {
            (self.prg_top_bank & 0xF) as int
        } else {
            self.prg_count - 1
        }
    }

    /// A read reaches the mapper's memory: CPU reads from 0x6000 up into a
    /// bank that exists, PPU reads below 0x2000.
    pub open spec fn can_map_read(self, address: u16, device: Device) -> bool {
        match device {
            Device::CPU => 0x6000 <= address && (address >= 0x8000 ==> 0 <= self.spec_cpu_bank(address)
                <= self.prg_count),
            Device::PPU => address < 0x2000,
        }
    }

    /// The board's banks as the cartridge maps them: no PRG RAM, the
    /// selected 16 KiB bank at 0x8000, the last bank at 0xC000, and the
    /// 8 KiB of CHR memory, writable when it is RAM.
    pub open spec fn spec_bank_mappings(self) -> Seq<BankMappingChange> {
        seq![
            (BankMappingType::CpuRam, 0u8, BankMapping { ty: BankMappingType::CpuRam, to: 0, read: false, write: false }),
            (BankMappingType::CpuRom, 0u8, BankMapping { ty: BankMappingType::CpuRom, to: (self.prg_top_bank & 0xF) as u16, read: true, write: false }),
            (BankMappingType::CpuRom, 1u8, BankMapping { ty: BankMappingType::CpuRom, to: (self.prg_count - 1) as u16, read: true, write: false }),
            (BankMappingType::Ppu, 0u8, BankMapping { ty: BankMappingType::Ppu, to: 0, read: true, write: self.is_chr_ram }),
        ]
    }

    /// The board's banks as the cartridge maps them.
    pub fn bank_mappings(&self) -> (mappings: Vec<BankMappingChange>)
        requires
            self.prg_count >= 1,
        ensures
            mappings@ == self.spec_bank_mappings(),
    {
        let mappings = vec![
            (BankMappingType::CpuRam, 0, BankMapping { ty: BankMappingType::CpuRam, to: 0, read: false, write: false }),
            (BankMappingType::CpuRom, 0, BankMapping { ty: BankMappingType::CpuRom, to: (self.prg_top_bank & 0xF) as u16, read: true, write: false }),
            (BankMappingType::CpuRom, 1, BankMapping { ty: BankMappingType::CpuRom, to: (self.prg_count - 1) as u16, read: true, write: false }),
            (BankMappingType::Ppu, 0, BankMapping { ty: BankMappingType::Ppu, to: 0, read: true, write: self.is_chr_ram }),
        ];
        assert(mappings@ =~= self.spec_bank_mappings());
        mappings
    }

    /// Sets the bank counts; this board has no PRG RAM.
    pub fn init(&mut self, prg_count: u8, is_chr_ram: bool, chr_count: u8, contain_sram: bool, sram_count: u8)
        requires
            !contain_sram,
        ensures
            final(self).prg_count == prg_count,
            final(self).is_chr_ram == is_chr_ram,
            final(self).prg_top_bank == old(self).prg_top_bank,
    {
        self.prg_count = prg_count;
        self.is_chr_ram = is_chr_ram;
    }

    /// Whether a read is allowed and the offset it maps to: PRG RAM is
    /// never read; PRG ROM is read from its bank; CHR memory is read as is.
    pub fn map_read(&self, address: u16, device: Device) -> (r: (bool, usize))
        requires
            self.can_map_read(address, device),
        ensures
            device == Device::CPU && address <= 0x7FFF ==> r == (false, 0usize),
            device == Device::CPU && address >= 0x8000 ==> r.0 && r.1 == 0x4000 * self.spec_cpu_bank(
                address,
            ) + (address & 0x3FFF),
            device == Device::CPU && address >= 0x8000 ==> r.1 == if address < 0xC000 {
                0x4000 * (self.prg_top_bank % 16) + (address - 0x8000)
            } else {
                0x4000 * (self.prg_count - 1) + (address - 0xC000)
            },
            device == Device::PPU ==> r == (true, address as usize),
    {
        match device {
            Device::CPU => {
                if address <= 0x7FFF {
                    (false, 0)
                } else {
                    proof {
                        crate::bits::lemma_window_offsets(address);
                        crate::bits::lemma_nibbles(self.prg_top_bank);
                    }
                    let bank = if address <= 0xBFFF {
                        (self.prg_top_bank & 0xF) as usize
                    } else {
                        (self.prg_count - 1) as usize
                    };
                    let start_of_bank = 0x4000 * bank;
                    // add the offset
                    (true, start_of_bank + (address & 0x3FFF) as usize)
                }
            },
            Device::PPU => {
                // it does not matter if its a ram or rom, same array location
                (true, address as usize)
            },
        }
    }

    /// A CPU write from 0x8000 up selects the bank; CHR RAM is written as
    /// is; nothing else is written.
    pub fn map_write(&mut self, address: u16, data: u8, device: Device) -> (r: (bool, usize))
        ensures
            device == Device::CPU ==> r == (false, 0usize) && final(self).prg_top_bank == (if address
                >= 0x8000 {
                data
            } else {
                old(self).prg_top_bank
            }),
            device == Device::PPU ==> *final(self) == *old(self) && r == (if old(self).is_chr_ram && address
                <= 0x1FFF {
                (true, address as usize)
            } else {
                (false, 0usize)
            }),
            final(self).prg_count == old(self).prg_count,
            final(self).is_chr_ram == old(self).is_chr_ram,
    {
        match device {
            Device::CPU => {
                // only accepts writes from CPU
                if address >= 0x8000 {
                    self.prg_top_bank = data;
                }
                (false, 0)
            },
            Device::PPU => {
                // CHR RAM
                if self.is_chr_ram && address <= 0x1FFF {
                    (true, address as usize)
                } else {
                    (false, 0)
                }
            },
        }
    }

    pub fn is_hardwired_mirrored(&self) -> (r: bool)
        ensures
            r,
    {
        true
    }

    pub fn is_irq_pin_state_changed_requested(&self) -> (r: bool)
        ensures
            !r,
    {
        false
    }

    pub fn clear_irq_request_pin(&mut self)
        ensures
            *final(self) == *old(self),
    {
    }
}

} // verus!
