//! Mapper 66 (GxROM): a switchable 32 KiB PRG ROM bank and a switchable
//! 8 KiB CHR bank, both selected by one register.

use vstd::prelude::*;
use crate::common::Device;
use crate::mapper::{BankMapping, BankMappingChange, BankMappingType, MappingResult};

verus! {

pub struct Mapper66 {
    /// in 8kb units
    pub chr_count: u8,
    /// ($8000-$FFFF)
    /// 7  bit  0
    /// ---- ----
    /// xxxx xxCC
    ///        ||
    ///        ++- Select 8 KB CHR ROM bank for PPU $0000-$1FFF
    pub chr_bank: u8,
    /// in 32kb units
    pub prg_count: u8,
    /// ($8000-$FFFF)
    /// 7  bit  0
    /// ---- ----
    /// xxPP xxxx
    ///   ||
    ///   ++------ Select 32 KB PRG ROM bank for CPU $8000-$FFFF
    pub prg_bank: u8,
    /// using CHR RAM
    pub is_chr_ram: bool,
}

impl Mapper66 {
    pub fn new() -> (m: Self)
        ensures
            m.chr_count == 0,
            m.chr_bank == 0,
            m.prg_count == 0,
            m.prg_bank == 0,
            !m.is_chr_ram,
    {
        Self { chr_count: 0, chr_bank: 0, prg_count: 0, prg_bank: 0, is_chr_ram: false }
    }

    /// The offset a PPU access maps to in the selected CHR bank.
    pub open spec fn spec_chr_offset(self, address: u16) -> int {
        0x2000 * (self.chr_bank % self.chr_count) + (address & 0x1FFF)
    }

    /// The offset a PRG ROM read maps to in the selected 32 KiB bank.
    pub open spec fn spec_prg_offset(self, address: u16) -> int {
        0x8000 * (self.prg_bank % self.prg_count) + (address & 0x7FFF)
    }

    /// Accesses the mapper answers: CPU from 0x4020 up (PRG ROM once its
    /// bank count is set), PPU below 0x2000 once the CHR bank count is set.
    pub open spec fn can_map_read(self, address: u16, device: Device) -> bool {
        match device {
            Device::CPU => 0x4020 <= address && (address >= 0x8000 ==> self.prg_count > 0),
            Device::PPU => address < 0x2000 && self.chr_count > 0,
        }
    }

    fn map_ppu(&self, address: u16) -> (r: MappingResult)
        requires
            self.chr_count > 0,
        ensures
            r == MappingResult::Allowed(self.spec_chr_offset(address) as usize),
    {
        let bank = self.chr_bank % self.chr_count;
        let start_of_bank = 0x2000 * bank as usize;
        MappingResult::Allowed(start_of_bank + (address & 0x1FFF) as usize)
    }

    /// The board's banks as the cartridge maps them, in 16 KiB halves of
    /// the selected 32 KiB PRG ROM bank: no PRG RAM, the two halves at
    /// 0x8000 and 0xC000, and the selected 8 KiB CHR bank, writable when
    /// it is RAM.
    pub open spec fn spec_bank_mappings(self) -> Seq<BankMappingChange> {
        seq![
            (BankMappingType::CpuRam, 0u8, BankMapping { ty: BankMappingType::CpuRam, to: 0, read: false, write: false }),
            (BankMappingType::CpuRom, 0u8, BankMapping { ty: BankMappingType::CpuRom, to: (2 * self.prg_bank) as u16, read: true, write: false }),
            (BankMappingType::CpuRom, 1u8, BankMapping { ty: BankMappingType::CpuRom, to: (2 * self.prg_bank + 1) as u16, read: true, write: false }),
            (BankMappingType::Ppu, 0u8, BankMapping { ty: BankMappingType::Ppu, to: self.chr_bank as u16, read: true, write: self.is_chr_ram }),
        ]
    }

    /// The board's banks as the cartridge maps them.
    pub fn bank_mappings(&self) -> (mappings: Vec<BankMappingChange>)
        ensures
            mappings@ == self.spec_bank_mappings(),
    {
        let first = 2 * self.prg_bank as u16;
        let mappings = vec![
            (BankMappingType::CpuRam, 0, BankMapping { ty: BankMappingType::CpuRam, to: 0, read: false, write: false }),
            (BankMappingType::CpuRom, 0, BankMapping { ty: BankMappingType::CpuRom, to: first, read: true, write: false }),
            (BankMappingType::CpuRom, 1, BankMapping { ty: BankMappingType::CpuRom, to: first + 1, read: true, write: false }),
            (BankMappingType::Ppu, 0, BankMapping { ty: BankMappingType::Ppu, to: self.chr_bank as u16, read: true, write: self.is_chr_ram }),
        ];
        assert(mappings@ =~= self.spec_bank_mappings());
        mappings
    }

    /// Sets the bank counts; PRG ROM comes in whole 32 KiB banks.
    pub fn init(&mut self, prg_count: u8, is_chr_ram: bool, chr_count: u8, sram_count: u8)
        requires
            prg_count % 2 == 0 && prg_count > 0,
        ensures
            final(self).prg_count == prg_count / 2,
            final(self).chr_count == chr_count,
            final(self).is_chr_ram == is_chr_ram,
            final(self).prg_bank == old(self).prg_bank,
            final(self).chr_bank == old(self).chr_bank,
    {
        // even and more than 0
        self.prg_count = prg_count / 2;
        self.chr_count = chr_count;
        self.is_chr_ram = is_chr_ram;
    }

    /// PRG RAM and 0x4020-0x5FFF are not there; PRG ROM and CHR reads go to
    /// the selected banks.
    pub fn map_read(&self, address: u16, device: Device) -> (r: MappingResult)
        requires
            self.can_map_read(address, device),
        ensures
            device == Device::CPU && address <= 0x7FFF ==> r == MappingResult::Denied,
            device == Device::CPU && address >= 0x8000 ==> r == MappingResult::Allowed(
                self.spec_prg_offset(address) as usize,
            ),
            device == Device::PPU ==> r == MappingResult::Allowed(self.spec_chr_offset(address) as usize),
    {
        match device {
            Device::CPU => {
                if address >= 0x8000 {
                    let bank = self.prg_bank % self.prg_count;
                    let start_of_bank = 0x8000 * bank as usize;
                    MappingResult::Allowed(start_of_bank + (address & 0x7FFF) as usize)
                } else {
                    MappingResult::Denied
                }
            },
            Device::PPU => self.map_ppu(address),
        }
    }

    /// A CPU write from 0x8000 up selects both banks; CHR RAM is written in
    /// the selected CHR bank.
    pub fn map_write(&mut self, address: u16, data: u8, device: Device) -> (r: MappingResult)
        requires
            device == Device::CPU ==> 0x4020 <= address,
            device == Device::PPU && old(self).is_chr_ram && address <= 0x1FFF ==> old(self).chr_count > 0,
        ensures
            device == Device::CPU ==> r == MappingResult::Denied && (if address >= 0x8000 {
                final(self).chr_bank == data & 0x3 && final(self).prg_bank == (data >> 4u8) & 0x3
                    && final(self).chr_bank as int == data % 4 && final(self).prg_bank as int == data / 16 % 4
            } else {
                final(self).chr_bank == old(self).chr_bank && final(self).prg_bank == old(self).prg_bank
            }),
            device == Device::PPU ==> *final(self) == *old(self) && r == (if old(self).is_chr_ram
                && address <= 0x1FFF {
                MappingResult::Allowed(old(self).spec_chr_offset(address) as usize)
            } else {
                MappingResult::Denied
            }),
            final(self).chr_count == old(self).chr_count,
            final(self).prg_count == old(self).prg_count,
            final(self).is_chr_ram == old(self).is_chr_ram,
    {
        match device {
            Device::CPU => {
                if address >= 0x8000 {
                    proof {
                        crate::bits::lemma_two_bit_fields(data);
                    }
                    self.chr_bank = data & 0x3;
                    self.prg_bank = (data >> 4) & 0x3;
                }
                MappingResult::Denied
            },
            Device::PPU => {
                if self.is_chr_ram && address <= 0x1FFF {
                    self.map_ppu(address)
                } else {
                    MappingResult::Denied
                }
            },
        }
    }

    pub fn save_state_size(&self) -> (n: usize)
        ensures
            n == 5,
    {
        5
    }

    /// The registers as bytes, in field order.
    pub fn save_state(&self) -> (data: Vec<u8>)
        ensures
            data@ == seq![self.chr_count, self.chr_bank, self.prg_count, self.prg_bank, if self.is_chr_ram {
                1u8
            } else {
                0u8
            }],
    {
        let data = vec![
            self.chr_count,
            self.chr_bank,
            self.prg_count,
            self.prg_bank,
            if self.is_chr_ram { 1 } else { 0 },
        ];
        assert(data@ =~= seq![self.chr_count, self.chr_bank, self.prg_count, self.prg_bank, if self.is_chr_ram {
            1u8
        } else {
            0u8
        }]);
        data
    }

    /// Loads registers saved by `save_state`.
    pub fn load_state(&mut self, data: Vec<u8>)
        requires
            data@.len() >= 5,
        ensures
            final(self).chr_count == data@[0],
            final(self).chr_bank == data@[1],
            final(self).prg_count == data@[2],
            final(self).prg_bank == data@[3],
            final(self).is_chr_ram == (data@[4] != 0),
    {
        self.chr_count = data[0];
        self.chr_bank = data[1];
        self.prg_count = data[2];
        self.prg_bank = data[3];
        self.is_chr_ram = data[4] != 0;
    }
}

/// Loading what `save_state` saved gives back the same mapper.
pub proof fn lemma_save_load_round_trip(m: Mapper66, data: Seq<u8>, loaded: Mapper66)
    requires
        data == seq![m.chr_count, m.chr_bank, m.prg_count, m.prg_bank, if m.is_chr_ram { 1u8 } else { 0u8 }],
        loaded.chr_count == data[0],
        loaded.chr_bank == data[1],
        loaded.prg_count == data[2],
        loaded.prg_bank == data[3],
        loaded.is_chr_ram == (data[4] != 0),
    ensures
        loaded == m,
{
}

/// Where accesses land: a PRG ROM read at 0x8000 up reads the selected
/// 32 KiB bank (modulo the bank count) at the address less 0x8000, a PPU
/// access the selected 8 KiB CHR bank at the address itself.
pub proof fn lemma_layout(m: Mapper66, address: u16)
    requires
        m.prg_count > 0,
        m.chr_count > 0,
    ensures
        address >= 0x8000 ==> m.spec_prg_offset(address) == 0x8000 * (m.prg_bank % m.prg_count) + (address
            - 0x8000),
        address < 0x2000 ==> m.spec_chr_offset(address) == 0x2000 * (m.chr_bank % m.chr_count) + address,
{
    crate::bits::lemma_window_offsets(address);
}

} // verus!
