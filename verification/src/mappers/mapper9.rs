//! Mapper 9 (MMC2): a switchable 8 KiB PRG ROM bank with the last three
//! banks fixed, and two 4 KiB CHR windows whose banks are chosen by latches
//! that the PPU flips when it fetches particular tiles.

use vstd::prelude::*;
use crate::common::{Device, MirroringMode};
use crate::bits::lemma_address_low13;
use crate::mapper::{BankMapping, BankMappingChange, BankMappingType, MappingResult};

verus! {

pub struct Mapper9 {
    /// Select 8 KB PRG ROM bank for CPU $8000-$9FFF
    pub prg_bank: u8,
    /// selector for PPU $0000-$0FFF
    /// can have values 0xFD or 0xFE only
    pub latch_0: u8,
    /// selector for PPU $1000-$1FFF
    /// can have values 0xFD or 0xFE only
    pub latch_1: u8,
    /// 4 KB CHR ROM bank for PPU $0000-$0FFF used when latch 0 = $FD
    pub chr_fd_0000_bank: u8,
    /// 4 KB CHR ROM bank for PPU $0000-$0FFF used when latch 0 = $FE
    pub chr_fe_0000_bank: u8,
    /// 4 KB CHR ROM bank for PPU $1000-$1FFF used when latch 1 = $FD
    pub chr_fd_1000_bank: u8,
    /// 4 KB CHR ROM bank for PPU $1000-$1FFF used when latch 1 = $FE
    pub chr_fe_1000_bank: u8,
    /// Nametable mirroring (0: vertical; 1: horizontal)
    pub mirroring_vertical: bool,
    /// is using CHR RAM?
    pub is_chr_ram: bool,
    /// in 4kb units
    pub chr_count: u8,
    /// in 8kb units
    pub prg_count: u8,
}

/// A latch holds 0xFD or 0xFE.
pub open spec fn is_latch_value(v: u8) -> bool {
    v == 0xFD || v == 0xFE
}

impl Mapper9 {
    /// Both latches hold one of their two values.
    pub open spec fn wf(self) -> bool {
        is_latch_value(self.latch_0) && is_latch_value(self.latch_1)
    }

    /// Accesses the mapper answers: CPU from 0x6000 up (PRG ROM once there
    /// are more than the three fixed banks), PPU below 0x2000 once the CHR
    /// bank count is set.
    pub open spec fn can_map_read(self, address: u16, device: Device) -> bool {
        &&& self.wf()
        &&& match device {
            Device::CPU => 0x6000 <= address && (address >= 0x8000 ==> self.prg_count > 3),
            Device::PPU => address < 0x2000 && self.chr_count > 0,
        }
    }

    /// The latches after the PPU fetched `address`: 0x0FD8 and 0x0FE8 set
    /// latch 0 to 0xFD and 0xFE; 0x1FD8-0x1FDF and 0x1FE8-0x1FEF set latch 1.
    pub open spec fn spec_after_ppu_access(self, address: u16) -> Mapper9 {
        if address & 0x1000 == 0 {
            if address == 0x0FD8 {
                Mapper9 { latch_0: 0xFD, ..self }
            } else if address == 0x0FE8 {
                Mapper9 { latch_0: 0xFE, ..self }
            } else {
                self
            }
        } else {
            let middle_byte = (address >> 4u16) & 0xFF;
            if address & 0x8 != 0 && (middle_byte == 0xFD || middle_byte == 0xFE) {
                Mapper9 { latch_1: middle_byte as u8, ..self }
            } else {
                self
            }
        }
    }

    /// The 4 KiB CHR bank that the latch of an address's half selects.
    pub open spec fn spec_chr_bank(self, address: u16) -> u8 {
        if address & 0x1000 == 0 {
            if self.latch_0 == 0xFD {
                self.chr_fd_0000_bank
            } else {
                self.chr_fe_0000_bank
            }
        } else if self.latch_1 == 0xFD {
            self.chr_fd_1000_bank
        } else {
            self.chr_fe_1000_bank
        }
    }

    /// The board's PRG ROM and CHR banks as the cartridge maps them: the
    /// selected 8 KiB bank and the last three at 0x8000-0xFFFF, and the two
    /// 4 KiB CHR windows in the banks their latches select, writable when
    /// CHR is RAM.
    pub open spec fn spec_bank_mappings(self) -> Seq<BankMappingChange> {
        let rom = |to: int| BankMapping { ty: BankMappingType::CpuRom, to: to as u16, read: true, write: false };
        let ppu = |address: u16| BankMapping { ty: BankMappingType::Ppu, to: self.spec_chr_bank(address) as u16, read: true, write: self.is_chr_ram };
        seq![
            (BankMappingType::CpuRom, 0u8, rom(self.prg_bank as int)),
            (BankMappingType::CpuRom, 1u8, rom(self.prg_count - 3)),
            (BankMappingType::CpuRom, 2u8, rom(self.prg_count - 2)),
            (BankMappingType::CpuRom, 3u8, rom(self.prg_count - 1)),
            (BankMappingType::Ppu, 0u8, ppu(0x0000)),
            (BankMappingType::Ppu, 1u8, ppu(0x1000)),
        ]
    }

    /// The board's PRG ROM and CHR banks as the cartridge maps them.
    pub fn bank_mappings(&self) -> (mappings: Vec<BankMappingChange>)
        requires
            self.prg_count >= 3,
        ensures
            mappings@ == self.spec_bank_mappings(),
    {
        let chr_0000 = if self.latch_0 == 0xFD {
            self.chr_fd_0000_bank
        } else {
            self.chr_fe_0000_bank
        };
        let chr_1000 = if self.latch_1 == 0xFD {
            self.chr_fd_1000_bank
        } else {
            self.chr_fe_1000_bank
        };
        assert(0x1000u16 & 0x1000 != 0 && 0x0000u16 & 0x1000 == 0) by (bit_vector);
        let mappings = vec![
            (BankMappingType::CpuRom, 0, BankMapping { ty: BankMappingType::CpuRom, to: self.prg_bank as u16, read: true, write: false }),
            (BankMappingType::CpuRom, 1, BankMapping { ty: BankMappingType::CpuRom, to: (self.prg_count - 3) as u16, read: true, write: false }),
            (BankMappingType::CpuRom, 2, BankMapping { ty: BankMappingType::CpuRom, to: (self.prg_count - 2) as u16, read: true, write: false }),
            (BankMappingType::CpuRom, 3, BankMapping { ty: BankMappingType::CpuRom, to: (self.prg_count - 1) as u16, read: true, write: false }),
            (BankMappingType::Ppu, 0, BankMapping { ty: BankMappingType::Ppu, to: chr_0000 as u16, read: true, write: self.is_chr_ram }),
            (BankMappingType::Ppu, 1, BankMapping { ty: BankMappingType::Ppu, to: chr_1000 as u16, read: true, write: self.is_chr_ram }),
        ];
        assert(mappings@ =~= self.spec_bank_mappings());
        mappings
    }

    /// Flips the latches that a PPU fetch at `address` sets.
    pub(crate) fn update_latches(&mut self, address: u16)
        ensures
            *final(self) == old(self).spec_after_ppu_access(address),
    {
        if address & 0x1000 == 0 {
            // set latch 0
            if address == 0x0FD8 {
                self.latch_0 = 0xFD;
            } else if address == 0x0FE8 {
                self.latch_0 = 0xFE;
            }
        } else {
            // set latch 1
            if address & 0x8 != 0 {
                let middle_byte = (address >> 4) & 0xFF;
                if middle_byte == 0xFD || middle_byte == 0xFE {
                    self.latch_1 = middle_byte as u8;
                }
            }
        }
    }

    /// The 8 KiB bank a PRG ROM read at `address` (0x8000 up) falls in,
    /// before the modulo: the selected bank at 0x8000, then the last three.
    pub open spec fn spec_prg_bank(self, address: u16) -> int {
        if address <= 0x9FFF {
            self.prg_bank as int
        } else {
            self.prg_count - 3 + (((address >> 13u16) & 0b11) - 1)
        }
    }

    /// The offset a PRG ROM read maps to.
    pub open spec fn spec_prg_offset(self, address: u16) -> int {
        (self.spec_prg_bank(address) % self.prg_count as int) * 0x2000 + (address & 0x1FFF)
    }

    /// The registers after a CPU write of `data` at `address` (0x8000 up).
    pub open spec fn spec_register_write(self, address: u16, data: u8) -> Mapper9 {
        if 0xA000 <= address <= 0xAFFF {
            Mapper9 { prg_bank: data & 0xF, ..self }
        } else if 0xB000 <= address <= 0xBFFF {
            Mapper9 { chr_fd_0000_bank: data & 0x1F, ..self }
        } else if 0xC000 <= address <= 0xCFFF {
            Mapper9 { chr_fe_0000_bank: data & 0x1F, ..self }
        } else if 0xD000 <= address <= 0xDFFF {
            Mapper9 { chr_fd_1000_bank: data & 0x1F, ..self }
        } else if 0xE000 <= address <= 0xEFFF {
            Mapper9 { chr_fe_1000_bank: data & 0x1F, ..self }
        } else if 0xF000 <= address {
            Mapper9 { mirroring_vertical: data & 1 == 0, ..self }
        } else {
            self
        }
    }

    pub fn new() -> (m: Self)
        ensures
            m.wf(),
            m.prg_bank == 0 && m.latch_0 == 0xFE && m.latch_1 == 0xFE,
            m.chr_fd_0000_bank == 0 && m.chr_fe_0000_bank == 0 && m.chr_fd_1000_bank == 0
                && m.chr_fe_1000_bank == 0,
            !m.mirroring_vertical && !m.is_chr_ram && m.chr_count == 0 && m.prg_count == 0,
    {
        Self {
            prg_bank: 0,
            latch_0: 0xFE,
            latch_1: 0xFE,
            chr_fd_0000_bank: 0,
            chr_fe_0000_bank: 0,
            chr_fd_1000_bank: 0,
            chr_fe_1000_bank: 0,
            mirroring_vertical: false,
            is_chr_ram: false,
            chr_count: 0,
            prg_count: 0,
        }
    }

    /// Sets the bank counts: PRG ROM in 8 KiB banks, CHR in 4 KiB banks
    /// (reading PRG ROM needs more than the three fixed banks).
    pub fn init(&mut self, prg_count: u8, is_chr_ram: bool, chr_count: u8, sram_count: u8)
        requires
            prg_count <= 127,
            chr_count <= 127,
        ensures
            *final(self) == (Mapper9 {
                prg_count: (prg_count * 2) as u8,
                chr_count: (chr_count * 2) as u8,
                is_chr_ram,
                ..*old(self)
            }),
    {
        self.prg_count = prg_count * 2;
        // because 0xA000-0xFFFF holds the last 3 banks (fixed)
        self.chr_count = chr_count * 2;
        self.is_chr_ram = is_chr_ram;
    }

    /// PRG RAM reads in place; PRG ROM reads in the bank of the address;
    /// CHR reads first update the latches, then read in the bank the latch
    /// of that half selects.
    pub fn map_read(&mut self, address: u16, device: Device) -> (r: MappingResult)
        requires
            old(self).can_map_read(address, device),
        ensures
            final(self).wf(),
            device == Device::CPU ==> *final(self) == *old(self),
            device == Device::CPU && address <= 0x7FFF ==> r == MappingResult::Allowed(
                (address & 0x1FFF) as usize,
            ),
            device == Device::CPU && address >= 0x8000 ==> r == MappingResult::Allowed(
                old(self).spec_prg_offset(address) as usize,
            ),
            device == Device::PPU ==> *final(self) == old(self).spec_after_ppu_access(address) && r
                == MappingResult::Allowed(
                ((final(self).spec_chr_bank(address) % final(self).chr_count) * 0x1000 + (address
                    & 0xFFF)) as usize,
            ),
    {
        match device {
            Device::CPU => {
                if address <= 0x7FFF {
                    proof {
                        lemma_address_low13(address);
                    }
                    MappingResult::Allowed(address as usize & 0x1FFF)
                } else {
                    let bank = if address <= 0x9FFF {
                        self.prg_bank
                    } else {
                        // last 3 banks
                        // 0: third last bank, 1: second last bank, 2: last bank
                        let slot: u16 = (address >> 13) & 0b11;
                        assert(1 <= slot <= 3) by (bit_vector)
                            requires
                                slot == (address >> 13u16) & 0b11,
                                address >= 0xA000,
                        ;
                        let bank = slot as u8 - 1;
                        self.prg_count - 3 + bank
                    } as usize;
                    let bank = bank % self.prg_count as usize;
                    let start_of_bank = bank * 0x2000;
                    MappingResult::Allowed(start_of_bank + (address & 0x1FFF) as usize)
                }
            },
            Device::PPU => {
                let bank = if address & 0x1000 == 0 {
                    // set latch 0
                    if address == 0x0FD8 {
                        self.latch_0 = 0xFD;
                    } else if address == 0x0FE8 {
                        self.latch_0 = 0xFE;
                    }
                    if self.latch_0 == 0xFD {
                        self.chr_fd_0000_bank
                    } else {
                        self.chr_fe_0000_bank
                    }
                } else {
                    // set latch 1
                    if address & 0x8 != 0 {
                        let middle_byte = (address >> 4) & 0xFF;
                        if middle_byte == 0xFD || middle_byte == 0xFE {
                            self.latch_1 = middle_byte as u8;
                        }
                    }
                    if self.latch_1 == 0xFD {
                        self.chr_fd_1000_bank
                    } else {
                        self.chr_fe_1000_bank
                    }
                } as usize;
                let bank = bank % self.chr_count as usize;
                let start_of_bank = bank * 0x1000;
                MappingResult::Allowed(start_of_bank + (address & 0xFFF) as usize)
            },
        }
    }

    /// PRG RAM writes in place; writes from 0x8000 up set the registers;
    /// CHR RAM writes in place.
    pub fn map_write(&mut self, address: u16, data: u8, device: Device) -> (r: MappingResult)
        requires
            device == Device::CPU ==> 0x6000 <= address,
        ensures
            device == Device::CPU && address <= 0x7FFF ==> *final(self) == *old(self) && r
                == MappingResult::Allowed((address & 0x1FFF) as usize),
            device == Device::CPU && address >= 0x8000 ==> *final(self) == old(self).spec_register_write(
                address,
                data,
            ) && r == MappingResult::Denied,
            device == Device::PPU ==> *final(self) == *old(self) && r == (if old(self).is_chr_ram && address
                <= 0x1FFF {
                MappingResult::Allowed(address as usize)
            } else {
                MappingResult::Denied
            }),
    {
        match device {
            Device::CPU => {
                if address <= 0x7FFF {
                    proof {
                        lemma_address_low13(address);
                    }
                    MappingResult::Allowed(address as usize & 0x1FFF)
                } else {
                    if 0xA000 <= address && address <= 0xAFFF {
                        self.prg_bank = data & 0xF;
                    } else if 0xB000 <= address && address <= 0xBFFF {
                        self.chr_fd_0000_bank = data & 0x1F;
                    } else if 0xC000 <= address && address <= 0xCFFF {
                        self.chr_fe_0000_bank = data & 0x1F;
                    } else if 0xD000 <= address && address <= 0xDFFF {
                        self.chr_fd_1000_bank = data & 0x1F;
                    } else if 0xE000 <= address && address <= 0xEFFF {
                        self.chr_fe_1000_bank = data & 0x1F;
                    } else if 0xF000 <= address {
                        self.mirroring_vertical = data & 1 == 0;
                    }
                    MappingResult::Denied
                }
            },
            Device::PPU => {
                // CHR RAM
                if self.is_chr_ram && address <= 0x1FFF {
                    MappingResult::Allowed(address as usize)
                } else {
                    MappingResult::Denied
                }
            },
        }
    }

    pub fn is_hardwired_mirrored(&self) -> (r: bool)
        ensures
            !r,
    {
        false
    }

    pub fn nametable_mirroring(&self) -> (mode: MirroringMode)
        ensures
            mode == (if self.mirroring_vertical {
                MirroringMode::Vertical
            } else {
                MirroringMode::Horizontal
            }),
    {
        if self.mirroring_vertical {
            MirroringMode::Vertical
        } else {
            MirroringMode::Horizontal
        }
    }
}

/// The latches and windows of the MMC2. A PPU fetch at 0x0FD8 or 0x0FE8
/// sets latch 0 to 0xFD or 0xFE, so that PPU 0x0000-0x0FFF shows the FD or
/// FE bank of that half; a fetch anywhere in 0x1FD8-0x1FDF or 0x1FE8-0x1FEF
/// does the same with latch 1 and 0x1000-0x1FFF; any other fetch leaves the
/// latches alone. PRG ROM shows the selected bank at 0x8000-0x9FFF and the
/// last three banks, in order, from 0xA000 up.
pub proof fn lemma_latches_and_windows(m: Mapper9, address: u16)
    ensures
        ({
            let n = m.spec_after_ppu_access(address);
            &&& address == 0x0FD8 ==> n.latch_0 == 0xFD && n.spec_chr_bank(0x0000) == m.chr_fd_0000_bank
            &&& address == 0x0FE8 ==> n.latch_0 == 0xFE && n.spec_chr_bank(0x0000) == m.chr_fe_0000_bank
            &&& 0x1FD8 <= address <= 0x1FDF ==> n.latch_1 == 0xFD && n.spec_chr_bank(0x1000)
                == m.chr_fd_1000_bank
            &&& 0x1FE8 <= address <= 0x1FEF ==> n.latch_1 == 0xFE && n.spec_chr_bank(0x1000)
                == m.chr_fe_1000_bank
            &&& (address < 0x2000 && address != 0x0FD8 && address != 0x0FE8 && !(0x1FD8 <= address
                <= 0x1FDF) && !(0x1FE8 <= address <= 0x1FEF)) ==> n == m
            &&& address < 0x2000 ==> n.chr_fd_0000_bank == m.chr_fd_0000_bank && n.prg_bank == m.prg_bank
            &&& 0x8000 <= address <= 0x9FFF ==> m.spec_prg_bank(address) == m.prg_bank
            &&& 0xA000 <= address <= 0xBFFF ==> m.spec_prg_bank(address) == m.prg_count - 3
            &&& 0xC000 <= address <= 0xDFFF ==> m.spec_prg_bank(address) == m.prg_count - 2
            &&& 0xE000 <= address ==> m.spec_prg_bank(address) == m.prg_count - 1
        }),
{
    assert((address < 0x2000 ==> ((address & 0x1000 == 0) == (address < 0x1000) && ((address >> 4u16)
        & 0xFF) as int == (address % 0x1000) / 16 && (address & 8 != 0) == (address % 16 >= 8)))
        && (address >= 0x8000 ==> ((address >> 13u16) & 0b11) as int == (address - 0x8000) / 0x2000)
        && (0x0000u16 & 0x1000 == 0) && (0x1000u16 & 0x1000 != 0)) by (bit_vector);
}

} // verus!
