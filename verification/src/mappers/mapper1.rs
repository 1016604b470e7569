//! Mapper 1 (MMC1): five registers loaded one bit at a time through a
//! serial shift register; switchable 16/32 KiB PRG ROM banks, 4/8 KiB CHR
//! banks, PRG RAM banks, and software-controlled mirroring.

use vstd::prelude::*;
use crate::common::MirroringMode;
use crate::mapper::{BankMapping, BankMappingChange, BankMappingType, Mapper};
use std::ops::RangeInclusive;

verus! {

/// The value of the shift register when it is empty: the marker bit that
/// reaches bit 0 after four more writes.
pub const SHIFT_REGISTER_EMPTY: u8 = 0b10000;

pub struct Mapper1 {
    pub writing_shift_register: u8,
    /// 4bit0
    /// -----
    /// CPPMM
    /// |||||
    /// |||++- Mirroring (0: one-screen, lower bank; 1: one-screen, upper bank;
    /// |||               2: vertical; 3: horizontal)
    /// |++--- PRG ROM bank mode (0, 1: switch 32 KB at $8000, ignoring low bit of bank number;
    /// |                         2: fix first bank at $8000 and switch 16 KB bank at $C000;
    /// |                         3: fix last bank at $C000 and switch 16 KB bank at $8000)
    /// +----- CHR ROM bank mode (0: switch 8 KB at a time; 1: switch two separate 4 KB banks)
    pub control_register: u8,
    /// CHR bank at PPU $0000 (low bit ignored in 8 KB mode); on boards with
    /// 8 KiB of CHR, also the PRG RAM disable bit (4), the PRG RAM bank
    /// (bits 2-3), and the 256 KiB PRG ROM bank (bit 4)
    pub chr_0_bank: u8,
    /// CHR bank at PPU $1000 (ignored in 8 KB mode); the same extra bits as
    /// `chr_0_bank` in 4 KB mode
    pub chr_1_bank: u8,
    /// Select 16 KB PRG ROM bank (low bit ignored in 32 KB mode)
    pub prg_bank: u8,
    /// PRG RAM chip enable
    pub prg_ram_enable: bool,
    /// is using CHR ram
    pub is_chr_ram: bool,
    /// in 4kb units
    pub chr_count: u8,
    /// in 16kb units
    pub prg_count: u8,
    /// in 8kb units
    pub prg_ram_count: u8,
}

impl Mapper1 {
    pub open spec fn spec_mirroring(self) -> u8 {
        self.control_register & 0b00011
    }

    pub open spec fn spec_prg_bank(self) -> u8 {
        self.prg_bank & 0b1111
    }

    pub open spec fn spec_is_prg_32kb_mode(self) -> bool {
        self.control_register & 0b01000 == 0
    }

    pub open spec fn spec_is_first_prg_chunk_fixed(self) -> bool {
        self.control_register & 0b00100 == 0
    }

    pub open spec fn spec_is_chr_8kb_mode(self) -> bool {
        self.control_register & 0b10000 == 0
    }

    /// The CHR bank register whose extra bits apply: `chr_0_bank` in 8 KiB
    /// mode, `chr_1_bank` otherwise.
    pub open spec fn spec_extra_bits_bank(self) -> u8 {
        if self.spec_is_chr_8kb_mode() {
            self.chr_0_bank
        } else {
            self.chr_1_bank
        }
    }

    /// PRG RAM is enabled by its enable bit, and on 8 KiB CHR boards
    /// (SNROM, not in 512 KiB PRG mode) also by bit 4 of the CHR bank.
    pub open spec fn spec_is_prg_ram_enabled(self) -> bool {
        let snrom_prg_ram_enabled = if self.chr_count == 2 && self.prg_count <= 16 {
            self.spec_extra_bits_bank() & 0x10 == 0
        } else {
            true
        };
        self.prg_ram_enable && snrom_prg_ram_enabled
    }

    /// The 4 KiB CHR bank at PPU 0x0000 (`is_low_bank`) or 0x1000.
    pub open spec fn spec_ppu_bank(self, is_low_bank: bool) -> u16 {
        if self.spec_is_chr_8kb_mode() {
            // the 8 KiB bank is the even bank and the one after it
            ((self.chr_0_bank & 0b11110) + if is_low_bank { 0int } else { 1int }) as u16
        } else if is_low_bank {
            self.chr_0_bank as u16
        } else {
            self.chr_1_bank as u16
        }
    }

    /// The 16 KiB PRG ROM bank at CPU 0x8000 (`is_low_bank`) or 0xC000.
    pub open spec fn spec_prg_rom_bank(self, is_low_bank: bool) -> u16 {
        let bank: u16 = if self.spec_is_prg_32kb_mode() {
            ((self.spec_prg_bank() & 0b11110) + if is_low_bank { 0int } else { 1int }) as u16
        } else if is_low_bank {
            if self.spec_is_first_prg_chunk_fixed() {
                0
            } else {
                self.spec_prg_bank() as u16
            }
        } else {
            if self.spec_is_first_prg_chunk_fixed() {
                self.spec_prg_bank() as u16
            } else {
                // last bank
                (self.prg_count - 1) as u16
            }
        };
        if self.prg_count > 16 && self.chr_count == 2 {
            // bit 4 of the CHR bank selects the 256 KiB half of a 512 KiB ROM
            bank | (self.spec_extra_bits_bank() & 0x10) as u16
        } else {
            bank
        }
    }

    /// The 8 KiB PRG RAM bank.
    pub open spec fn spec_prg_ram_bank(self) -> u16 {
        if self.prg_ram_count > 1 {
            ((self.spec_extra_bits_bank() >> 2u8) & 0x3) as u16
        } else {
            0
        }
    }

    /// All five mappings: PRG RAM, the two PRG ROM halves and the two CHR halves.
    pub open spec fn spec_mappings(self) -> Seq<BankMappingChange> {
        let ram_enabled = self.spec_is_prg_ram_enabled() && self.prg_ram_count > 0;
        seq![
            (BankMappingType::CpuRam, 0u8, BankMapping { ty: BankMappingType::CpuRam, to: self.spec_prg_ram_bank(), read: ram_enabled, write: ram_enabled }),
            (BankMappingType::CpuRom, 0u8, BankMapping { ty: BankMappingType::CpuRom, to: self.spec_prg_rom_bank(true), read: true, write: false }),
            (BankMappingType::CpuRom, 1u8, BankMapping { ty: BankMappingType::CpuRom, to: self.spec_prg_rom_bank(false), read: true, write: false }),
            (BankMappingType::Ppu, 0u8, BankMapping { ty: BankMappingType::Ppu, to: self.spec_ppu_bank(true), read: true, write: self.is_chr_ram }),
            (BankMappingType::Ppu, 1u8, BankMapping { ty: BankMappingType::Ppu, to: self.spec_ppu_bank(false), read: true, write: self.is_chr_ram }),
        ]
    }

    /// The register that a completed serial write at `address` loads.
    pub open spec fn spec_load_register(self, address: u16, value: u8) -> Mapper1 {
        if address <= 0x9FFF {
            Mapper1 { control_register: value, ..self }
        } else if address <= 0xBFFF {
            Mapper1 { chr_0_bank: value, ..self }
        } else if address <= 0xDFFF {
            Mapper1 { chr_1_bank: value, ..self }
        } else {
            Mapper1 { prg_bank: value & 0xF, prg_ram_enable: value & 0x10 == 0, ..self }
        }
    }

    /// The mapper after a CPU write of `data` to its registers at `address`:
    /// bit 7 resets the shift register; otherwise bit 0 of `data` enters the
    /// shift register from the top, and on the fifth write its five bits are
    /// loaded into the register that `address` selects.
    pub open spec fn spec_write(self, address: u16, data: u8) -> Mapper1 {
        if data >= 0x80 {
            Mapper1 { writing_shift_register: SHIFT_REGISTER_EMPTY, ..self }
        } else {
            let shifted = (self.writing_shift_register >> 1u8) | ((data & 1) << 4u8);
            if self.writing_shift_register & 1 == 1 {
                Mapper1 {
                    writing_shift_register: SHIFT_REGISTER_EMPTY,
                    ..self.spec_load_register(address, shifted & 0b11111)
                }
            } else {
                Mapper1 { writing_shift_register: shifted, ..self }
            }
        }
    }

    /// A write that completes a register load (and so changes the mappings).
    pub open spec fn spec_write_completes(self, data: u8) -> bool {
        data < 0x80 && self.writing_shift_register & 1 == 1
    }

    pub fn new() -> (m: Self)
        ensures
            m.writing_shift_register == SHIFT_REGISTER_EMPTY,
            m.control_register == 0x0C,
            m.chr_0_bank == 0,
            m.chr_1_bank == 0,
            m.prg_bank == 0,
            !m.prg_ram_enable,
            !m.is_chr_ram,
            m.chr_count == 0,
            m.prg_count == 0,
            m.prg_ram_count == 0,
    {
        Self {
            writing_shift_register: SHIFT_REGISTER_EMPTY,
            control_register: 0x0C,  // power-up
            chr_0_bank: 0,
            chr_1_bank: 0,
            prg_bank: 0,
            prg_ram_enable: false,
            is_chr_ram: false,
            chr_count: 0,
            prg_count: 0,
            prg_ram_count: 0,
        }
    }

    pub fn reset_shift_register(&mut self)
        ensures
            *final(self) == (Mapper1 { writing_shift_register: SHIFT_REGISTER_EMPTY, ..*old(self) }),
    {
        // the 1 is used to indicate that the shift register is full when it
        // reaches the end
        self.writing_shift_register = SHIFT_REGISTER_EMPTY;
    }

    pub fn get_mirroring(&self) -> (r: u8)
        ensures
            r == self.spec_mirroring(),
    {
        self.control_register & 0b00011
    }

    pub fn get_prg_bank(&self) -> (r: u8)
        ensures
            r == self.spec_prg_bank(),
    {
        self.prg_bank & 0b1111
    }

    pub fn is_prg_32kb_mode(&self) -> (r: bool)
        ensures
            r == self.spec_is_prg_32kb_mode(),
    {
        self.control_register & 0b01000 == 0
    }

    /// this should be used in combination with `is_prg_32kb_mode`
    /// this function will assume that the mapper is in 16kb mode
    /// if the first bank is fixed at 0x8000 and the second chunk of 16kb
    /// is switchable, this should return `true`
    /// if the last bank is fixed into 0xC000 and the first chunk of 16kb
    /// is switchable, this should return `false`
    pub fn is_first_prg_chunk_fixed(&self) -> (r: bool)
        ensures
            r == self.spec_is_first_prg_chunk_fixed(),
    {
        self.control_register & 0b00100 == 0
    }

    pub fn is_chr_8kb_mode(&self) -> (r: bool)
        ensures
            r == self.spec_is_chr_8kb_mode(),
    {
        self.control_register & 0b10000 == 0
    }

    pub fn is_prg_ram_enabled(&self) -> (r: bool)
        ensures
            r == self.spec_is_prg_ram_enabled(),
    {
        // 8KB (SNROM) and not in 512KB PRG mode
        let snrom_prg_ram_enabled = if self.chr_count == 2 && self.prg_count <= 16 {
            if self.is_chr_8kb_mode() {
                self.chr_0_bank & 0x10 == 0
            } else {
                self.chr_1_bank & 0x10 == 0
            }
        } else {
            // only depend on `self.prg_ram_enable`
            true
        };
        self.prg_ram_enable && snrom_prg_ram_enabled
    }

    pub fn get_ppu_bank(&self, is_low_bank: bool) -> (bank: u16)
        ensures
            bank == self.spec_ppu_bank(is_low_bank),
    {
        proof {
            crate::bits::lemma_byte_masks(self.chr_0_bank);
        }
        (if self.is_chr_8kb_mode() {
            // if its not the low bank, then take the next bank
            (self.chr_0_bank & 0b11110) + if is_low_bank {
                0
            } else {
                1
            }
        } else {
            if is_low_bank {
                self.chr_0_bank
            } else {
                self.chr_1_bank
            }
        }) as u16
    }

    pub fn get_prg_rom_bank(&self, is_low_bank: bool) -> (bank: u16)
        requires
            self.prg_count >= 1,
        ensures
            bank == self.spec_prg_rom_bank(is_low_bank),
    {
        proof {
            crate::bits::lemma_byte_masks(self.prg_bank & 0b1111);
        }
        let mut bank = (if self.is_prg_32kb_mode() {
            // if its not a low bank, then add one to it to get the next bank
            (self.get_prg_bank() & 0b11110) + if is_low_bank {
                0
            } else {
                1
            }
        } else {
            if is_low_bank {
                if self.is_first_prg_chunk_fixed() {
                    0
                } else {
                    self.get_prg_bank()
                }
            } else {
                if self.is_first_prg_chunk_fixed() {
                    self.get_prg_bank()
                } else {
                    // last bank
                    self.prg_count - 1
                }
            }
        }) as u16;
        if self.prg_count > 16 && self.chr_count == 2 {
            let prg_high_bit_512_mode = (if self.is_chr_8kb_mode() {
                self.chr_0_bank & 0x10
            } else {
                self.chr_1_bank & 0x10
            }) as u16;
            bank = bank | prg_high_bit_512_mode;
        }
        bank
    }

    pub fn get_prg_ram_bank(&self) -> (bank: u16)
        ensures
            bank == self.spec_prg_ram_bank(),
    {
        (if self.prg_ram_count > 1 {
            if self.is_chr_8kb_mode() {
                (self.chr_0_bank >> 2) & 0x3
            } else {
                (self.chr_1_bank >> 2) & 0x3
            }
        } else {
            0
        }) as u16
    }

    pub fn get_mappings(&self) -> (mappings: Vec<BankMappingChange>)
        requires
            self.prg_count >= 1,
        ensures
            mappings@ == self.spec_mappings(),
    {
        let is_prg_ram_enabled = self.is_prg_ram_enabled() && self.prg_ram_count > 0;
        let mappings = vec![
            (BankMappingType::CpuRam, 0, BankMapping { ty: BankMappingType::CpuRam, to: self.get_prg_ram_bank(), read: is_prg_ram_enabled, write: is_prg_ram_enabled }),
            (BankMappingType::CpuRom, 0, BankMapping { ty: BankMappingType::CpuRom, to: self.get_prg_rom_bank(true), read: true, write: false }),
            (BankMappingType::CpuRom, 1, BankMapping { ty: BankMappingType::CpuRom, to: self.get_prg_rom_bank(false), read: true, write: false }),
            (BankMappingType::Ppu, 0, BankMapping { ty: BankMappingType::Ppu, to: self.get_ppu_bank(true), read: true, write: self.is_chr_ram }),
            (BankMappingType::Ppu, 1, BankMapping { ty: BankMappingType::Ppu, to: self.get_ppu_bank(false), read: true, write: self.is_chr_ram }),
        ];
        assert(mappings@ =~= self.spec_mappings());
        mappings
    }
}

impl Mapper for Mapper1 {
    open spec fn spec_hardwired_mirrored(&self) -> bool {
        false
    }

    open spec fn spec_ready(&self) -> bool {
        self.prg_count >= 1
    }

    open spec fn spec_registers_start(&self) -> u16 {
        0x8000
    }

    open spec fn spec_registers_end(&self) -> u16 {
        0xFFFF
    }

    /// at least one PRG ROM bank (counted modulo 256, as the mapper keeps a byte)
    open spec fn spec_accepts(prg_count: u16, chr_count: u16) -> bool {
        prg_count % 256 >= 1
    }

    fn init(&mut self, prg_count: u16, is_chr_ram: bool, chr_count: u16, sram_count: u16) -> (mappings: Vec<BankMappingChange>)
        ensures
            *final(self) == (Mapper1 {
                prg_count: (prg_count % 256) as u8,
                chr_count: (chr_count % 256) as u8,
                is_chr_ram,
                prg_bank: (prg_count % 256 - 1) as u8,
                control_register: 0b11100,
                prg_ram_count: (sram_count % 256) as u8,
                writing_shift_register: SHIFT_REGISTER_EMPTY,
                ..*old(self)
            }),
            mappings@ == final(self).spec_mappings(),
    {
        proof {
            crate::bits::lemma_word_bits(prg_count);
            crate::bits::lemma_word_bits(chr_count);
            crate::bits::lemma_word_bits(sram_count);
        }
        self.prg_count = prg_count as u8;
        self.chr_count = chr_count as u8;
        self.is_chr_ram = is_chr_ram;
        self.prg_bank = prg_count as u8 - 1;  // power-up, should be all set?
        self.control_register = 0b11100;  // power-up state
        self.prg_ram_count = sram_count as u8;
        self.reset_shift_register();
        self.get_mappings()
    }

    fn write_register(&mut self, address: u16, data: u8) -> (mappings: Vec<BankMappingChange>)
        ensures
            *final(self) == old(self).spec_write(address, data),
            mappings@ == (if old(self).spec_write_completes(data) {
                final(self).spec_mappings()
            } else {
                Seq::empty()
            }),
    {
        let mut ret_val = Vec::new();
        proof {
            crate::bits::lemma_byte_sign(data);
            crate::bits::lemma_byte_sign(self.writing_shift_register);
            crate::bits::lemma_byte_shift_right(self.writing_shift_register);
        }
        if data & 0x80 != 0 {
            self.reset_shift_register();
        } else {
            let old_shift = self.writing_shift_register;
            let should_save = old_shift & 1 != 0;
            assert(should_save == (old_shift & 1 == 1)) by (bit_vector)
                requires
                    should_save == (old_shift & 1 != 0),
            ;
            // shift
            let shifted = (old_shift >> 1) | ((data & 1) << 4);
            self.writing_shift_register = shifted;
            // reached the end, then save
            if should_save {
                let result = self.writing_shift_register & 0b11111;
                assert(old_shift & 1 == 1) by (bit_vector)
                    requires
                        old_shift & 1 != 0,
                ;
                if address <= 0x9FFF {
                    self.control_register = result;
                } else if address <= 0xBFFF {
                    self.chr_0_bank = result;
                } else if address <= 0xDFFF {
                    self.chr_1_bank = result;
                } else {
                    self.prg_bank = result & 0xF;
                    self.prg_ram_enable = result & 0x10 == 0;
                }
                ret_val = self.get_mappings();
                self.reset_shift_register();
                assert(self.spec_mappings() =~= ret_val@);
            }
        }
        ret_val
    }

    fn cpu_ram_bank_size(&self) -> (size: u16)
        ensures
            size == 0x2000,
    {
        0x2000
    }

    fn cpu_rom_bank_size(&self) -> (size: u16)
        ensures
            size == 0x4000,
    {
        0x4000
    }

    fn ppu_bank_size(&self) -> (size: u16)
        ensures
            size == 0x1000,
    {
        0x1000
    }

    fn registers_memory_range(&self) -> (range: RangeInclusive<u16>) {
        0x8000..=0xFFFF
    }

    fn is_hardwired_mirrored(&self) -> (r: bool) {
        false
    }

    fn nametable_mirroring(&self) -> (mode: MirroringMode)
        ensures
            mode == (if self.spec_mirroring() == 0 {
                MirroringMode::SingleScreenLowBank
            } else if self.spec_mirroring() == 1 {
                MirroringMode::SingleScreenHighBank
            } else if self.spec_mirroring() == 2 {
                MirroringMode::Vertical
            } else {
                MirroringMode::Horizontal
            }),
    {
        let modes = [
            MirroringMode::SingleScreenLowBank,
            MirroringMode::SingleScreenHighBank,
            MirroringMode::Vertical,
            MirroringMode::Horizontal,
        ];
        let index = self.get_mirroring();
        proof {
            crate::bits::lemma_byte_masks(self.control_register);
        }
        modes[index as usize]
    }
}


/// The CHR windows follow the CHR bank registers. In 4 KiB mode (bit 4 of
/// the control register set) the window at PPU 0x0000 shows the value last
/// loaded through 0xA000-0xBFFF and the window at 0x1000 the value last
/// loaded through 0xC000-0xDFFF, each load leaving the other window alone;
/// in 8 KiB mode both windows show the even bank of the first register and
/// the bank after it.
pub proof fn lemma_chr_windows_follow_registers(m: Mapper1, address: u16, value: u8)
    requires
        0xA000 <= address <= 0xDFFF,
    ensures
        ({
            let next = m.spec_load_register(address, value);
            let windows = next.spec_mappings();
            &&& windows[3].0 == BankMappingType::Ppu && windows[3].1 == 0
            &&& windows[4].0 == BankMappingType::Ppu && windows[4].1 == 1
            &&& m.control_register & 0x10 != 0 && address <= 0xBFFF ==> windows[3].2.to == value
                && windows[4].2.to == m.chr_1_bank
            &&& m.control_register & 0x10 != 0 && address >= 0xC000 ==> windows[4].2.to == value
                && windows[3].2.to == m.chr_0_bank
            &&& m.control_register & 0x10 == 0 ==> windows[3].2.to == next.chr_0_bank % 32 / 2 * 2
                && windows[4].2.to == next.chr_0_bank % 32 / 2 * 2 + 1
        }),
{
    let next = m.spec_load_register(address, value);
    let b = next.chr_0_bank;
    assert(b & 0b11110 == b % 32 / 2 * 2) by (bit_vector);
}

/// The PRG ROM windows follow the control and PRG bank registers. With
/// mode the bits 2-3 of the control register and p the low four bits of the
/// PRG bank register, modes 0 and 1 show the 32 KiB bank pair p with bit 0
/// cleared and the bank after it; mode 2 fixes bank 0 at 0x8000 and shows p
/// at 0xC000; mode 3 shows p at 0x8000 and fixes the last bank at 0xC000.
/// A load through 0x8000-0x9FFF sets the control register (bits 0-1 are the
/// mirroring) and a load through 0xE000-0xFFFF sets p from bits 0-3 and
/// enables PRG RAM when bit 4 is clear. (Boards with 512 KiB of PRG ROM and
/// 8 KiB of CHR use a CHR bit for the upper half; they are left out here.)
#[verifier::rlimit(50)]
pub proof fn lemma_prg_windows_follow_registers(m: Mapper1, address: u16, value: u8)
    requires
        address <= 0x9FFF || 0xE000 <= address,
        !(m.prg_count > 16 && m.chr_count == 2),
    ensures
        ({
            let next = m.spec_load_register(address, value);
            let windows = next.spec_mappings();
            let mode = next.control_register as int / 4 % 4;
            let p = next.prg_bank as int % 16;
            &&& address <= 0x9FFF ==> next.control_register == value && next.prg_bank == m.prg_bank
                && next.spec_mirroring() as int == value % 4
            &&& address >= 0xE000 ==> next.control_register == m.control_register && p == value % 16
                && next.prg_ram_enable == (value & 0x10 == 0)
            &&& windows[1].0 == BankMappingType::CpuRom && windows[1].1 == 0
            &&& windows[2].0 == BankMappingType::CpuRom && windows[2].1 == 1
            &&& mode < 2 ==> windows[1].2.to as int == p / 2 * 2 && windows[2].2.to as int == p / 2 * 2 + 1
            &&& mode == 2 ==> windows[1].2.to == 0 && windows[2].2.to as int == p
            &&& mode == 3 ==> windows[1].2.to as int == p && windows[2].2.to == (m.prg_count - 1) as u16
        }),
{
    let next = m.spec_load_register(address, value);
    let c = next.control_register;
    crate::bits::lemma_byte_bits_low(c);
    crate::bits::lemma_low_bits(c);
    crate::bits::lemma_byte_bits_low(value);
    crate::bits::lemma_low_bits(value);
    crate::bits::lemma_nibbles(next.prg_bank);
    crate::bits::lemma_nibbles(value);
    crate::bits::lemma_register_masks(value);
    crate::bits::lemma_byte_masks(value);
    let x = next.prg_bank & 0b1111;
    assert(x & 0b11110 == x / 2 * 2 && (x & 0b11110) + 1 == x / 2 * 2 + 1 && value & 0b11
        == value % 4) by (bit_vector)
        requires
            x < 16,
    ;
}

/// Serial loading of a register: starting from an empty shift register,
/// five writes with bit 7 clear load bit 0 of each data byte (the first write
/// giving the lowest bit) into the register selected by the address of the
/// fifth write, and leave the shift register empty; the addresses of the
/// first four writes do not matter.
pub proof fn lemma_serial_register_load(
    m: Mapper1,
    addresses: (u16, u16, u16, u16, u16),
    d0: u8,
    d1: u8,
    d2: u8,
    d3: u8,
    d4: u8,
)
    requires
        m.writing_shift_register == SHIFT_REGISTER_EMPTY,
        d0 < 0x80,
        d1 < 0x80,
        d2 < 0x80,
        d3 < 0x80,
        d4 < 0x80,
    ensures
        m.spec_write(addresses.0, d0).spec_write(addresses.1, d1).spec_write(addresses.2, d2).spec_write(
            addresses.3,
            d3,
        ).spec_write(addresses.4, d4) == (Mapper1 {
            writing_shift_register: SHIFT_REGISTER_EMPTY,
            ..m.spec_load_register(
                addresses.4,
                (d0 % 2 + 2 * (d1 % 2) + 4 * (d2 % 2) + 8 * (d3 % 2) + 16 * (d4 % 2)) as u8,
            )
        }),
{
    let s0 = SHIFT_REGISTER_EMPTY;
    let s1 = (s0 >> 1u8) | ((d0 & 1) << 4u8);
    let s2 = (s1 >> 1u8) | ((d1 & 1) << 4u8);
    let s3 = (s2 >> 1u8) | ((d2 & 1) << 4u8);
    let s4 = (s3 >> 1u8) | ((d3 & 1) << 4u8);
    let r = ((s4 >> 1u8) | ((d4 & 1) << 4u8)) & 0b11111;
    assert(s0 & 1 == 0 && s1 & 1 == 0 && s2 & 1 == 0 && s3 & 1 == 0 && s4 & 1 == 1
        && r == (d0 % 2 + 2 * (d1 % 2) + 4 * (d2 % 2) + 8 * (d3 % 2) + 16 * (d4 % 2)) as u8)
        by (bit_vector)
        requires
            s0 == 0b10000u8,
            s1 == (s0 >> 1u8) | ((d0 & 1) << 4u8),
            s2 == (s1 >> 1u8) | ((d1 & 1) << 4u8),
            s3 == (s2 >> 1u8) | ((d2 & 1) << 4u8),
            s4 == (s3 >> 1u8) | ((d3 & 1) << 4u8),
            r == ((s4 >> 1u8) | ((d4 & 1) << 4u8)) & 0b11111,
    ;
    assert(d0 < 0x80 && d1 < 0x80 && d2 < 0x80 && d3 < 0x80 && d4 < 0x80);
}

/// A write with bit 7 set empties the shift register and changes nothing else.
pub proof fn lemma_reset_write(m: Mapper1, address: u16, data: u8)
    requires
        data >= 0x80,
    ensures
        m.spec_write(address, data) == (Mapper1 { writing_shift_register: SHIFT_REGISTER_EMPTY, ..m }),
{
}

} // verus!
