//! Mapper 4 (MMC3): 8 KiB PRG ROM banks, 1 and 2 KiB CHR banks, PRG RAM
//! protection, software mirroring, and a scanline counter clocked by the
//! PPU's A12 line that raises IRQs.

use vstd::prelude::*;
use crate::common::{Device, MirroringMode};
use crate::bits::{lemma_address_low13, lemma_register_fields, lemma_register_masks};
use crate::mapper::{BankMapping, BankMappingChange, BankMappingType, MappingResult};

verus! {

pub struct Mapper4 {
    /// ($8000-$9FFE, even)
    /// 7  bit  0
    /// ---- ----
    /// xxxx xRRR
    ///       |||
    ///       +++- Specify which bank register to update on next write to Bank Data register
    ///              000: R0: Select 2 KB CHR bank at PPU $0000-$07FF (or $1000-$17FF)
    ///              001: R1: Select 2 KB CHR bank at PPU $0800-$0FFF (or $1800-$1FFF)
    ///              010: R2: Select 1 KB CHR bank at PPU $1000-$13FF (or $0000-$03FF)
    ///              011: R3: Select 1 KB CHR bank at PPU $1400-$17FF (or $0400-$07FF)
    ///              100: R4: Select 1 KB CHR bank at PPU $1800-$1BFF (or $0800-$0BFF)
    ///              101: R5: Select 1 KB CHR bank at PPU $1C00-$1FFF (or $0C00-$0FFF)
    ///              110: R6: Select 8 KB PRG ROM bank at $8000-$9FFF (or $C000-$DFFF)
    ///              111: R7: Select 8 KB PRG ROM bank at $A000-$BFFF
    pub bank_select: u8,
    /// PRG ROM bank mode: true fixes 0x8000-0x9FFF to the second-last bank
    /// and switches 0xC000-0xDFFF; false the other way around
    pub prg_rom_bank_fix_8000: bool,
    /// the currently selected bank for the switchable of 8000-9FFF or C000-DFFF
    pub prg_bank_8000_c000: u8,
    /// the currently selected bank for A000-BFFF
    pub prg_bank_a000: u8,
    /// CHR A12 inversion: true puts the two 2 KiB banks at 0x1000-0x1FFF
    /// and the four 1 KiB banks at 0x0000-0x0FFF; false the other way around
    pub chr_bank_2k_1000: bool,
    // chr banks
    pub chr_bank_r0: u8,
    pub chr_bank_r1: u8,
    pub chr_bank_r2: u8,
    pub chr_bank_r3: u8,
    pub chr_bank_r4: u8,
    pub chr_bank_r5: u8,
    /// Nametable mirroring (0: vertical; 1: horizontal)
    pub mirroring_vertical: bool,
    /// Write protection (0: allow writes; 1: deny writes)
    pub prg_ram_allow_writes: bool,
    /// PRG RAM chip enable (0: disable; 1: enable)
    pub prg_ram_enabled: bool,
    /// ($C000-$DFFE, even)
    /// the value to reload `irq_counter` when it reaches zero or when asked
    /// to be reloaded from `($C001-$DFFF, odd)`
    pub irq_latch: u8,
    /// counter will be decremented, and when reached zero and `irq_enabled`
    /// `true` it should trigger an **IRQ** interrupt
    pub irq_counter: u8,
    /// reload IRQ counter at the NEXT clocking of the IRQ
    pub reload_irq_counter_flag: bool,
    /// denotes if an **IRQ** interrupt should occur on `irq_counter` reaching
    /// zero or not
    pub irq_enabled: bool,
    /// the status of the IRQ pin, should be used with `is_irq_pin_changed`
    pub irq_pin: bool,
    /// indicate whether there is a change that the CPU should be notified of
    /// in the IRQ line
    pub is_irq_pin_changed: bool,
    /// is using CHR RAM?
    pub is_chr_ram: bool,
    /// in 1kb units
    pub chr_count: u16,
    /// in 8kb units
    pub prg_count: u8,
    /// false if the last accessed pattern table address is $0000
    /// true  if the last accessed pattern table address is $1000
    pub last_pattern_table: bool,
    /// is PRG ram present?
    pub has_prg_ram: bool,
}

impl Mapper4 {
    /// The bank select register names one of the eight bank registers.
    pub open spec fn wf(self) -> bool {
        self.bank_select < 8
    }

    /// Accesses the mapper answers: CPU from 0x6000 up (PRG ROM once there
    /// are at least two 8 KiB banks), PPU below 0x2000 once the CHR bank
    /// count is set.
    pub open spec fn can_map_read(self, address: u16, device: Device) -> bool {
        match device {
            Device::CPU => 0x6000 <= address && (address >= 0x8000 ==> self.prg_count >= 2),
            Device::PPU => address < 0x2000 && self.chr_count > 0,
        }
    }

    /// The scanline counter after the PPU accessed `address`: on a rising
    /// edge of A12 the counter is reloaded from the latch (when asked to or
    /// when it is 0) or decremented, and reaching 0 with IRQs enabled sets
    /// the IRQ pin.
    pub open spec fn spec_after_ppu_access(self, address: u16) -> Mapper4 {
        let current_pattern_table = address & 0x1000 != 0;
        let clocked = if !self.last_pattern_table && current_pattern_table {
            let counted = if self.reload_irq_counter_flag || self.irq_counter == 0 {
                Mapper4 { reload_irq_counter_flag: false, irq_counter: self.irq_latch, ..self }
            } else {
                Mapper4 { irq_counter: (self.irq_counter - 1) as u8, ..self }
            };
            if counted.irq_counter == 0 && counted.irq_enabled {
                Mapper4 { irq_pin: true, is_irq_pin_changed: true, ..counted }
            } else {
                counted
            }
        } else {
            self
        };
        Mapper4 { last_pattern_table: current_pattern_table, ..clocked }
    }

    /// The scanline counter counts rising edges of PPU A12: on such an edge
    /// it reloads from the latch (when asked to or at 0) or counts down,
    /// clears the reload request, and at 0 with IRQs enabled raises the IRQ
    /// pin; otherwise counter, reload request and pin stay. The last A12
    /// level is always recorded, and the pin is never lowered here.
    pub proof fn lemma_irq_counter_clocking(self, address: u16)
        ensures
            ({
                let next = self.spec_after_ppu_access(address);
                let a12 = address & 0x1000 != 0;
                &&& next.last_pattern_table == a12
                &&& self.irq_pin ==> next.irq_pin
                &&& (!self.last_pattern_table && a12) ==> {
                    &&& next.irq_counter == (if self.reload_irq_counter_flag || self.irq_counter == 0 {
                        self.irq_latch
                    } else {
                        (self.irq_counter - 1) as u8
                    })
                    &&& !next.reload_irq_counter_flag
                    &&& (next.irq_counter == 0 && self.irq_enabled) ==> next.irq_pin
                        && next.is_irq_pin_changed
                }
                &&& !(!self.last_pattern_table && a12) ==> {
                    &&& next.irq_counter == self.irq_counter
                    &&& next.reload_irq_counter_flag == self.reload_irq_counter_flag
                    &&& next.irq_pin == self.irq_pin
                }
            }),
    {
    }

    /// The 1 KiB CHR bank that the PPU window at `window * 0x400` shows: a
    /// 1 KiB bank register, or the half of a 2 KiB bank (kept even) that the
    /// window falls in.
    pub open spec fn spec_chr_window_bank(self, window: u16) -> u16 {
        let address = (window * 0x400) as u16;
        if self.spec_is_2k(address) {
            (self.spec_chr_bank(address) + window % 2) as u16
        } else {
            self.spec_chr_bank(address) as u16
        }
    }

    /// The board's banks as the cartridge maps them: PRG RAM when present
    /// and enabled (writable unless protected), four 8 KiB PRG ROM windows,
    /// and eight 1 KiB CHR windows, writable when CHR is RAM.
    pub open spec fn spec_bank_mappings(self) -> Seq<BankMappingChange> {
        let ram_read = self.prg_ram_enabled && self.has_prg_ram;
        let ram_write = ram_read && self.prg_ram_allow_writes;
        let rom = |w: u16| BankMapping { ty: BankMappingType::CpuRom, to: self.spec_prg_bank((0x8000 + w * 0x2000) as u16) as u16, read: true, write: false };
        let ppu = |w: u16| BankMapping { ty: BankMappingType::Ppu, to: self.spec_chr_window_bank(w), read: true, write: self.is_chr_ram };
        seq![
            (BankMappingType::CpuRam, 0u8, BankMapping { ty: BankMappingType::CpuRam, to: 0, read: ram_read, write: ram_write }),
            (BankMappingType::CpuRom, 0u8, rom(0)),
            (BankMappingType::CpuRom, 1u8, rom(1)),
            (BankMappingType::CpuRom, 2u8, rom(2)),
            (BankMappingType::CpuRom, 3u8, rom(3)),
            (BankMappingType::Ppu, 0u8, ppu(0)),
            (BankMappingType::Ppu, 1u8, ppu(1)),
            (BankMappingType::Ppu, 2u8, ppu(2)),
            (BankMappingType::Ppu, 3u8, ppu(3)),
            (BankMappingType::Ppu, 4u8, ppu(4)),
            (BankMappingType::Ppu, 5u8, ppu(5)),
            (BankMappingType::Ppu, 6u8, ppu(6)),
            (BankMappingType::Ppu, 7u8, ppu(7)),
        ]
    }

    /// Where a PPU access lands, by address range: the half of the pattern
    /// tables that A12 inversion gives the 2 KiB banks holds R0 (first 2 KiB)
    /// and R1 (second 2 KiB); the other half holds R2, R3, R4 and R5, one per
    /// 1 KiB in that order. The offset is the bank (modulo the bank count)
    /// in 1 KiB units plus the offset inside the bank.
    pub proof fn lemma_chr_layout(self, address: u16)
        requires
            address < 0x2000,
            self.chr_count > 0,
        ensures
            ({
                let low_half = address < 0x1000;
                let in_half = address % 0x1000;
                let count = self.chr_count as int;
                if low_half != self.chr_bank_2k_1000 {
                    let bank = if in_half < 0x800 {
                        self.chr_bank_r0
                    } else {
                        self.chr_bank_r1
                    };
                    self.spec_chr_offset(address) == (bank as int % count) * 0x400 + address % 0x800
                } else {
                    let bank = if in_half < 0x400 {
                        self.chr_bank_r2
                    } else if in_half < 0x800 {
                        self.chr_bank_r3
                    } else if in_half < 0xC00 {
                        self.chr_bank_r4
                    } else {
                        self.chr_bank_r5
                    };
                    self.spec_chr_offset(address) == (bank as int % count) * 0x400 + address % 0x400
                }
            }),
    {
        lemma_ppu_address_bits(address);
    }

    /// Where a PRG ROM read lands, by address range: 0x8000-0x9FFF shows R6
    /// when the PRG mode bit is clear and the second-last bank when it is set,
    /// 0xA000-0xBFFF shows R7, 0xC000-0xDFFF shows the second-last bank when
    /// the mode bit is clear and R6 when it is set, and 0xE000-0xFFFF the last
    /// bank. The offset is the bank (modulo the bank count) in 8 KiB units
    /// plus the offset inside the 8 KiB window.
    pub proof fn lemma_prg_layout(self, address: u16)
        requires
            0x8000 <= address,
        ensures
            ({
                let bank = if address <= 0x9FFF {
                    if self.prg_rom_bank_fix_8000 { self.prg_count - 2 } else { self.prg_bank_8000_c000 as int }
                } else if address <= 0xBFFF {
                    self.prg_bank_a000 as int
                } else if address <= 0xDFFF {
                    if self.prg_rom_bank_fix_8000 { self.prg_bank_8000_c000 as int } else { self.prg_count - 2 }
                } else {
                    self.prg_count - 1
                };
                self.spec_prg_offset(address) == (bank % self.prg_count as int) * 0x2000 + address % 0x2000
            }),
    {
        crate::bits::lemma_window_offsets(address);
    }

    /// The 1 KiB CHR banks of the eight PPU windows: with A12 inversion off,
    /// R0 and its next bank, R1 and its next bank, then R2, R3, R4, R5; with
    /// it on, the two halves trade places.
    pub proof fn lemma_chr_windows(self, window: u16)
        requires
            window < 8,
        ensures
            ({
                let two_k = seq![
                    self.chr_bank_r0 as int,
                    self.chr_bank_r0 + 1,
                    self.chr_bank_r1 as int,
                    self.chr_bank_r1 + 1,
                ];
                let one_k = seq![
                    self.chr_bank_r2 as int,
                    self.chr_bank_r3 as int,
                    self.chr_bank_r4 as int,
                    self.chr_bank_r5 as int,
                ];
                let banks = if self.chr_bank_2k_1000 {
                    one_k + two_k
                } else {
                    two_k + one_k
                };
                self.spec_chr_window_bank(window) as int == banks[window as int] % 0x10000
            }),
    {
        lemma_ppu_address_bits((window * 0x400) as u16);
        assert(window % 2 == 0 || window % 2 == 1);
    }

    /// What a CPU write from 0x8000 up does, register by register. Bank
    /// select (0x8000-0x9FFF, even) takes the register number from bits 0-2;
    /// bit 6 clear puts R6 at 0x8000 and the second-last bank at 0xC000, set
    /// swaps them; bit 7 clear puts R0 at PPU 0x0000 and R2 at 0x1000, set
    /// swaps the halves; 0xA000 always shows R7 and 0xE000 the last bank.
    /// Bank data (odd) loads the selected register, R0 and R1 as even banks.
    /// At 0xA000-0xBFFF an even write chooses vertical mirroring when bit 0
    /// is clear and an odd one enables PRG RAM with bit 7 and protects it
    /// with bit 6. At 0xC000-0xDFFF even writes set the IRQ latch and odd ones
    /// ask for a reload; at 0xE000 up even writes disable and odd ones enable
    /// the IRQ.
    #[verifier::rlimit(40)]
    pub proof fn lemma_register_writes(self, address: u16, data: u8)
        requires
            self.wf(),
            0x8000 <= address,
        ensures
            ({
                let n = self.spec_register_write(address, data);
                let even = address & 1 == 0;
                let second_last = self.prg_count - 2;
                &&& n.wf()
                &&& n.prg_count == self.prg_count && n.chr_count == self.chr_count
                &&& (address <= 0x9FFF && even) ==> {
                    &&& n.bank_select == data & 7
                    &&& n.spec_prg_bank(0x8000) == if data & 0x40 == 0 {
                        self.prg_bank_8000_c000 as int
                    } else {
                        second_last
                    }
                    &&& n.spec_prg_bank(0xC000) == if data & 0x40 == 0 {
                        second_last
                    } else {
                        self.prg_bank_8000_c000 as int
                    }
                    &&& n.spec_prg_bank(0xA000) == self.prg_bank_a000 as int
                    &&& n.spec_prg_bank(0xE000) == self.prg_count - 1
                    &&& n.spec_chr_bank(0x0000) == if data & 0x80 == 0 {
                        self.chr_bank_r0
                    } else {
                        self.chr_bank_r2
                    }
                    &&& n.spec_chr_bank(0x1000) == if data & 0x80 == 0 {
                        self.chr_bank_r2
                    } else {
                        self.chr_bank_r0
                    }
                }
                &&& (address <= 0x9FFF && !even) ==> {
                    &&& n.bank_select == self.bank_select
                    &&& self.bank_select == 0 ==> n.chr_bank_r0 == data & 0xFE
                    &&& self.bank_select == 1 ==> n.chr_bank_r1 == data & 0xFE
                    &&& self.bank_select == 2 ==> n.chr_bank_r2 == data
                    &&& self.bank_select == 3 ==> n.chr_bank_r3 == data
                    &&& self.bank_select == 4 ==> n.chr_bank_r4 == data
                    &&& self.bank_select == 5 ==> n.chr_bank_r5 == data
                    &&& self.bank_select == 6 ==> n.prg_bank_8000_c000 == data
                    &&& self.bank_select == 7 ==> n.spec_prg_bank(0xA000) == data as int
                }
                &&& (0xA000 <= address <= 0xBFFF && even) ==> n == (Mapper4 {
                    mirroring_vertical: data & 1 == 0,
                    ..self
                })
                &&& (0xA000 <= address <= 0xBFFF && !even) ==> n == (Mapper4 {
                    prg_ram_enabled: data >= 0x80,
                    prg_ram_allow_writes: data & 0x40 == 0,
                    ..self
                })
                &&& (0xC000 <= address <= 0xDFFF && even) ==> n == (Mapper4 { irq_latch: data, ..self })
                &&& (0xC000 <= address <= 0xDFFF && !even) ==> n == (Mapper4 {
                    reload_irq_counter_flag: true,
                    ..self
                })
                &&& (0xE000 <= address && even) ==> !n.irq_enabled && !n.irq_pin
                &&& (0xE000 <= address && !even) ==> n == (Mapper4 { irq_enabled: true, ..self })
            }),
    {
        lemma_ppu_address_bits(0x0000);
        lemma_ppu_address_bits(0x1000);
        crate::bits::lemma_byte_sign(data);
        lemma_register_masks(data);
    }

    /// Whether a PPU address falls in one of the two 2 KiB banks.
    pub open spec fn spec_is_2k(self, address: u16) -> bool {
        (address & 0x1000 == 0) != self.chr_bank_2k_1000
    }

    /// The CHR bank register that a PPU address selects.
    pub open spec fn spec_chr_bank(self, address: u16) -> u8 {
        if self.spec_is_2k(address) {
            if address & 0x0800 == 0 {
                self.chr_bank_r0
            } else {
                self.chr_bank_r1
            }
        } else {
            let quarter = (address >> 10u16) & 0b11;
            if quarter == 0 {
                self.chr_bank_r2
            } else if quarter == 1 {
                self.chr_bank_r3
            } else if quarter == 2 {
                self.chr_bank_r4
            } else {
                self.chr_bank_r5
            }
        }
    }

    /// The offset a PPU access maps to: the selected bank (in 1 KiB units,
    /// modulo the bank count) and the offset in a 2 or 1 KiB bank.
    pub open spec fn spec_chr_offset(self, address: u16) -> int {
        let mask: u16 = if self.spec_is_2k(address) {
            0x7FF
        } else {
            0x3FF
        };
        (self.spec_chr_bank(address) as int % self.chr_count as int) * 0x400 + (address & mask)
    }

    /// The 8 KiB bank a PRG ROM read at `address` (0x8000 up) falls in,
    /// before the modulo: the switchable banks, the second-last bank in the
    /// fixed slot, and the last bank at 0xE000.
    pub open spec fn spec_prg_bank(self, address: u16) -> int {
        if address <= 0x9FFF {
            if self.prg_rom_bank_fix_8000 {
                self.prg_count - 2
            } else {
                self.prg_bank_8000_c000 as int
            }
        } else if address <= 0xBFFF {
            self.prg_bank_a000 as int
        } else if address <= 0xDFFF {
            if !self.prg_rom_bank_fix_8000 {
                self.prg_count - 2
            } else {
                self.prg_bank_8000_c000 as int
            }
        } else {
            self.prg_count - 1
        }
    }

    /// The offset a PRG ROM read maps to.
    pub open spec fn spec_prg_offset(self, address: u16) -> int {
        (self.spec_prg_bank(address) % self.prg_count as int) * 0x2000 + (address & 0x1FFF)
    }

    /// The registers after a write to the bank select register.
    pub open spec fn spec_bank_select_write(self, data: u8) -> Mapper4 {
        Mapper4 {
            bank_select: data & 0b111,
            prg_rom_bank_fix_8000: data & 0x40 != 0,
            chr_bank_2k_1000: data & 0x80 != 0,
            ..self
        }
    }

    /// The registers after a write to the bank data register: the register
    /// that bank select names takes `data` (the 2 KiB CHR banks as even
    /// numbers).
    pub open spec fn spec_bank_data_write(self, data: u8) -> Mapper4 {
        if self.bank_select == 0 {
            Mapper4 { chr_bank_r0: data & 0xFE, ..self }
        } else if self.bank_select == 1 {
            Mapper4 { chr_bank_r1: data & 0xFE, ..self }
        } else if self.bank_select == 2 {
            Mapper4 { chr_bank_r2: data, ..self }
        } else if self.bank_select == 3 {
            Mapper4 { chr_bank_r3: data, ..self }
        } else if self.bank_select == 4 {
            Mapper4 { chr_bank_r4: data, ..self }
        } else if self.bank_select == 5 {
            Mapper4 { chr_bank_r5: data, ..self }
        } else if self.bank_select == 6 {
            Mapper4 { prg_bank_8000_c000: data, ..self }
        } else {
            Mapper4 { prg_bank_a000: data, ..self }
        }
    }

    /// The registers after a CPU write of `data` at `address` (0x8000 up):
    /// bank select (even) and bank data (odd) at 0x8000-0x9FFF, mirroring
    /// (even) and PRG RAM protection (odd) at 0xA000-0xBFFF, the IRQ latch
    /// (even) and reload (odd) at 0xC000-0xDFFF, IRQ disable (even) and
    /// enable (odd) at 0xE000-0xFFFF.
    pub open spec fn spec_register_write(self, address: u16, data: u8) -> Mapper4 {
        let even = address & 1 == 0;
        if address <= 0x9FFF {
            if even {
                self.spec_bank_select_write(data)
            } else {
                self.spec_bank_data_write(data)
            }
        } else if address <= 0xBFFF {
            if even {
                Mapper4 { mirroring_vertical: data & 1 == 0, ..self }
            } else {
                Mapper4 {
                    prg_ram_allow_writes: data & 0x40 == 0,
                    prg_ram_enabled: data & 0x80 != 0,
                    ..self
                }
            }
        } else if address <= 0xDFFF {
            if even {
                Mapper4 { irq_latch: data, ..self }
            } else {
                Mapper4 { reload_irq_counter_flag: true, ..self }
            }
        } else if even {
            // disabling clears the pin and notifies the CPU
            Mapper4 { irq_enabled: false, irq_pin: false, is_irq_pin_changed: true, ..self }
        } else {
            Mapper4 { irq_enabled: true, ..self }
        }
    }

    pub fn new() -> (m: Self)
        ensures
            m.wf(),
            m.bank_select == 0 && !m.prg_rom_bank_fix_8000 && m.prg_bank_8000_c000 == 0
                && m.prg_bank_a000 == 0 && !m.chr_bank_2k_1000,
            m.chr_bank_r0 == 0 && m.chr_bank_r1 == 0 && m.chr_bank_r2 == 0 && m.chr_bank_r3 == 0
                && m.chr_bank_r4 == 0 && m.chr_bank_r5 == 0,
            !m.mirroring_vertical && m.prg_ram_allow_writes && m.prg_ram_enabled,
            m.irq_latch == 0 && m.irq_counter == 0 && !m.reload_irq_counter_flag && !m.irq_enabled
                && !m.irq_pin && !m.is_irq_pin_changed,
            !m.is_chr_ram && m.chr_count == 0 && m.prg_count == 0 && !m.last_pattern_table
                && !m.has_prg_ram,
    {
        Self {
            bank_select: 0,
            prg_rom_bank_fix_8000: false,
            prg_bank_8000_c000: 0,
            prg_bank_a000: 0,
            chr_bank_2k_1000: false,
            chr_bank_r0: 0,
            chr_bank_r1: 0,
            chr_bank_r2: 0,
            chr_bank_r3: 0,
            chr_bank_r4: 0,
            chr_bank_r5: 0,
            mirroring_vertical: false,
            prg_ram_allow_writes: true,
            prg_ram_enabled: true,
            irq_latch: 0,
            irq_counter: 0,
            reload_irq_counter_flag: false,
            irq_enabled: false,
            irq_pin: false,
            is_irq_pin_changed: false,
            is_chr_ram: false,
            chr_count: 0,
            prg_count: 0,
            last_pattern_table: false,
            has_prg_ram: false,
        }
    }

    pub(crate) fn handle_irq_counter(&mut self, address: u16)
        ensures
            *final(self) == old(self).spec_after_ppu_access(address),
    {
        let current_pattern_table = address & (1 << 12) != 0;
        assert(address & (1u16 << 12u16) == address & 0x1000) by (bit_vector);
        // transition from 0 to 1
        if !self.last_pattern_table && current_pattern_table {
            if self.reload_irq_counter_flag || self.irq_counter == 0 {
                self.reload_irq_counter_flag = false;
                self.irq_counter = self.irq_latch;
            } else {
                self.irq_counter = self.irq_counter.saturating_sub(1);
            }
            if self.irq_counter == 0 && self.irq_enabled {
                // trigger IRQ
                self.irq_pin = true;
                self.is_irq_pin_changed = true;
            }
        }
        self.last_pattern_table = current_pattern_table;
    }

    fn map_ppu(&mut self, address: u16) -> (r: MappingResult)
        requires
            old(self).chr_count > 0,
        ensures
            *final(self) == old(self).spec_after_ppu_access(address),
            r == MappingResult::Allowed(old(self).spec_chr_offset(address) as usize),
    {
        self.handle_irq_counter(address);
        let is_2k = (address & 0x1000 == 0) ^ self.chr_bank_2k_1000;
        let bank = if is_2k {
            if address & 0x0800 == 0 {
                self.chr_bank_r0
            } else {
                self.chr_bank_r1
            }
        } else {
            let quarter = (address >> 10) & 0b11;
            if quarter == 0 {
                self.chr_bank_r2
            } else if quarter == 1 {
                self.chr_bank_r3
            } else if quarter == 2 {
                self.chr_bank_r4
            } else {
                self.chr_bank_r5
            }
        } as usize;
        let bank = bank % self.chr_count as usize;
        let mask: u16 = if is_2k { 0x7FF } else { 0x3FF };
        let start_of_bank = bank * 0x400;
        MappingResult::Allowed(start_of_bank + (address & mask) as usize)
    }

    /// The 8 KiB PRG ROM bank at `address` (0x8000 up).
    fn prg_bank_at(&self, address: u16) -> (bank: u16)
        requires
            self.prg_count >= 2,
        ensures
            bank == self.spec_prg_bank(address) as u16,
    {
        if address <= 0x9FFF {
            if self.prg_rom_bank_fix_8000 {
                (self.prg_count - 2) as u16
            } else {
                self.prg_bank_8000_c000 as u16
            }
        } else if address <= 0xBFFF {
            self.prg_bank_a000 as u16
        } else if address <= 0xDFFF {
            if !self.prg_rom_bank_fix_8000 {
                (self.prg_count - 2) as u16
            } else {
                self.prg_bank_8000_c000 as u16
            }
        } else {
            (self.prg_count - 1) as u16
        }
    }

    /// The 1 KiB CHR bank of the PPU window at `window * 0x400`.
    fn chr_window_bank(&self, window: u16) -> (bank: u16)
        requires
            window < 8,
        ensures
            bank == self.spec_chr_window_bank(window),
    {
        let address = window * 0x400;
        let is_2k = (address & 0x1000 == 0) != self.chr_bank_2k_1000;
        let bank = if is_2k {
            if address & 0x0800 == 0 {
                self.chr_bank_r0
            } else {
                self.chr_bank_r1
            }
        } else {
            let quarter = (address >> 10) & 0b11;
            if quarter == 0 {
                self.chr_bank_r2
            } else if quarter == 1 {
                self.chr_bank_r3
            } else if quarter == 2 {
                self.chr_bank_r4
            } else {
                self.chr_bank_r5
            }
        };
        if is_2k {
            bank as u16 + window % 2
        } else {
            bank as u16
        }
    }

    /// The board's banks as the cartridge maps them.
    pub fn bank_mappings(&self) -> (mappings: Vec<BankMappingChange>)
        requires
            self.prg_count >= 2,
        ensures
            mappings@ == self.spec_bank_mappings(),
    {
        let ram_read = self.prg_ram_enabled && self.has_prg_ram;
        let ram_write = ram_read && self.prg_ram_allow_writes;
        let mut mappings = vec![
            (BankMappingType::CpuRam, 0, BankMapping { ty: BankMappingType::CpuRam, to: 0, read: ram_read, write: ram_write }),
        ];
        let mut w: u16 = 0;
        while w < 4
            invariant
                w <= 4,
                self.prg_count >= 2,
                mappings@.len() == 1 + w,
                mappings@[0] == self.spec_bank_mappings()[0],
                forall|i: int| 1 <= i <= w ==> mappings@[i] == self.spec_bank_mappings()[i],
            decreases 4 - w,
        {
            let to = self.prg_bank_at(0x8000 + w * 0x2000);
            mappings.push((BankMappingType::CpuRom, w as u8, BankMapping { ty: BankMappingType::CpuRom, to, read: true, write: false }));
            w = w + 1;
        }
        let mut w: u16 = 0;
        while w < 8
            invariant
                w <= 8,
                mappings@.len() == 5 + w,
                forall|i: int| 0 <= i < 5 + w ==> mappings@[i] == self.spec_bank_mappings()[i],
            decreases 8 - w,
        {
            let to = self.chr_window_bank(w);
            mappings.push((BankMappingType::Ppu, w as u8, BankMapping { ty: BankMappingType::Ppu, to, read: true, write: self.is_chr_ram }));
            w = w + 1;
        }
        assert(mappings@ =~= self.spec_bank_mappings());
        mappings
    }

    /// Sets the bank counts: PRG ROM in 8 KiB banks, CHR in 1 KiB banks.
    pub fn init(&mut self, prg_count: u8, is_chr_ram: bool, chr_count: u8, sram_count: u8)
        requires
            prg_count <= 127,
        ensures
            *final(self) == (Mapper4 {
                prg_count: (prg_count * 2) as u8,
                chr_count: (chr_count * 8) as u16,
                is_chr_ram,
                has_prg_ram: sram_count != 0,
                ..*old(self)
            }),
    {
        self.prg_count = prg_count * 2;
        self.chr_count = chr_count as u16 * 8;
        self.is_chr_ram = is_chr_ram;
        self.has_prg_ram = sram_count != 0;
    }

    /// PRG RAM reads when it is present and enabled; PRG ROM reads in the
    /// bank of the address; CHR reads in the selected bank, clocking the
    /// scanline counter.
    pub fn map_read(&mut self, address: u16, device: Device) -> (r: MappingResult)
        requires
            old(self).can_map_read(address, device),
        ensures
            device == Device::CPU ==> *final(self) == *old(self),
            device == Device::CPU && address <= 0x7FFF ==> r == (if old(self).prg_ram_enabled && old(
                self,
            ).has_prg_ram {
                MappingResult::Allowed((address & 0x1FFF) as usize)
            } else {
                MappingResult::Denied
            }),
            device == Device::CPU && address >= 0x8000 ==> r == MappingResult::Allowed(
                old(self).spec_prg_offset(address) as usize,
            ),
            device == Device::PPU ==> *final(self) == old(self).spec_after_ppu_access(address) && r
                == MappingResult::Allowed(old(self).spec_chr_offset(address) as usize),
    {
        match device {
            Device::CPU => {
                if address <= 0x7FFF {
                    if self.prg_ram_enabled && self.has_prg_ram {
                        proof {
                            lemma_address_low13(address);
                        }
                        MappingResult::Allowed(address as usize & 0x1FFF)
                    } else {
                        MappingResult::Denied
                    }
                } else {
                    let bank = if address <= 0x9FFF {
                        if self.prg_rom_bank_fix_8000 {
                            // second to last
                            self.prg_count - 2
                        } else {
                            self.prg_bank_8000_c000
                        }
                    } else if address <= 0xBFFF {
                        self.prg_bank_a000
                    } else if address <= 0xDFFF {
                        if !self.prg_rom_bank_fix_8000 {
                            // second to last
                            self.prg_count - 2
                        } else {
                            self.prg_bank_8000_c000
                        }
                    } else {
                        self.prg_count - 1
                    } as usize;
                    let bank = bank % self.prg_count as usize;
                    let start_of_bank = bank * 0x2000;
                    MappingResult::Allowed(start_of_bank + (address & 0x1FFF) as usize)
                }
            },
            Device::PPU => self.map_ppu(address),
        }
    }

    /// A write to the bank data register: the register that bank select
    /// names takes `data` (the 2 KiB CHR banks as even numbers).
    #[verifier::rlimit(100)]
    fn write_bank_data(&mut self, data: u8)
        requires
            old(self).wf(),
        ensures
            *final(self) == old(self).spec_bank_data_write(data),
            final(self).bank_select == old(self).bank_select,
    {
        // the 2 KiB banks are stored as even numbers
        let even_data = data & !1;
        proof {
            lemma_register_fields(data);
        }
        let select = self.bank_select;
        if select == 0 {
            self.chr_bank_r0 = even_data;
        } else if select == 1 {
            self.chr_bank_r1 = even_data;
        } else if select == 2 {
            self.chr_bank_r2 = data;
        } else if select == 3 {
            self.chr_bank_r3 = data;
        } else if select == 4 {
            self.chr_bank_r4 = data;
        } else if select == 5 {
            self.chr_bank_r5 = data;
        } else if select == 6 {
            self.prg_bank_8000_c000 = data;
        } else {
            self.prg_bank_a000 = data;
        }
    }

    /// A CPU write to the registers (0x8000 up).
    #[verifier::rlimit(40)]
    fn write_register(&mut self, address: u16, data: u8)
        requires
            old(self).wf(),
            address >= 0x8000,
        ensures
            *final(self) == old(self).spec_register_write(address, data),
            final(self).wf(),
    {
        let even = address & 1 == 0;
        if address <= 0x9FFF {
            if even {
                proof {
                    lemma_register_masks(data);
                }
                self.bank_select = data & 0b111;
                self.prg_rom_bank_fix_8000 = data & 0x40 != 0;
                self.chr_bank_2k_1000 = data & 0x80 != 0;
            } else {
                self.write_bank_data(data);
            }
        } else if address <= 0xBFFF {
            if even {
                self.mirroring_vertical = data & 1 == 0;
            } else {
                // PRG RAM stuff
                self.prg_ram_allow_writes = data & 0x40 == 0;
                self.prg_ram_enabled = data & 0x80 != 0;
            }
        } else if address <= 0xDFFF {
            if even {
                self.irq_latch = data;
            } else {
                self.reload_irq_counter_flag = true;
            }
        } else {
            // enable on odd addresses, disable on even addresses
            self.irq_enabled = address & 1 != 0;
            // if cleared, then clear the pin as well if it is set
            // and notify the CPU
            if !self.irq_enabled {
                self.irq_pin = false;
                self.is_irq_pin_changed = true;
            }
        }
    }

    /// PRG RAM writes when present, enabled and not protected; register
    /// writes from 0x8000 up; CHR RAM writes in the selected bank, clocking
    /// the scanline counter.
    pub fn map_write(&mut self, address: u16, data: u8, device: Device) -> (r: MappingResult)
        requires
            old(self).wf(),
            device == Device::CPU ==> 0x6000 <= address,
            device == Device::PPU && old(self).is_chr_ram && address <= 0x1FFF ==> old(self).chr_count > 0,
        ensures
            final(self).wf(),
            device == Device::CPU && address <= 0x7FFF ==> *final(self) == *old(self) && r == (if old(
                self,
            ).prg_ram_enabled && old(self).prg_ram_allow_writes && old(self).has_prg_ram {
                MappingResult::Allowed((address & 0x1FFF) as usize)
            } else {
                MappingResult::Denied
            }),
            device == Device::CPU && address >= 0x8000 ==> *final(self) == old(self).spec_register_write(
                address,
                data,
            ) && r == MappingResult::Denied,
            device == Device::PPU ==> if old(self).is_chr_ram && address <= 0x1FFF {
                *final(self) == old(self).spec_after_ppu_access(address) && r == MappingResult::Allowed(
                    old(self).spec_chr_offset(address) as usize,
                )
            } else {
                *final(self) == *old(self) && r == MappingResult::Denied
            },
    {
        match device {
            Device::CPU => {
                if address <= 0x7FFF {
                    if self.prg_ram_enabled && self.prg_ram_allow_writes && self.has_prg_ram {
                        proof {
                            lemma_address_low13(address);
                        }
                        MappingResult::Allowed(address as usize & 0x1FFF)
                    } else {
                        MappingResult::Denied
                    }
                } else {
                    self.write_register(address, data);
                    MappingResult::Denied
                }
            },
            Device::PPU => {
                // CHR RAM
                if self.is_chr_ram && address <= 0x1FFF {
                    self.map_ppu(address)
                } else {
                    MappingResult::Denied
                }
            },
        }
    }

    pub fn is_hardwired_mirrored(&self) -> (r: bool)
        ensures
            !r,
    {
        false
    }

    pub fn nametable_mirroring(&self) -> (mode: MirroringMode)
        ensures
            mode == (if self.mirroring_vertical {
                MirroringMode::Vertical
            } else {
                MirroringMode::Horizontal
            }),
    {
        if self.mirroring_vertical {
            MirroringMode::Vertical
        } else {
            MirroringMode::Horizontal
        }
    }

    pub fn is_irq_pin_state_changed_requested(&self) -> (r: bool)
        ensures
            r == self.is_irq_pin_changed,
    {
        self.is_irq_pin_changed
    }

    pub fn irq_pin_state(&self) -> (r: bool)
        ensures
            r == self.irq_pin,
    {
        self.irq_pin
    }

    pub fn clear_irq_request_pin(&mut self)
        ensures
            *final(self) == (Mapper4 { irq_pin: false, is_irq_pin_changed: false, ..*old(self) }),
    {
        self.irq_pin = false;
        self.is_irq_pin_changed = false;
    }
}

/// The bits of a pattern table address as arithmetic: A12 picks the half,
/// A11 the 2 KiB part of it, A10-A11 the 1 KiB part, and the low bits the
/// offset inside a bank.
proof fn lemma_ppu_address_bits(a: u16)
    by (bit_vector)
    requires
        a < 0x2000,
    ensures
        (a & 0x1000 == 0) == (a < 0x1000),
        (a & 0x0800 == 0) == (a % 0x1000 < 0x800),
        ((a >> 10u16) & 0b11) as int == (a % 0x1000) / 0x400,
        (a & 0x7FF) as int == a % 0x800,
        (a & 0x3FF) as int == a % 0x400,
{
}

} // verus!
