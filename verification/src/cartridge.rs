//! A cartridge: the ROM and RAM of a cartridge file, the mapper that banks
//! them, and the mapping of CPU and PPU addresses onto them.

use vstd::prelude::*;
use crate::cartridge_error::{CartridgeError, FileErrorKind};
use crate::common::{Bus, Device, MirroringMode, MirroringProvider};
use crate::ines_header::{decoded_header, is_valid_header, INesHeader};
use crate::mapper::{BankMapping, BankMappingChange, BankMappingType, Mapper};
use crate::mappers::mapper0::{mapper0_mappings, Mapper0};
use crate::mappers::mapper1::Mapper1;
use crate::mappers::mapper2::Mapper2;
use crate::mappers::mapper3::Mapper3;
use crate::mappers::mapper4::Mapper4;
use crate::mappers::mapper9::Mapper9;
use crate::mappers::mapper66::Mapper66;
use std::ops::RangeInclusive;

verus! {

/// The mapper a cartridge uses.
pub enum CartridgeMapper {
    Mapper0(Mapper0),
    Mapper1(Mapper1),
    Mapper2(Mapper2),
    Mapper3(Mapper3),
    Mapper4(Mapper4),
    Mapper9(Mapper9),
    Mapper66(Mapper66),
}

impl CartridgeMapper {
    pub open spec fn spec_ram_bank_size(self) -> u16 {
        0x2000
    }

    pub open spec fn spec_rom_bank_size(self) -> u16 {
        match self {
            CartridgeMapper::Mapper4(_) | CartridgeMapper::Mapper9(_) => 0x2000,
            _ => 0x4000,
        }
    }

    /// The number of PRG ROM windows: 32 KiB divided by the PRG ROM bank size.
    pub open spec fn spec_rom_windows(self) -> nat {
        match self {
            CartridgeMapper::Mapper4(_) | CartridgeMapper::Mapper9(_) => 4,
            _ => 2,
        }
    }

    pub open spec fn spec_ppu_bank_size(self) -> u16 {
        match self {
            CartridgeMapper::Mapper1(_) | CartridgeMapper::Mapper9(_) => 0x1000,
            CartridgeMapper::Mapper4(_) => 0x400,
            _ => 0x2000,
        }
    }

    /// The number of PPU windows: 8 KiB divided by the PPU bank size.
    pub open spec fn spec_ppu_windows(self) -> nat {
        match self {
            CartridgeMapper::Mapper1(_) | CartridgeMapper::Mapper9(_) => 2,
            CartridgeMapper::Mapper4(_) => 8,
            _ => 1,
        }
    }

    pub open spec fn spec_ready(self) -> bool {
        match self {
            CartridgeMapper::Mapper0(m) => m.spec_ready(),
            CartridgeMapper::Mapper1(m) => m.spec_ready(),
            CartridgeMapper::Mapper2(m) => m.prg_count >= 1,
            CartridgeMapper::Mapper4(m) => m.wf() && m.prg_count >= 2,
            CartridgeMapper::Mapper9(m) => m.prg_count >= 3,
            _ => true,
        }
    }

    pub open spec fn spec_registers_start(self) -> u16 {
        match self {
            CartridgeMapper::Mapper0(m) => m.spec_registers_start(),
            CartridgeMapper::Mapper1(m) => m.spec_registers_start(),
            CartridgeMapper::Mapper9(_) => 0xA000,
            _ => 0x8000,
        }
    }

    pub open spec fn spec_registers_end(self) -> u16 {
        match self {
            CartridgeMapper::Mapper0(m) => m.spec_registers_end(),
            CartridgeMapper::Mapper1(m) => m.spec_registers_end(),
            _ => 0xFFFF,
        }
    }

    pub open spec fn spec_hardwired_mirrored(self) -> bool {
        match self {
            CartridgeMapper::Mapper0(m) => m.spec_hardwired_mirrored(),
            CartridgeMapper::Mapper1(m) => m.spec_hardwired_mirrored(),
            CartridgeMapper::Mapper4(_) | CartridgeMapper::Mapper9(_) => false,
            _ => true,
        }
    }

    /// The mapper after a register write, and the mapping changes it reports.
    pub open spec fn spec_write_register(self, address: u16, data: u8) -> (CartridgeMapper, Seq<BankMappingChange>) {
        match self {
            CartridgeMapper::Mapper0(m) => (self, Seq::empty()),
            CartridgeMapper::Mapper1(m) => {
                let next = m.spec_write(address, data);
                (
                    CartridgeMapper::Mapper1(next),
                    if m.spec_write_completes(data) {
                        next.spec_mappings()
                    } else {
                        Seq::empty()
                    },
                )
            },
            // the other boards select their banks with any write from 0x8000
            // up, and report all their mappings
            CartridgeMapper::Mapper2(m) => {
                let next = Mapper2 { prg_top_bank: data, ..m };
                (CartridgeMapper::Mapper2(next), next.spec_bank_mappings())
            },
            CartridgeMapper::Mapper3(m) => {
                let next = Mapper3 {
                    chr_bank: if m.chr_count <= 4 {
                        data & 0b11
                    } else {
                        data
                    },
                    ..m
                };
                (CartridgeMapper::Mapper3(next), next.spec_bank_mappings())
            },
            CartridgeMapper::Mapper66(m) => {
                let next = Mapper66 { chr_bank: data & 0x3, prg_bank: (data >> 4u8) & 0x3, ..m };
                (CartridgeMapper::Mapper66(next), next.spec_bank_mappings())
            },
            CartridgeMapper::Mapper4(m) => {
                let next = m.spec_register_write(address, data);
                (CartridgeMapper::Mapper4(next), next.spec_bank_mappings())
            },
            CartridgeMapper::Mapper9(m) => {
                let next = m.spec_register_write(address, data);
                (CartridgeMapper::Mapper9(next), next.spec_bank_mappings())
            },
        }
    }

    /// The mapper after the PPU read `address`, and the mapping changes it
    /// reports: MMC3 clocks its scanline counter on A12; MMC2 flips its CHR
    /// latches and reports its banks; the others do nothing.
    pub open spec fn spec_after_ppu_read(self, address: u16) -> (CartridgeMapper, Seq<BankMappingChange>) {
        match self {
            CartridgeMapper::Mapper4(m) => (
                CartridgeMapper::Mapper4(m.spec_after_ppu_access(address)),
                Seq::empty(),
            ),
            CartridgeMapper::Mapper9(m) => {
                let next = m.spec_after_ppu_access(address);
                (CartridgeMapper::Mapper9(next), next.spec_bank_mappings())
            },
            _ => (self, Seq::empty()),
        }
    }

    /// The mapper after the PPU wrote `address`: MMC3 with CHR RAM clocks
    /// its scanline counter; the others do nothing.
    pub open spec fn spec_after_ppu_write(self, address: u16) -> CartridgeMapper {
        match self {
            CartridgeMapper::Mapper4(m) => if m.is_chr_ram && address <= 0x1FFF {
                CartridgeMapper::Mapper4(m.spec_after_ppu_access(address))
            } else {
                self
            },
            _ => self,
        }
    }

    /// The mapper asks the CPU to look at its IRQ line.
    pub open spec fn spec_irq_change_requested(self) -> bool {
        match self {
            CartridgeMapper::Mapper4(m) => m.is_irq_pin_changed,
            _ => false,
        }
    }

    /// The level of the mapper's IRQ line.
    pub open spec fn spec_irq_pin(self) -> bool {
        match self {
            CartridgeMapper::Mapper4(m) => m.irq_pin,
            _ => false,
        }
    }

    /// The mapper after the CPU saw its IRQ line.
    pub open spec fn spec_irq_cleared(self) -> CartridgeMapper {
        match self {
            CartridgeMapper::Mapper4(m) => CartridgeMapper::Mapper4(
                Mapper4 { irq_pin: false, is_irq_pin_changed: false, ..m },
            ),
            _ => self,
        }
    }

    pub fn cpu_ram_bank_size(&self) -> (size: u16)
        ensures
            size == self.spec_ram_bank_size(),
    {
        match self {
            CartridgeMapper::Mapper0(m) => m.cpu_ram_bank_size(),
            CartridgeMapper::Mapper1(m) => m.cpu_ram_bank_size(),
            _ => 0x2000,
        }
    }

    pub fn cpu_rom_bank_size(&self) -> (size: u16)
        ensures
            size == self.spec_rom_bank_size(),
    {
        match self {
            CartridgeMapper::Mapper0(m) => m.cpu_rom_bank_size(),
            CartridgeMapper::Mapper1(m) => m.cpu_rom_bank_size(),
            CartridgeMapper::Mapper4(_) | CartridgeMapper::Mapper9(_) => 0x2000,
            _ => 0x4000,
        }
    }

    pub fn ppu_bank_size(&self) -> (size: u16)
        ensures
            size == self.spec_ppu_bank_size(),
    {
        match self {
            CartridgeMapper::Mapper0(m) => m.ppu_bank_size(),
            CartridgeMapper::Mapper1(m) => m.ppu_bank_size(),
            CartridgeMapper::Mapper4(_) => 0x400,
            CartridgeMapper::Mapper9(_) => 0x1000,
            _ => 0x2000,
        }
    }

    pub fn registers_memory_range(&self) -> (range: RangeInclusive<u16>)
        ensures
            range@.start == self.spec_registers_start(),
            range@.end == self.spec_registers_end(),
            !range@.exhausted,
    {
        match self {
            CartridgeMapper::Mapper0(m) => m.registers_memory_range(),
            CartridgeMapper::Mapper1(m) => m.registers_memory_range(),
            CartridgeMapper::Mapper9(_) => 0xA000..=0xFFFF,
            _ => 0x8000..=0xFFFF,
        }
    }

    pub fn write_register(&mut self, address: u16, data: u8) -> (changes: Vec<BankMappingChange>)
        requires
            old(self).spec_ready(),
            old(self).spec_registers_start() <= address <= old(self).spec_registers_end(),
        ensures
            (*final(self), changes@) == old(self).spec_write_register(address, data),
            final(self).spec_ready(),
    {
        match self {
            CartridgeMapper::Mapper0(m) => m.write_register(address, data),
            CartridgeMapper::Mapper1(m) => m.write_register(address, data),
            CartridgeMapper::Mapper2(m) => {
                m.map_write(address, data, Device::CPU);
                m.bank_mappings()
            },
            CartridgeMapper::Mapper3(m) => {
                m.map_write(address, data, Device::CPU);
                m.bank_mappings()
            },
            CartridgeMapper::Mapper66(m) => {
                m.map_write(address, data, Device::CPU);
                m.bank_mappings()
            },
            CartridgeMapper::Mapper4(m) => {
                m.map_write(address, data, Device::CPU);
                m.bank_mappings()
            },
            CartridgeMapper::Mapper9(m) => {
                m.map_write(address, data, Device::CPU);
                m.bank_mappings()
            },
        }
    }

    pub fn is_hardwired_mirrored(&self) -> (r: bool)
        ensures
            r == self.spec_hardwired_mirrored(),
    {
        match self {
            CartridgeMapper::Mapper0(m) => m.is_hardwired_mirrored(),
            CartridgeMapper::Mapper1(m) => m.is_hardwired_mirrored(),
            CartridgeMapper::Mapper4(m) => m.is_hardwired_mirrored(),
            CartridgeMapper::Mapper9(m) => m.is_hardwired_mirrored(),
            _ => true,
        }
    }

    pub fn nametable_mirroring(&self) -> (mode: MirroringMode)
        requires
            !self.spec_hardwired_mirrored(),
        ensures
            mode == mapper_mirroring(*self),
    {
        match self {
            CartridgeMapper::Mapper0(m) => m.nametable_mirroring(),
            CartridgeMapper::Mapper1(m) => m.nametable_mirroring(),
            CartridgeMapper::Mapper4(m) => m.nametable_mirroring(),
            CartridgeMapper::Mapper9(m) => m.nametable_mirroring(),
            // these boards are hardwired
            _ => MirroringMode::Vertical,
        }
    }

    /// Lets the mapper see a PPU read; returns the mapping changes it reports.
    pub fn after_ppu_read(&mut self, address: u16) -> (changes: Vec<BankMappingChange>)
        requires
            old(self).spec_ready(),
        ensures
            (*final(self), changes@) == old(self).spec_after_ppu_read(address),
            final(self).spec_ready(),
    {
        match self {
            CartridgeMapper::Mapper4(m) => {
                m.handle_irq_counter(address);
                Vec::new()
            },
            CartridgeMapper::Mapper9(m) => {
                m.update_latches(address);
                m.bank_mappings()
            },
            _ => Vec::new(),
        }
    }

    /// Lets the mapper see a PPU write.
    pub fn after_ppu_write(&mut self, address: u16)
        requires
            old(self).spec_ready(),
        ensures
            *final(self) == old(self).spec_after_ppu_write(address),
            final(self).spec_ready(),
    {
        match self {
            CartridgeMapper::Mapper4(m) => {
                if m.is_chr_ram && address <= 0x1FFF {
                    m.handle_irq_counter(address);
                }
            },
            _ => {},
        }
    }

    pub fn is_irq_change_requested(&self) -> (r: bool)
        ensures
            r == self.spec_irq_change_requested(),
    {
        match self {
            CartridgeMapper::Mapper4(m) => m.is_irq_pin_state_changed_requested(),
            _ => false,
        }
    }

    pub fn irq_pin_state(&self) -> (r: bool)
        ensures
            r == self.spec_irq_pin(),
    {
        match self {
            CartridgeMapper::Mapper4(m) => m.irq_pin_state(),
            _ => false,
        }
    }

    pub fn clear_irq_request_pin(&mut self)
        ensures
            *final(self) == old(self).spec_irq_cleared(),
    {
        match self {
            CartridgeMapper::Mapper4(m) => m.clear_irq_request_pin(),
            _ => {},
        }
    }
}

/// The mirroring that a mapper with a mirroring register selects.
pub open spec fn mapper_mirroring(mapper: CartridgeMapper) -> MirroringMode {
    match mapper {
        CartridgeMapper::Mapper1(m) => mapper1_mirroring(m),
        CartridgeMapper::Mapper4(m) => if m.mirroring_vertical {
            MirroringMode::Vertical
        } else {
            MirroringMode::Horizontal
        },
        CartridgeMapper::Mapper9(m) => if m.mirroring_vertical {
            MirroringMode::Vertical
        } else {
            MirroringMode::Horizontal
        },
        _ => MirroringMode::Vertical,
    }
}

/// The mirroring that mapper 1's control register selects.
pub open spec fn mapper1_mirroring(m: Mapper1) -> MirroringMode {
    if m.spec_mirroring() == 0 {
        MirroringMode::SingleScreenLowBank
    } else if m.spec_mirroring() == 1 {
        MirroringMode::SingleScreenHighBank
    } else if m.spec_mirroring() == 2 {
        MirroringMode::Vertical
    } else {
        MirroringMode::Horizontal
    }
}

/// Bits 0-1 of MMC1's control register choose the nametable layout: 0 one
/// screen from the lower bank, 1 one screen from the upper bank, 2 vertical
/// and 3 horizontal mirroring.
pub proof fn lemma_mapper1_mirroring_modes(m: Mapper1)
    ensures
        mapper1_mirroring(m) == if m.control_register % 4 == 0 {
            MirroringMode::SingleScreenLowBank
        } else if m.control_register % 4 == 1 {
            MirroringMode::SingleScreenHighBank
        } else if m.control_register % 4 == 2 {
            MirroringMode::Vertical
        } else {
            MirroringMode::Horizontal
        },
{
    crate::bits::lemma_two_bit_fields(m.control_register);
}

/// The mappers a cartridge can be loaded with.
pub open spec fn is_supported_mapper(id: u16) -> bool {
    id == 0 || id == 1 || id == 2 || id == 3 || id == 4 || id == 9 || id == 66
}

/// The header's mapper can be set up with the header's PRG ROM size
/// (mappers 0 and 3 take one or two 16 KiB banks, mappers 1 and 2 at least
/// one, mapper 66 whole 32 KiB banks, mapper 4 up to 127 and mapper 9 from
/// two up to 127 of them; the boards count banks in a byte).
pub open spec fn mapper_accepts_header(h: INesHeader) -> bool {
    &&& h.mapper_id == 0 || h.mapper_id == 3 ==> h.prg_rom_size == 1 || h.prg_rom_size == 2
    &&& h.mapper_id == 1 || h.mapper_id == 2 ==> h.prg_rom_size % 256 >= 1
    &&& h.mapper_id == 66 ==> h.prg_rom_size % 256 >= 1 && (h.prg_rom_size % 256) % 2 == 0
    &&& h.mapper_id == 4 ==> 1 <= h.prg_rom_size <= 127
    &&& h.mapper_id == 9 ==> 2 <= h.prg_rom_size <= 127 && bank_count_ppu(h, 0x2000) % 0x10000
        % 256 <= 127
}

/// What a cartridge holds, as values.
pub struct CartridgeView {
    pub header: INesHeader,
    pub prg_data: Seq<u8>,
    pub chr_data: Seq<u8>,
    pub prg_ram_data: Seq<u8>,
    pub cpu_ram_memory_mapping: Seq<BankMapping>,
    pub cpu_rom_memory_mapping: Seq<BankMapping>,
    pub ppu_memory_mapping: Seq<BankMapping>,
    pub mapper: CartridgeMapper,
    pub registers_start: u16,
    pub registers_end: u16,
    pub is_empty: bool,
}

/// The memory a mapping type refers to.
pub open spec fn data_of(v: CartridgeView, ty: BankMappingType) -> Seq<u8> {
    match ty {
        BankMappingType::CpuRam => v.prg_ram_data,
        BankMappingType::CpuRom => v.prg_data,
        BankMappingType::Ppu => v.chr_data,
    }
}

/// The number of banks of a mapping type (as the 16-bit count the header
/// computes) and their size.
pub open spec fn bank_layout(v: CartridgeView, ty: BankMappingType) -> (int, int) {
    match ty {
        BankMappingType::CpuRam => {
            let size = v.mapper.spec_ram_bank_size() as int;
            ((v.header.active_prg_ram_bytes() as int / size) % 0x10000, size)
        },
        BankMappingType::CpuRom => {
            let size = v.mapper.spec_rom_bank_size() as int;
            ((v.header.prg_rom_size * 0x4000 / size) % 0x10000, size)
        },
        BankMappingType::Ppu => {
            let size = v.mapper.spec_ppu_bank_size() as int;
            (
                (if !v.header.is_chr_ram {
                    v.header.chr_rom_size * 0x2000 / size
                } else {
                    v.header.chr_wram_size as int / size
                }) % 0x10000,
                size,
            )
        },
    }
}

/// Addresses a device can use on a cartridge: the CPU from 0x4200 up, the
/// PPU below 0x2000.
pub open spec fn address_in_range(address: u16, device: Device) -> bool {
    match device {
        Device::CPU => address >= 0x4200,
        Device::PPU => address <= 0x1FFF,
    }
}

/// The mapping window an address falls in, and the offset in that window.
pub open spec fn window(v: CartridgeView, address: u16, device: Device) -> (BankMapping, int) {
    if device == Device::CPU && 0x6000 <= address <= 0x7FFF {
        let offset = address as int % 0x2000;
        let size = v.mapper.spec_ram_bank_size() as int;
        (v.cpu_ram_memory_mapping[offset / size], offset % size)
    } else if device == Device::CPU && address >= 0x8000 {
        let offset = address as int % 0x8000;
        let size = v.mapper.spec_rom_bank_size() as int;
        (v.cpu_rom_memory_mapping[offset / size], offset % size)
    } else if device == Device::CPU {
        // 0x4200-0x5FFF is not used
        (BankMapping { ty: BankMappingType::CpuRam, to: 0, read: false, write: false }, 0)
    } else {
        let offset = address as int % 0x2000;
        let size = v.mapper.spec_ppu_bank_size() as int;
        (v.ppu_memory_mapping[offset / size], offset % size)
    }
}

/// The mapping of an address and the index it maps to in that mapping's
/// memory: the mapping's bank (modulo the number of banks, 0 when there are
/// none) times the bank size, plus the offset.
pub open spec fn mapped_address(v: CartridgeView, address: u16, device: Device) -> (BankMapping, int) {
    let (mapping, offset) = window(v, address, device);
    let (count, size) = bank_layout(v, mapping.ty);
    let bank = if count != 0 {
        mapping.to as int % count
    } else {
        0
    };
    (mapping, bank * size + offset)
}

/// The mapping tables have one entry per window of the mapper's bank sizes
/// (one 8 KiB window of PRG RAM, two 16 KiB windows of PRG ROM, and 8 KiB of
/// CHR in banks of the mapper's size), and the mapper is set up.
pub open spec fn view_wf(v: CartridgeView) -> bool {
    !v.is_empty ==> {
        &&& v.cpu_ram_memory_mapping.len() == 1
        &&& v.cpu_rom_memory_mapping.len() == v.mapper.spec_rom_windows()
        &&& v.ppu_memory_mapping.len() == v.mapper.spec_ppu_windows()
        &&& v.mapper.spec_ready()
        &&& v.registers_start == v.mapper.spec_registers_start()
        &&& v.registers_end == v.mapper.spec_registers_end()
    }
}

/// The address is one of the mapper's registers.
pub open spec fn is_register(v: CartridgeView, address: u16) -> bool {
    v.registers_start <= address <= v.registers_end
}

/// A mapping allowing an access maps inside its memory.
pub open spec fn maps_inside(v: CartridgeView, address: u16, device: Device) -> bool {
    let (mapping, index) = mapped_address(v, address, device);
    0 <= index < data_of(v, mapping.ty).len()
}

/// A read at `address` does not reach outside the cartridge's memory.
pub open spec fn view_can_read(v: CartridgeView, address: u16, device: Device) -> bool {
    let w = view_after_read(v, address, device);
    &&& view_wf(v)
    &&& !v.is_empty ==> address_in_range(address, device) && (window(w, address, device).0.read
        ==> maps_inside(w, address, device))
}

/// A write at `address` does not reach outside the cartridge's memory.
pub open spec fn view_can_write(v: CartridgeView, address: u16, device: Device) -> bool {
    &&& view_wf(v)
    &&& !v.is_empty ==> address_in_range(address, device) && (!is_register(v, address) && window(
        v,
        address,
        device,
    ).0.write ==> maps_inside(v, address, device))
}

/// What a read returns: on an empty cartridge a NOP for the CPU and 0 for
/// the PPU; otherwise the mapped byte when the mapping allows reading, else 0.
pub open spec fn view_read(v: CartridgeView, address: u16, device: Device) -> u8 {
    if v.is_empty {
        match device {
            Device::CPU => 0xEA,
            Device::PPU => 0x00,
        }
    } else {
        let (mapping, index) = mapped_address(v, address, device);
        if mapping.read {
            data_of(v, mapping.ty)[index]
        } else {
            0
        }
    }
}

/// One mapping change applied to the mapping tables.
pub open spec fn apply_change(v: CartridgeView, change: BankMappingChange) -> CartridgeView {
    let (ty, index, mapping) = change;
    match ty {
        BankMappingType::CpuRam => CartridgeView {
            cpu_ram_memory_mapping: v.cpu_ram_memory_mapping.update(index as int, mapping),
            ..v
        },
        BankMappingType::CpuRom => CartridgeView {
            cpu_rom_memory_mapping: v.cpu_rom_memory_mapping.update(index as int, mapping),
            ..v
        },
        BankMappingType::Ppu => CartridgeView {
            ppu_memory_mapping: v.ppu_memory_mapping.update(index as int, mapping),
            ..v
        },
    }
}

/// Mapping changes applied in order.
pub open spec fn apply_changes(v: CartridgeView, changes: Seq<BankMappingChange>) -> CartridgeView
    decreases changes.len(),
{
    if changes.len() == 0 {
        v
    } else {
        apply_change(apply_changes(v, changes.drop_last()), changes.last())
    }
}

/// Every change refers to an existing window.
pub open spec fn changes_fit(v: CartridgeView, changes: Seq<BankMappingChange>) -> bool {
    forall|i: int|
        0 <= i < changes.len() ==> {
            let (ty, index, _) = #[trigger] changes[i];
            match ty {
                BankMappingType::CpuRam => index < v.cpu_ram_memory_mapping.len(),
                BankMappingType::CpuRom => index < v.cpu_rom_memory_mapping.len(),
                BankMappingType::Ppu => index < v.ppu_memory_mapping.len(),
            }
        }
}

/// What a write changes: nothing on an empty cartridge; a mapper register
/// and the mappings it reports; or the mapped byte when the mapping allows
/// writing.
pub open spec fn view_write(v: CartridgeView, address: u16, data: u8, device: Device) -> CartridgeView {
    if v.is_empty {
        v
    } else if is_register(v, address) {
        let (mapper, changes) = v.mapper.spec_write_register(address, data);
        apply_changes(CartridgeView { mapper, ..v }, changes)
    } else {
        let (mapping, index) = mapped_address(v, address, device);
        let mapper = if device == Device::PPU {
            v.mapper.spec_after_ppu_write(address)
        } else {
            v.mapper
        };
        if mapping.write {
            match mapping.ty {
                BankMappingType::CpuRam => CartridgeView { prg_ram_data: v.prg_ram_data.update(index, data), mapper, ..v },
                BankMappingType::CpuRom => CartridgeView { prg_data: v.prg_data.update(index, data), mapper, ..v },
                BankMappingType::Ppu => CartridgeView { chr_data: v.chr_data.update(index, data), mapper, ..v },
            }
        } else {
            CartridgeView { mapper, ..v }
        }
    }
}

/// The nametable mirroring of a cartridge.
pub open spec fn view_mirroring(v: CartridgeView) -> MirroringMode {
    if v.is_empty {
        MirroringMode::Vertical
    } else if v.header.use_hardwaired_4_screen_mirroring {
        MirroringMode::FourScreen
    } else if v.mapper.spec_hardwired_mirrored() {
        if v.header.hardwired_mirroring_vertical {
            MirroringMode::Vertical
        } else {
            MirroringMode::Horizontal
        }
    } else {
        mapper_mirroring(v.mapper)
    }
}

/// The cartridge after a read: the PPU's reads reach the mapper, which
/// reports the mapping changes they cause.
pub open spec fn view_after_read(v: CartridgeView, address: u16, device: Device) -> CartridgeView {
    if v.is_empty || device == Device::CPU {
        v
    } else {
        let (mapper, changes) = v.mapper.spec_after_ppu_read(address);
        apply_changes(CartridgeView { mapper, ..v }, changes)
    }
}

/// Whether the mapper asks the CPU to look at its IRQ line.
pub open spec fn view_irq_change_requested(v: CartridgeView) -> bool {
    !v.is_empty && v.mapper.spec_irq_change_requested()
}

pub struct Cartridge {
    file_path: String,
    header: INesHeader,
    trainer_data: Vec<u8>,
    prg_data: Vec<u8>,
    chr_data: Vec<u8>,
    prg_ram_data: Vec<u8>,
    /// mapping of range 0x6000-0x7FFF, divided by the smallest block offered
    /// by the mapper
    cpu_ram_memory_mapping: Vec<BankMapping>,
    /// mapping of range 0x8000-0xFFFF, divided by the smallest block offered
    /// by the mapper
    cpu_rom_memory_mapping: Vec<BankMapping>,
    /// mapping of range 0x0000-0x1FFF, divided by the smallest block offered
    /// by the mapper
    ppu_memory_mapping: Vec<BankMapping>,
    mapper: CartridgeMapper,
    /// cached here for faster usage
    mapper_register_write_range: RangeInclusive<u16>,
    is_empty: bool,
}

impl View for Cartridge {
    type V = CartridgeView;

    closed spec fn view(&self) -> CartridgeView {
        CartridgeView {
            header: self.header,
            prg_data: self.prg_data@,
            chr_data: self.chr_data@,
            prg_ram_data: self.prg_ram_data@,
            cpu_ram_memory_mapping: self.cpu_ram_memory_mapping@,
            cpu_rom_memory_mapping: self.cpu_rom_memory_mapping@,
            ppu_memory_mapping: self.ppu_memory_mapping@,
            mapper: self.mapper,
            registers_start: self.mapper_register_write_range@.start,
            registers_end: self.mapper_register_write_range@.end,
            is_empty: self.is_empty,
        }
    }
}

/// `len` zero bytes.
fn zeros(len: usize) -> (v: Vec<u8>)
    ensures
        v@ == Seq::new(len as nat, |i: int| 0u8),
{
    let mut v: Vec<u8> = Vec::new();
    let mut i: usize = 0;
    while i < len
        invariant
            i <= len,
            v@ == Seq::new(i as nat, |k: int| 0u8),
        decreases len - i,
    {
        v.push(0);
        i = i + 1;
        assert(v@ =~= Seq::new(i as nat, |k: int| 0u8));
    }
    v
}

/// A copy of `len` bytes of `data` from `start`.
fn copy_bytes(data: &[u8], start: usize, len: usize) -> (v: Vec<u8>)
    requires
        start + len <= data@.len(),
    ensures
        v@ == data@.subrange(start as int, start + len),
{
    let mut v: Vec<u8> = Vec::new();
    let mut i: usize = 0;
    let n = data.len();
    while i < len
        invariant
            i <= len,
            n == data@.len(),
            start + len <= data@.len(),
            v@ == data@.subrange(start as int, start + i),
        decreases len - i,
    {
        assert(start + i < data@.len());
        v.push(data[start + i]);
        i = i + 1;
        assert(v@ =~= data@.subrange(start as int, start + i));
    }
    v
}

/// `len` copies of a bank mapping.
fn mapping_table(mapping: BankMapping, len: usize) -> (v: Vec<BankMapping>)
    ensures
        v@ == Seq::new(len as nat, |i: int| mapping),
{
    let mut v: Vec<BankMapping> = Vec::new();
    let mut i: usize = 0;
    while i < len
        invariant
            i <= len,
            v@ == Seq::new(i as nat, |k: int| mapping),
        decreases len - i,
    {
        v.push(mapping);
        i = i + 1;
        assert(v@ =~= Seq::new(i as nat, |k: int| mapping));
    }
    v
}

/// The mapping every window has before the mapper's first mappings.
pub open spec fn unmapped(ty: BankMappingType) -> BankMapping {
    BankMapping { ty, to: 0, read: false, write: false }
}

/// The sizes of the parts of a cartridge file after its header.
pub open spec fn trainer_len(h: INesHeader) -> int {
    if h.contain_trainer_data {
        512
    } else {
        0
    }
}

pub open spec fn prg_len(h: INesHeader) -> int {
    h.prg_rom_size * 16 * 1024
}

pub open spec fn chr_len(h: INesHeader) -> int {
    if !h.is_chr_ram {
        h.chr_rom_size * 8 * 1024
    } else {
        0
    }
}

/// The first 16 bytes of a file, as a header.
pub open spec fn header_bytes(data: Seq<u8>) -> [u8; 16] {
    choose|b: [u8; 16]| b@ == data.subrange(0, 16)
}

/// The PRG RAM a cartridge starts with: with a battery, the saved data
/// when there is enough of it, else zeros of the battery-backed size;
/// without a battery, zeros of the work RAM size.
pub open spec fn initial_prg_ram(h: INesHeader, saved: Option<Seq<u8>>) -> Seq<u8> {
    if h.has_prg_ram_battery {
        match saved {
            Some(s) if s.len() >= h.prg_sram_size => s.subrange(0, h.prg_sram_size as int),
            _ => Seq::new(h.prg_sram_size as nat, |i: int| 0u8),
        }
    } else {
        Seq::new(h.prg_wram_size as nat, |i: int| 0u8)
    }
}

/// The mapper of a header, set up by `init`, and its first mappings.
pub open spec fn initial_mapper(h: INesHeader) -> (CartridgeMapper, Seq<BankMappingChange>) {
    if h.mapper_id == 0 {
        (
            CartridgeMapper::Mapper0(Mapper0 {  }),
            mapper0_mappings(h.prg_rom_size, h.is_chr_ram, ((h.active_prg_ram_bytes() as int / 0x2000) % 0x10000) as u16),
        )
    } else if h.mapper_id == 4 {
        let m = Mapper4 {
            bank_select: 0,
            prg_rom_bank_fix_8000: false,
            prg_bank_8000_c000: 0,
            prg_bank_a000: 0,
            chr_bank_2k_1000: false,
            chr_bank_r0: 0,
            chr_bank_r1: 0,
            chr_bank_r2: 0,
            chr_bank_r3: 0,
            chr_bank_r4: 0,
            chr_bank_r5: 0,
            mirroring_vertical: false,
            prg_ram_allow_writes: true,
            prg_ram_enabled: true,
            irq_latch: 0,
            irq_counter: 0,
            reload_irq_counter_flag: false,
            irq_enabled: false,
            irq_pin: false,
            is_irq_pin_changed: false,
            is_chr_ram: h.is_chr_ram,
            chr_count: (((bank_count_ppu(h, 0x2000) % 0x10000) % 256) * 8) as u16,
            prg_count: (h.prg_rom_size * 2) as u8,
            last_pattern_table: false,
            has_prg_ram: ((h.active_prg_ram_bytes() as int / 0x2000) % 0x10000) % 256 != 0,
        };
        (CartridgeMapper::Mapper4(m), m.spec_bank_mappings())
    } else if h.mapper_id == 9 {
        let m = Mapper9 {
            prg_bank: 0,
            latch_0: 0xFE,
            latch_1: 0xFE,
            chr_fd_0000_bank: 0,
            chr_fe_0000_bank: 0,
            chr_fd_1000_bank: 0,
            chr_fe_1000_bank: 0,
            mirroring_vertical: false,
            is_chr_ram: h.is_chr_ram,
            chr_count: (((bank_count_ppu(h, 0x2000) % 0x10000) % 256) * 2) as u8,
            prg_count: (h.prg_rom_size * 2) as u8,
        };
        let has_ram = (h.active_prg_ram_bytes() as int / 0x2000) % 0x10000 > 0;
        (
            CartridgeMapper::Mapper9(m),
            seq![(BankMappingType::CpuRam, 0u8, BankMapping { ty: BankMappingType::CpuRam, to: 0, read: has_ram, write: has_ram })]
                + m.spec_bank_mappings(),
        )
    } else if h.mapper_id == 2 {
        let m = Mapper2 { prg_top_bank: 0, prg_count: (h.prg_rom_size % 256) as u8, is_chr_ram: h.is_chr_ram };
        (CartridgeMapper::Mapper2(m), m.spec_bank_mappings())
    } else if h.mapper_id == 3 {
        let m = Mapper3 {
            has_32kb_prg_rom: h.prg_rom_size == 2,
            chr_bank: 0,
            chr_count: ((bank_count_ppu(h, 0x2000) % 0x10000) % 256) as u8,
            is_chr_ram: h.is_chr_ram,
        };
        (CartridgeMapper::Mapper3(m), m.spec_bank_mappings())
    } else if h.mapper_id == 66 {
        let m = Mapper66 {
            chr_count: ((bank_count_ppu(h, 0x2000) % 0x10000) % 256) as u8,
            chr_bank: 0,
            prg_count: ((h.prg_rom_size % 256) / 2) as u8,
            prg_bank: 0,
            is_chr_ram: h.is_chr_ram,
        };
        (CartridgeMapper::Mapper66(m), m.spec_bank_mappings())
    } else {
        let m = Mapper1 {
            writing_shift_register: crate::mappers::mapper1::SHIFT_REGISTER_EMPTY,
            control_register: 0b11100,
            chr_0_bank: 0,
            chr_1_bank: 0,
            prg_bank: (h.prg_rom_size % 256 - 1) as u8,
            prg_ram_enable: false,
            is_chr_ram: h.is_chr_ram,
            chr_count: ((bank_count_ppu(h, 0x1000) % 0x10000) % 256) as u8,
            prg_count: (h.prg_rom_size % 256) as u8,
            prg_ram_count: (((h.active_prg_ram_bytes() as int / 0x2000) % 0x10000) % 256) as u8,
        };
        (CartridgeMapper::Mapper1(m), m.spec_mappings())
    }
}

/// The number of CHR banks of a size, before truncation to 16 bits.
pub open spec fn bank_count_ppu(h: INesHeader, size: int) -> int {
    if !h.is_chr_ram {
        h.chr_rom_size * 0x2000 / size
    } else {
        h.chr_wram_size as int / size
    }
}

/// The cartridge a valid file with a supported mapper loads as.
pub open spec fn loaded_view(data: Seq<u8>, saved: Option<Seq<u8>>) -> CartridgeView {
    let h = decoded_header(header_bytes(data));
    let (mapper, changes) = initial_mapper(h);
    let prg_start = 16 + trainer_len(h);
    let chr_start = prg_start + prg_len(h);
    let start = CartridgeView {
        header: h,
        prg_data: data.subrange(prg_start, chr_start),
        chr_data: if !h.is_chr_ram {
            data.subrange(chr_start, chr_start + chr_len(h))
        } else {
            Seq::new(h.chr_wram_size as nat, |i: int| 0u8)
        },
        prg_ram_data: initial_prg_ram(h, saved),
        cpu_ram_memory_mapping: Seq::new(1, |i: int| unmapped(BankMappingType::CpuRam)),
        cpu_rom_memory_mapping: Seq::new(mapper.spec_rom_windows(), |i: int| unmapped(BankMappingType::CpuRom)),
        ppu_memory_mapping: Seq::new(mapper.spec_ppu_windows(), |i: int| unmapped(BankMappingType::Ppu)),
        mapper,
        registers_start: mapper.spec_registers_start(),
        registers_end: mapper.spec_registers_end(),
        is_empty: false,
    };
    apply_changes(start, changes)
}

/// The bytes of an optional save file.
pub open spec fn saved_view(saved: Option<Vec<u8>>) -> Option<Seq<u8>> {
    match saved {
        Some(v) => Some(v@),
        None => None,
    }
}

/// The message of the error that reading past the end of a file gives.
pub open spec fn short_file_message() -> Seq<char> {
    "failed to fill whole buffer"@
}

/// How loading a file ends: the error it fails with, if any.
pub open spec fn load_error(data: Seq<u8>) -> Option<CartridgeError> {
    if data.len() < 16 {
        Some(CartridgeError::FileError(FileErrorKind::UnexpectedEof, arbitrary()))
    } else if !is_valid_header(header_bytes(data)) {
        Some(CartridgeError::HeaderError)
    } else {
        let h = decoded_header(header_bytes(data));
        let end = 16 + trainer_len(h) + prg_len(h) + chr_len(h);
        if !is_supported_mapper(h.mapper_id) {
            Some(CartridgeError::MapperNotImplemented(h.mapper_id))
        } else if data.len() < end {
            Some(CartridgeError::FileError(FileErrorKind::UnexpectedEof, arbitrary()))
        } else if data.len() > end {
            Some(CartridgeError::TooLargeFile((data.len() - end) as u64))
        } else {
            None
        }
    }
}

/// The extension that `std::path::Path::extension` finds in a path: the part
/// of the file name (the last component) after its final dot. There is none
/// when the path has no file name (it ends in `..`), when the name holds no
/// dot, or when its only dot is its first character (`.nes`); a name that
/// ends in a dot (`a.`) has an empty one.
pub uninterp spec fn path_extension(path: Seq<char>) -> Option<Seq<char>>;

/// Calls `std::path::Path::extension` on `path`. The contract claims that the
/// result, taken as characters, is `path_extension` of the path; how the last
/// component is found and split is left unstated. The extension of a path
/// given as UTF-8 is UTF-8, so the lossy conversion keeps it whole.
#[verifier::external_body]
fn extension_of(path: &str) -> (ext: Option<String>)
    ensures
        path_extension(path@) == (match ext {
            Some(e) => Some(e@),
            None => None::<Seq<char>>,
        }),
{
    match std::path::Path::new(path).extension() {
        Some(e) => Some(e.to_string_lossy().into_owned()),
        None => None,
    }
}

/// What a cartridge file's extension decides: a file without the `nes`
/// extension is refused.
pub open spec fn extension_result(extension: Option<Seq<char>>) -> Result<(), CartridgeError> {
    if extension == Some("nes"@) {
        Ok(())
    } else {
        Err(CartridgeError::ExtensionError)
    }
}

impl Cartridge {
    /// Accepts the extension of a cartridge file only where it is `nes`.
    pub fn check_extension(extension: Option<String>) -> (r: Result<(), CartridgeError>)
        ensures
            r == extension_result(
                match extension {
                    Some(e) => Some(e@),
                    None => None::<Seq<char>>,
                },
            ),
    {
        match extension {
            Some(e) => {
                let nes = String::from_str("nes");
                if e == nes {
                    Ok(())
                } else {
                    Err(CartridgeError::ExtensionError)
                }
            },
            None => Err(CartridgeError::ExtensionError),
        }
    }

    /// Accepts a cartridge file path only where its extension is `nes`.
    pub fn check_file_extension(file_path: &str) -> (r: Result<(), CartridgeError>)
        ensures
            r == extension_result(path_extension(file_path@)),
    {
        let extension = extension_of(file_path);
        Self::check_extension(extension)
    }

    pub closed spec fn wf(&self) -> bool {
        &&& view_wf(self@)
        &&& !self.mapper_register_write_range@.exhausted
    }

    /// Sets up the mapper of a header.
    pub fn get_mapper(header: &INesHeader) -> (r: Result<(CartridgeMapper, Vec<BankMappingChange>), CartridgeError>)
        requires
            mapper_accepts_header(*header),
        ensures
            !is_supported_mapper(header.mapper_id) ==> r == Err::<
                (CartridgeMapper, Vec<BankMappingChange>),
                CartridgeError,
            >(CartridgeError::MapperNotImplemented(header.mapper_id)),
            is_supported_mapper(header.mapper_id) ==> (r matches Ok((mapper, changes)) && (
            mapper, changes@) == initial_mapper(*header) && mapper.spec_ready()),
    {
        let prg_count = header.get_active_prg_rom_size(0x4000);
        let ram_count = header.get_active_prg_ram_size(0x2000);
        assert(prg_count == header.prg_rom_size);
        if header.mapper_id == 0 {
            let mut mapper = Mapper0::new();
            let chr_count = header.get_active_chr_data_size(mapper.ppu_bank_size());
            // should always call init in a new mapper, as it is the only way
            // they share a constructor
            let changes = mapper.init(prg_count, header.is_chr_ram, chr_count, ram_count);
            Ok((CartridgeMapper::Mapper0(mapper), changes))
        } else if header.mapper_id == 1 {
            let mut mapper = Mapper1::new();
            let chr_count = header.get_active_chr_data_size(mapper.ppu_bank_size());
            let changes = mapper.init(prg_count, header.is_chr_ram, chr_count, ram_count);
            Ok((CartridgeMapper::Mapper1(mapper), changes))
        } else if header.mapper_id == 2 {
            let mut mapper = Mapper2::new();
            let chr_count = header.get_active_chr_data_size(0x2000);
            proof {
                crate::bits::lemma_word_bits(prg_count);
                crate::bits::lemma_word_bits(chr_count);
            }
            mapper.init(prg_count as u8, header.is_chr_ram, chr_count as u8, false, ram_count as u8);
            let changes = mapper.bank_mappings();
            Ok((CartridgeMapper::Mapper2(mapper), changes))
        } else if header.mapper_id == 3 {
            let mut mapper = Mapper3::new();
            let chr_count = header.get_active_chr_data_size(0x2000);
            proof {
                crate::bits::lemma_word_bits(prg_count);
                crate::bits::lemma_word_bits(chr_count);
            }
            mapper.init(prg_count as u8, header.is_chr_ram, chr_count as u8, ram_count as u8);
            let changes = mapper.bank_mappings();
            Ok((CartridgeMapper::Mapper3(mapper), changes))
        } else if header.mapper_id == 66 {
            let mut mapper = Mapper66::new();
            let chr_count = header.get_active_chr_data_size(0x2000);
            proof {
                crate::bits::lemma_word_bits(prg_count);
                crate::bits::lemma_word_bits(chr_count);
            }
            mapper.init(prg_count as u8, header.is_chr_ram, chr_count as u8, ram_count as u8);
            let changes = mapper.bank_mappings();
            Ok((CartridgeMapper::Mapper66(mapper), changes))
        } else if header.mapper_id == 4 {
            let mut mapper = Mapper4::new();
            let chr_count = header.get_active_chr_data_size(0x2000);
            proof {
                crate::bits::lemma_word_bits(prg_count);
                crate::bits::lemma_word_bits(chr_count);
                crate::bits::lemma_word_bits(ram_count);
            }
            mapper.init(prg_count as u8, header.is_chr_ram, chr_count as u8, ram_count as u8);
            let changes = mapper.bank_mappings();
            Ok((CartridgeMapper::Mapper4(mapper), changes))
        } else if header.mapper_id == 9 {
            let mut mapper = Mapper9::new();
            let chr_count = header.get_active_chr_data_size(0x2000);
            proof {
                crate::bits::lemma_word_bits(prg_count);
                crate::bits::lemma_word_bits(chr_count);
            }
            mapper.init(prg_count as u8, header.is_chr_ram, chr_count as u8, ram_count as u8);
            let has_ram = ram_count > 0;
            let mut changes = vec![
                (BankMappingType::CpuRam, 0, BankMapping { ty: BankMappingType::CpuRam, to: 0, read: has_ram, write: has_ram }),
            ];
            let mut rest = mapper.bank_mappings();
            changes.append(&mut rest);
            Ok((CartridgeMapper::Mapper9(mapper), changes))
        } else {
            Err(CartridgeError::MapperNotImplemented(header.mapper_id))
        }
    }

    /// Applies mapping changes in order.
    fn apply_bank_mapping(&mut self, bank_mappings: Vec<BankMappingChange>)
        requires
            changes_fit(old(self)@, bank_mappings@),
        ensures
            final(self)@ == apply_changes(old(self)@, bank_mappings@),
            final(self).mapper_register_write_range == old(self).mapper_register_write_range,
            final(self).file_path == old(self).file_path,
    {
        let ghost v0 = self@;
        let mut i: usize = 0;
        while i < bank_mappings.len()
            invariant
                i <= bank_mappings@.len(),
                changes_fit(v0, bank_mappings@),
                self@ == apply_changes(v0, bank_mappings@.take(i as int)),
                self.mapper_register_write_range == old(self).mapper_register_write_range,
                self.file_path == old(self).file_path,
                self@.cpu_ram_memory_mapping.len() == v0.cpu_ram_memory_mapping.len(),
                self@.cpu_rom_memory_mapping.len() == v0.cpu_rom_memory_mapping.len(),
                self@.ppu_memory_mapping.len() == v0.ppu_memory_mapping.len(),
            decreases bank_mappings@.len() - i,
        {
            let (memory_type, index, mapping) = bank_mappings[i];
            let ghost c = bank_mappings@[i as int];
            assert(bank_mappings@.take(i + 1).drop_last() =~= bank_mappings@.take(i as int));
            let index = index as usize;
            match memory_type {
                BankMappingType::CpuRam => self.cpu_ram_memory_mapping.set(index, mapping),
                BankMappingType::CpuRom => self.cpu_rom_memory_mapping.set(index, mapping),
                BankMappingType::Ppu => self.ppu_memory_mapping.set(index, mapping),
            }
            i = i + 1;
        }
        assert(bank_mappings@.take(i as int) =~= bank_mappings@);
    }

    /// The mapping of an address and the index it maps to.
    fn map_address(&self, address: u16, device: Device) -> (r: (BankMapping, usize))
        requires
            self.wf(),
            !self@.is_empty,
            address_in_range(address, device),
        ensures
            r.0 == mapped_address(self@, address, device).0,
            r.1 as int == mapped_address(self@, address, device).1,
    {
        let (bank_mapping, offset_address): (BankMapping, usize) = match device {
            Device::CPU => {
                if 0x6000 <= address && address <= 0x7FFF {
                    let address_offset = address as usize % 0x2000;
                    let bank_size = self.mapper.cpu_ram_bank_size() as usize;
                    let mapping_index = address_offset / bank_size;
                    let offset_to_bank = address_offset % bank_size;
                    assert(mapping_index == 0) by (nonlinear_arith)
                        requires
                            mapping_index == address_offset / bank_size,
                            address_offset < 0x2000,
                            bank_size == 0x2000,
                    ;
                    (self.cpu_ram_memory_mapping[mapping_index], offset_to_bank)
                } else if address >= 0x8000 {
                    let address_offset = address as usize % 0x8000;
                    let bank_size = self.mapper.cpu_rom_bank_size() as usize;
                    let mapping_index = address_offset / bank_size;
                    let offset_to_bank = address_offset % bank_size;
                    assert(bank_size == 0x4000 ==> mapping_index < 2) by (nonlinear_arith)
                        requires
                            mapping_index == address_offset / bank_size,
                            address_offset < 0x8000,
                    ;
                    assert(bank_size == 0x2000 ==> mapping_index < 4) by (nonlinear_arith)
                        requires
                            mapping_index == address_offset / bank_size,
                            address_offset < 0x8000,
                    ;
                    (self.cpu_rom_memory_mapping[mapping_index], offset_to_bank)
                } else {
                    // 0x4200-0x5FFF is not used now
                    (BankMapping { ty: BankMappingType::CpuRam, to: 0, read: false, write: false }, 0)
                }
            },
            Device::PPU => {
                let address_offset = address as usize % 0x2000;
                let bank_size = self.mapper.ppu_bank_size() as usize;
                let mapping_index = address_offset / bank_size;
                let offset_to_bank = address_offset % bank_size;
                assert(bank_size == 0x2000 ==> mapping_index < 1) by (nonlinear_arith)
                    requires
                        mapping_index == address_offset / bank_size,
                        address_offset < 0x2000,
                ;
                assert(bank_size == 0x1000 ==> mapping_index < 2) by (nonlinear_arith)
                    requires
                        mapping_index == address_offset / bank_size,
                        address_offset < 0x2000,
                ;
                assert(bank_size == 0x400 ==> mapping_index < 8) by (nonlinear_arith)
                    requires
                        mapping_index == address_offset / bank_size,
                        address_offset < 0x2000,
                ;
                (self.ppu_memory_mapping[mapping_index], offset_to_bank)
            },
        };
        let (bank_count, bank_size) = match bank_mapping.ty {
            BankMappingType::CpuRam => {
                let size = self.mapper.cpu_ram_bank_size();
                (self.header.get_active_prg_ram_size(size), size)
            },
            BankMappingType::CpuRom => {
                let size = self.mapper.cpu_rom_bank_size();
                (self.header.get_active_prg_rom_size(size), size)
            },
            BankMappingType::Ppu => {
                let size = self.mapper.ppu_bank_size();
                (self.header.get_active_chr_data_size(size), size)
            },
        };
        let bank = if bank_count != 0 {
            bank_mapping.to as usize % bank_count as usize
        } else {
            0
        };
        assert(bank < 0x10000);
        assert(bank * (bank_size as usize) <= 0xFFFF * 0x4000) by (nonlinear_arith)
            requires
                bank < 0x10000,
                bank_size <= 0x4000,
        ;
        let new_address = (bank * bank_size as usize) + offset_address;
        (bank_mapping, new_address)
    }

    /// Loads a cartridge from the bytes of its file and, for a cartridge
    /// with a battery, the bytes of its save file if there is one.
    pub fn from_bytes(file_path: &str, data: &[u8], saved_prg_ram: Option<Vec<u8>>) -> (r: Result<
        Self,
        CartridgeError,
    >)
        requires
            data@.len() >= 16 && is_valid_header(header_bytes(data@)) ==> mapper_accepts_header(
                decoded_header(header_bytes(data@)),
            ),
        ensures
            r is Err <==> load_error(data@) is Some,
            r matches Err(e) ==> (match load_error(data@).unwrap() {
                CartridgeError::FileError(_, _) => e matches CartridgeError::FileError(kind, m)
                    && kind == FileErrorKind::UnexpectedEof && m@ == short_file_message(),
                expected => e == expected,
            }),
            r matches Ok(c) ==> c@ == loaded_view(data@, saved_view(saved_prg_ram)) && c.wf()
                && c.spec_file_path() == file_path@,
    {
        if data.len() < 16 {
            return Err(CartridgeError::FileError(FileErrorKind::UnexpectedEof, String::from_str("failed to fill whole buffer")));
        }
        let header_data: [u8; 16] = [
            data[0], data[1], data[2], data[3], data[4], data[5], data[6], data[7],
            data[8], data[9], data[10], data[11], data[12], data[13], data[14], data[15],
        ];
        proof {
            lemma_header_bytes(data@, header_data);
        }
        // decode header
        let header = match INesHeader::from_bytes(header_data) {
            Ok(header) => header,
            Err(e) => return Err(e),
        };
        let sram_data = if header.has_prg_ram_battery {
            // the old save data, when there is enough of it
            match saved_prg_ram {
                Some(saved) => {
                    if saved.len() >= header.prg_sram_size as usize {
                        copy_bytes(saved.as_slice(), 0, header.prg_sram_size as usize)
                    } else {
                        zeros(header.prg_sram_size as usize)
                    }
                },
                None => zeros(header.prg_sram_size as usize),
            }
        } else {
            zeros(header.prg_wram_size as usize)
        };
        // initialize the mapper first, so that an unsupported one is reported
        let (mapper, initial_bank_mappings) = match Self::get_mapper(&header) {
            Ok(result) => result,
            Err(e) => return Err(e),
        };
        let mut position: usize = 16;
        // read training data if present
        let trainer_data = if header.contain_trainer_data {
            if data.len() - position < 512 {
                return Err(CartridgeError::FileError(FileErrorKind::UnexpectedEof, String::from_str("failed to fill whole buffer")));
            }
            let trainer = copy_bytes(data, position, 512);
            position = position + 512;
            trainer
        } else {
            Vec::new()
        };
        // read PRG data
        let prg_size = header.prg_rom_size as usize * 16 * 1024;
        if data.len() - position < prg_size {
            return Err(CartridgeError::FileError(FileErrorKind::UnexpectedEof, String::from_str("failed to fill whole buffer")));
        }
        let prg_data = copy_bytes(data, position, prg_size);
        position = position + prg_size;
        // read CHR data
        let chr_data = if !header.is_chr_ram {
            let chr_size = header.chr_rom_size as usize * 8 * 1024;
            if data.len() - position < chr_size {
                return Err(CartridgeError::FileError(FileErrorKind::UnexpectedEof, String::from_str("failed to fill whole buffer")));
            }
            let chr = copy_bytes(data, position, chr_size);
            position = position + chr_size;
            chr
        } else {
            // there is no way of knowing if we are using CHR WRAM or SRAM
            zeros(header.chr_wram_size as usize)
        };
        // there are missing parts
        if position != data.len() {
            return Err(CartridgeError::TooLargeFile((data.len() - position) as u64));
        }
        // these are all overridden in the call to `apply_bank_mapping`
        let ram_bank_size = mapper.cpu_ram_bank_size();
        let rom_bank_size = mapper.cpu_rom_bank_size();
        let ppu_bank_size = mapper.ppu_bank_size();
        let ram_windows = 0x2000 / ram_bank_size as usize;
        let rom_windows = 0x8000 / rom_bank_size as usize;
        let ppu_windows = 0x2000 / ppu_bank_size as usize;
        assert(ram_windows == 1) by (nonlinear_arith)
            requires
                ram_windows == 0x2000usize / (ram_bank_size as usize),
                ram_bank_size == 0x2000,
        ;
        assert(rom_bank_size == 0x4000 ==> rom_windows == 2) by (nonlinear_arith)
            requires
                rom_windows == 0x8000usize / (rom_bank_size as usize),
        ;
        assert(rom_bank_size == 0x2000 ==> rom_windows == 4) by (nonlinear_arith)
            requires
                rom_windows == 0x8000usize / (rom_bank_size as usize),
        ;
        assert(ppu_bank_size == 0x400 ==> ppu_windows == 8) by (nonlinear_arith)
            requires
                ppu_windows == 0x2000usize / (ppu_bank_size as usize),
        ;
        assert(ppu_bank_size == 0x2000 ==> ppu_windows == 1) by (nonlinear_arith)
            requires
                ppu_windows == 0x2000usize / (ppu_bank_size as usize),
        ;
        assert(ppu_bank_size == 0x1000 ==> ppu_windows == 2) by (nonlinear_arith)
            requires
                ppu_windows == 0x2000usize / (ppu_bank_size as usize),
        ;
        let cpu_ram_memory_mapping = mapping_table(
            BankMapping { ty: BankMappingType::CpuRam, to: 0, read: false, write: false },
            ram_windows,
        );
        let cpu_rom_memory_mapping = mapping_table(
            BankMapping { ty: BankMappingType::CpuRom, to: 0, read: false, write: false },
            rom_windows,
        );
        let ppu_memory_mapping = mapping_table(
            BankMapping { ty: BankMappingType::Ppu, to: 0, read: false, write: false },
            ppu_windows,
        );
        let mapper_register_write_range = mapper.registers_memory_range();
        let mut cartridge = Self {
            file_path: String::from_str(file_path),
            header,
            trainer_data,
            prg_data,
            chr_data,
            prg_ram_data: sram_data,
            cpu_ram_memory_mapping,
            cpu_rom_memory_mapping,
            ppu_memory_mapping,
            mapper_register_write_range,
            mapper,
            is_empty: false,
        };
        let ghost start = cartridge@;
        proof {
            let h = decoded_header(header_bytes(data@));
            assert(h == header);
            let spec_start = CartridgeView {
                header: h,
                prg_data: data@.subrange(16 + trainer_len(h), 16 + trainer_len(h) + prg_len(h)),
                chr_data: if !h.is_chr_ram {
                    data@.subrange(
                        16 + trainer_len(h) + prg_len(h),
                        16 + trainer_len(h) + prg_len(h) + chr_len(h),
                    )
                } else {
                    Seq::new(h.chr_wram_size as nat, |i: int| 0u8)
                },
                prg_ram_data: initial_prg_ram(h, saved_view(saved_prg_ram)),
                cpu_ram_memory_mapping: Seq::new(1, |i: int| unmapped(BankMappingType::CpuRam)),
                cpu_rom_memory_mapping: Seq::new(mapper.spec_rom_windows(), |i: int| unmapped(BankMappingType::CpuRom)),
                ppu_memory_mapping: Seq::new(
                    mapper.spec_ppu_windows(),
                    |i: int| unmapped(BankMappingType::Ppu),
                ),
                mapper,
                registers_start: mapper.spec_registers_start(),
                registers_end: mapper.spec_registers_end(),
                is_empty: false,
            };
            assert(start.prg_data =~= spec_start.prg_data);
            assert(start.chr_data =~= spec_start.chr_data);
            assert(start.prg_ram_data =~= spec_start.prg_ram_data);
            assert(start.cpu_ram_memory_mapping =~= spec_start.cpu_ram_memory_mapping);
            assert(start.cpu_rom_memory_mapping =~= spec_start.cpu_rom_memory_mapping);
            assert(start.ppu_memory_mapping =~= spec_start.ppu_memory_mapping);
            assert(start == spec_start);
            lemma_initial_changes_fit(start);
        }
        cartridge.apply_bank_mapping(initial_bank_mappings);
        proof {
            lemma_changes_keep_lengths(start, initial_bank_mappings@);
        }
        Ok(cartridge)
    }

    /// A cartridge with no file: reads give a NOP to the CPU and 0 to the
    /// PPU, writes are ignored.
    pub fn new_without_file() -> (c: Self)
        ensures
            c@.is_empty,
            c@.header == decoded_header(crate::ines_header::empty_header_bytes()),
            c.wf(),
    {
        Self {
            // should not be used
            file_path: String::new(),
            header: INesHeader::empty(),
            trainer_data: Vec::new(),
            prg_data: Vec::new(),
            chr_data: Vec::new(),
            prg_ram_data: Vec::new(),
            cpu_ram_memory_mapping: Vec::new(),
            cpu_rom_memory_mapping: Vec::new(),
            ppu_memory_mapping: Vec::new(),
            mapper: CartridgeMapper::Mapper0(Mapper0::new()),
            mapper_register_write_range: 2..=1,
            is_empty: true,
        }
    }

    pub fn is_empty(&self) -> (r: bool)
        ensures
            r == self@.is_empty,
    {
        self.is_empty
    }

    /// The PRG ROM.
    pub fn prg_data(&self) -> (data: &[u8])
        ensures
            data@ == self@.prg_data,
    {
        self.prg_data.as_slice()
    }

    /// The CHR memory.
    pub fn chr_data(&self) -> (data: &[u8])
        ensures
            data@ == self@.chr_data,
    {
        self.chr_data.as_slice()
    }

    /// The PRG RAM, which a battery keeps in the save file.
    pub fn prg_ram_data(&self) -> (data: &[u8])
        ensures
            data@ == self@.prg_ram_data,
    {
        self.prg_ram_data.as_slice()
    }

    /// The decoded header.
    pub fn header(&self) -> (header: INesHeader)
        ensures
            header == self@.header,
    {
        self.header
    }

    /// The mapper asks for the CPU to look at its IRQ line (only MMC3,
    /// mapper 4, has one).
    pub fn is_irq_change_requested(&self) -> (r: bool)
        ensures
            r == view_irq_change_requested(self@),
    {
        if self.is_empty {
            return false;
        }
        self.mapper.is_irq_change_requested()
    }

    /// The level of the mapper's IRQ line.
    pub fn irq_pin_state(&self) -> (r: bool)
        ensures
            r == self@.mapper.spec_irq_pin(),
    {
        self.mapper.irq_pin_state()
    }

    /// The CPU has seen the mapper's IRQ line: the line and its change
    /// request are cleared; nothing else changes.
    pub fn clear_irq_request_pin(&mut self)
        ensures
            final(self)@ == (CartridgeView { mapper: old(self)@.mapper.spec_irq_cleared(), ..old(self)@ }),
            final(self).wf() == old(self).wf(),
            final(self).spec_file_path() == old(self).spec_file_path(),
    {
        self.mapper.clear_irq_request_pin();
    }

    /// The path the cartridge was loaded from.
    pub closed spec fn spec_file_path(&self) -> Seq<char> {
        self.file_path@
    }

    /// The path the cartridge was loaded from.
    pub fn file_path(&self) -> (path: &str)
        ensures
            path@ == self.spec_file_path(),
    {
        self.file_path.as_str()
    }
}

impl Bus for Cartridge {
    open spec fn can_read(&self, address: u16, device: Device) -> bool {
        self.wf() && view_can_read(self@, address, device)
    }

    open spec fn can_write(&self, address: u16, device: Device) -> bool {
        self.wf() && view_can_write(self@, address, device)
    }

    fn read(&mut self, address: u16, device: Device) -> (data: u8)
        ensures
            final(self)@ == view_after_read(old(self)@, address, device),
            data == view_read(final(self)@, address, device),
            final(self).wf(),
            final(self).spec_file_path() == old(self).spec_file_path(),
    {
        if self.is_empty {
            return match device {
                Device::CPU => 0xEA,  // NOP instruction just in case, this
                Device::PPU => 0x00,  // should not be called
            };
        }
        if device == Device::PPU {
            // the mapper sees the PPU's reads
            proof {
                lemma_read_changes_fit(self@, address);
            }
            let changes = self.mapper.after_ppu_read(address);
            let ghost mid = self@;
            self.apply_bank_mapping(changes);
            proof {
                lemma_changes_keep_lengths(mid, changes@);
            }
        }
        let (bank_mapping, new_address) = self.map_address(address, device);
        if bank_mapping.read {
            match bank_mapping.ty {
                BankMappingType::CpuRam => self.prg_ram_data[new_address],
                BankMappingType::CpuRom => self.prg_data[new_address],
                BankMappingType::Ppu => self.chr_data[new_address],
            }
        } else {
            0
        }
    }

    fn write(&mut self, address: u16, data: u8, device: Device)
        ensures
            final(self)@ == view_write(old(self)@, address, data, device),
            final(self).wf(),
    {
        if self.is_empty {
            return;
        }
        if self.mapper_register_write_range.contains(&address) {
            proof {
                lemma_register_changes_fit(self@, address, data);
            }
            let mapping_result = self.mapper.write_register(address, data);
            let ghost mid = self@;
            self.apply_bank_mapping(mapping_result);
            proof {
                lemma_changes_keep_lengths(mid, mapping_result@);
            }
        } else {
            let (bank_mapping, new_address) = self.map_address(address, device);
            if bank_mapping.write {
                match bank_mapping.ty {
                    BankMappingType::CpuRam => self.prg_ram_data.set(new_address, data),
                    BankMappingType::CpuRom => self.prg_data.set(new_address, data),
                    BankMappingType::Ppu => self.chr_data.set(new_address, data),
                }
            }
            if device == Device::PPU {
                // the mapper sees the PPU's writes
                self.mapper.after_ppu_write(address);
            }
            assert(view_wf(self@));
        }
    }
}

/// How long an iNES file must be. For a file with the magic bytes, an iNES
/// header (bits 2-3 of byte 7 clear, bytes 12-15 zero, byte 9 at most 1)
/// and a supported mapper number, it loads exactly when it holds the 16
/// header bytes, 512 trainer bytes when bit 2 of byte 6 is set, byte 4
/// times 16 KiB of PRG ROM and byte 5 times 8 KiB of CHR ROM, nothing less
/// and nothing more; a longer file is refused as too large by the number of
/// extra bytes.
pub proof fn lemma_file_size_rule(data: Seq<u8>, header: [u8; 16])
    requires
        data.len() >= 16,
        forall|i: int| 0 <= i < 16 ==> header@[i] == data[i],
        data[0] == 0x4E && data[1] == 0x45 && data[2] == 0x53 && data[3] == 0x1A,
        data[7] % 16 < 4,
        data[9] <= 1,
        data[12] == 0 && data[13] == 0 && data[14] == 0 && data[15] == 0,
        is_supported_mapper((data[7] / 16 * 16 + data[6] / 16) as u16),
    ensures
        ({
            let expected = 16 + (if data[6] & 4 != 0 { 512int } else { 0 }) + data[4] * 16384 + data[5]
                * 8192;
            &&& load_error(data) is None <==> data.len() == expected
            &&& data.len() > expected ==> load_error(data) == Some(
                CartridgeError::TooLargeFile((data.len() - expected) as u64),
            )
        }),
{
    lemma_header_bytes(data, header);
    crate::ines_header::lemma_ines_byte9(header);
    crate::bits::lemma_byte_bits_low(data[6]);
    crate::bits::lemma_low_bits(data[6]);
}

/// The first 16 bytes of a file are its header.
proof fn lemma_header_bytes(data: Seq<u8>, header: [u8; 16])
    requires
        data.len() >= 16,
        forall|i: int| 0 <= i < 16 ==> header@[i] == data[i],
    ensures
        header_bytes(data) == header,
{
    assert(header@ =~= data.subrange(0, 16));
    let chosen = header_bytes(data);
    assert(chosen@ =~= header@);
    broadcast use vstd::array::group_array_axioms;
    assert(chosen =~= header);
}

/// The first mappings of a mapper fit the mapping tables of a newly loaded
/// cartridge.
proof fn lemma_initial_changes_fit(v: CartridgeView)
    requires
        is_supported_mapper(v.header.mapper_id),
        v.mapper == initial_mapper(v.header).0,
        v.cpu_ram_memory_mapping.len() == 1,
        v.cpu_rom_memory_mapping.len() == v.mapper.spec_rom_windows(),
        v.ppu_memory_mapping.len() == v.mapper.spec_ppu_windows(),
    ensures
        changes_fit(v, initial_mapper(v.header).1),
{
    let changes = initial_mapper(v.header).1;
    if v.header.mapper_id == 0 {
        assert(changes.len() == 4);
        assert(changes[0].1 == 0 && changes[1].1 == 0 && changes[2].1 == 1 && changes[3].1 == 0);
        assert(changes[0].0 == BankMappingType::CpuRam && changes[3].0 == BankMappingType::Ppu);
    } else if v.header.mapper_id == 1 {
        assert(changes.len() == 5);
        assert(changes[0].1 == 0 && changes[1].1 == 0 && changes[2].1 == 1 && changes[3].1 == 0
            && changes[4].1 == 1);
    } else if v.header.mapper_id == 4 {
        if let CartridgeMapper::Mapper4(m) = v.mapper {
            lemma_mapper4_changes(m);
        }
    } else if v.header.mapper_id == 9 {
        if let CartridgeMapper::Mapper9(m) = v.mapper {
            lemma_mapper9_changes(m);
            assert(changes.len() == 7);
            assert(changes[0].0 == BankMappingType::CpuRam && changes[0].1 == 0);
            assert forall|i: int| 1 <= i < 7 implies (#[trigger] changes[i]) == m.spec_bank_mappings()[i - 1] by {}
        }
    } else {
        assert(changes.len() == 4);
        assert(changes[0].1 == 0 && changes[1].1 == 0 && changes[2].1 == 1 && changes[3].1 == 0);
        assert(changes[0].0 == BankMappingType::CpuRam && changes[3].0 == BankMappingType::Ppu);
    }
}

/// The mapping changes that a PPU read reports refer to existing windows.
proof fn lemma_read_changes_fit(v: CartridgeView, address: u16)
    requires
        view_wf(v),
        !v.is_empty,
    ensures
        changes_fit(
            CartridgeView { mapper: v.mapper.spec_after_ppu_read(address).0, ..v },
            v.mapper.spec_after_ppu_read(address).1,
        ),
{
    let changes = v.mapper.spec_after_ppu_read(address).1;
    match v.mapper {
        CartridgeMapper::Mapper9(m) => {
            lemma_mapper9_changes(m.spec_after_ppu_access(address));
        },
        _ => {},
    }
}

/// The banks that MMC2 reports: its four PRG ROM windows and two CHR windows.
proof fn lemma_mapper9_changes(m: Mapper9)
    ensures
        m.spec_bank_mappings().len() == 6,
        forall|i: int| 0 <= i < 4 ==> (#[trigger] m.spec_bank_mappings()[i]).0 == BankMappingType::CpuRom
            && m.spec_bank_mappings()[i].1 == i,
        forall|i: int| 4 <= i < 6 ==> (#[trigger] m.spec_bank_mappings()[i]).0 == BankMappingType::Ppu
            && m.spec_bank_mappings()[i].1 == i - 4,
{
}

/// The banks that MMC3 reports: its PRG RAM window, four PRG ROM windows
/// and eight CHR windows.
proof fn lemma_mapper4_changes(m: Mapper4)
    ensures
        m.spec_bank_mappings().len() == 13,
        m.spec_bank_mappings()[0].0 == BankMappingType::CpuRam && m.spec_bank_mappings()[0].1 == 0,
        forall|i: int| 1 <= i < 5 ==> (#[trigger] m.spec_bank_mappings()[i]).0 == BankMappingType::CpuRom
            && m.spec_bank_mappings()[i].1 == i - 1,
        forall|i: int| 5 <= i < 13 ==> (#[trigger] m.spec_bank_mappings()[i]).0 == BankMappingType::Ppu
            && m.spec_bank_mappings()[i].1 == i - 5,
{
}

/// The mapping changes that a register write reports refer to existing
/// windows.
proof fn lemma_register_changes_fit(v: CartridgeView, address: u16, data: u8)
    requires
        view_wf(v),
        !v.is_empty,
    ensures
        changes_fit(
            CartridgeView { mapper: v.mapper.spec_write_register(address, data).0, ..v },
            v.mapper.spec_write_register(address, data).1,
        ),
{
    let changes = v.mapper.spec_write_register(address, data).1;
    match v.mapper {
        CartridgeMapper::Mapper0(m) => {},
        CartridgeMapper::Mapper1(m) => {
            if m.spec_write_completes(data) {
                let ms = m.spec_write(address, data).spec_mappings();
                assert(changes == ms);
                assert(ms.len() == 5);
                assert(ms[0].1 == 0 && ms[1].1 == 0 && ms[2].1 == 1 && ms[3].1 == 0 && ms[4].1 == 1);
            }
        },
        CartridgeMapper::Mapper4(m) => {
            lemma_mapper4_changes(m.spec_register_write(address, data));
        },
        CartridgeMapper::Mapper9(m) => {
            lemma_mapper9_changes(m.spec_register_write(address, data));
        },
        _ => {
            assert(changes.len() == 4);
            assert(changes[0].1 == 0 && changes[1].1 == 0 && changes[2].1 == 1 && changes[3].1 == 0);
            assert(changes[0].0 == BankMappingType::CpuRam && changes[3].0 == BankMappingType::Ppu);
        },
    }
}

/// Whether a cartridge is empty never changes: writes keep it. An empty
/// cartridge ignores every write and reads NOP (0xEA) for the CPU and 0 for
/// the PPU at every address.
pub proof fn lemma_empty_is_kept(v: CartridgeView, address: u16, data: u8, device: Device)
    requires
        view_wf(v),
    ensures
        view_write(v, address, data, device).is_empty == v.is_empty,
        v.is_empty ==> view_write(v, address, data, device) == v,
        v.is_empty ==> view_read(v, address, Device::CPU) == 0xEA,
        v.is_empty ==> view_read(v, address, Device::PPU) == 0,
{
    if !v.is_empty && is_register(v, address) {
        lemma_register_changes_fit(v, address, data);
        let (mapper, changes) = v.mapper.spec_write_register(address, data);
        lemma_changes_keep_lengths(CartridgeView { mapper, ..v }, changes);
    }
}

/// A read gives back what a write wrote: at an address that is not a
/// mapper register and whose mapping allows reading and writing inside the
/// cartridge's memory, the written cartridge holds `data` there, and a CPU
/// read (which leaves the mapper as it is) returns it.
pub proof fn lemma_write_then_read(v: CartridgeView, address: u16, data: u8, device: Device)
    requires
        view_wf(v),
        !v.is_empty,
        address_in_range(address, device),
        !is_register(v, address),
        window(v, address, device).0.read,
        window(v, address, device).0.write,
        maps_inside(v, address, device),
    ensures
        view_read(view_write(v, address, data, device), address, device) == data,
        device == Device::CPU ==> view_read(
            view_after_read(view_write(v, address, data, device), address, device),
            address,
            device,
        ) == data,
{
    let w = view_write(v, address, data, device);
    let (mapping, index) = mapped_address(v, address, device);
    assert(window(w, address, device) == window(v, address, device));
    assert(bank_layout(w, mapping.ty) == bank_layout(v, mapping.ty));
    assert(mapped_address(w, address, device) == mapped_address(v, address, device));
    assert(data_of(w, mapping.ty) == data_of(v, mapping.ty).update(index, data));
}

/// Applying mapping changes keeps the sizes of the mapping tables and
/// everything that is not a mapping table.
proof fn lemma_changes_keep_lengths(v: CartridgeView, changes: Seq<BankMappingChange>)
    requires
        changes_fit(v, changes),
    ensures
        apply_changes(v, changes).cpu_ram_memory_mapping.len() == v.cpu_ram_memory_mapping.len(),
        apply_changes(v, changes).cpu_rom_memory_mapping.len() == v.cpu_rom_memory_mapping.len(),
        apply_changes(v, changes).ppu_memory_mapping.len() == v.ppu_memory_mapping.len(),
        apply_changes(v, changes).mapper == v.mapper,
        apply_changes(v, changes).header == v.header,
        apply_changes(v, changes).prg_data == v.prg_data,
        apply_changes(v, changes).chr_data == v.chr_data,
        apply_changes(v, changes).prg_ram_data == v.prg_ram_data,
        apply_changes(v, changes).registers_start == v.registers_start,
        apply_changes(v, changes).registers_end == v.registers_end,
        apply_changes(v, changes).is_empty == v.is_empty,
    decreases changes.len(),
{
    if changes.len() > 0 {
        assert forall|i: int| 0 <= i < changes.drop_last().len() implies #[trigger] changes.drop_last()[i] == changes[i] by {}
        assert(changes_fit(v, changes.drop_last()));
        lemma_changes_keep_lengths(v, changes.drop_last());
        assert(changes[changes.len() - 1] == changes.last());
        let prev = apply_changes(v, changes.drop_last());
        let (ty, index, mapping) = changes.last();
        assert(apply_changes(v, changes) == apply_change(prev, changes.last()));
        match ty {
            BankMappingType::CpuRam => {},
            BankMappingType::CpuRom => {},
            BankMappingType::Ppu => {},
        }
    }
}

impl MirroringProvider for Cartridge {
    fn mirroring_mode(&self) -> (mode: MirroringMode)
        ensures
            self.wf() ==> mode == view_mirroring(self@),
    {
        if self.is_empty {
            //anything
            return MirroringMode::Vertical;
        }
        if self.header.use_hardwaired_4_screen_mirroring {
            MirroringMode::FourScreen
        } else {
            if self.mapper.is_hardwired_mirrored() {
                if self.header.hardwired_mirroring_vertical {
                    MirroringMode::Vertical
                } else {
                    MirroringMode::Horizontal
                }
            } else {
                self.mapper.nametable_mirroring()
            }
        }
    }
}

} // verus!
