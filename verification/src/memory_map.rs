//! Where the CPU's and the PPU's accesses go: the address maps of the two
//! buses of the console.

use vstd::prelude::*;

verus! {

/// The device a CPU access reaches, and the address it is handed.
#[derive(Clone, Copy, PartialEq, Eq, Debug, Structural)]
pub enum CpuBusTarget {
    /// the 2 KiB of internal RAM, at an index
    Ram(u16),
    /// a PPU register (0x2000-0x2007), or OAM DMA (0x4014)
    Ppu(u16),
    /// an APU register
    Apu(u16),
    /// the controller port
    Controller(u16),
    /// the unused CPU test mode registers
    TestMode,
    /// the cartridge
    Cartridge(u16),
}

/// The device a PPU access reaches, and the address it is handed.
#[derive(Clone, Copy, PartialEq, Eq, Debug, Structural)]
pub enum PpuBusTarget {
    /// the pattern tables on the cartridge
    Cartridge(u16),
    /// the nametables
    VRam(u16),
    /// the palettes
    Palette(u16),
}

/// The CPU's address map: RAM mirrored every 2 KiB below 0x2000, the eight
/// PPU registers mirrored up to 0x3FFF, the APU and I/O registers at
/// 0x4000-0x4017, test mode registers at 0x4018-0x401F, and the cartridge
/// from 0x4020 up.
pub open spec fn cpu_target(address: u16) -> CpuBusTarget {
    if address <= 0x1FFF {
        CpuBusTarget::Ram(address & 0x7FF)
    } else if address <= 0x3FFF {
        CpuBusTarget::Ppu(0x2000 | (address & 0x7))
    } else if address <= 0x4013 || address == 0x4015 || address == 0x4017 {
        CpuBusTarget::Apu(address)
    } else if address == 0x4014 {
        CpuBusTarget::Ppu(address)
    } else if address == 0x4016 {
        CpuBusTarget::Controller(address)
    } else if address <= 0x401F {
        CpuBusTarget::TestMode
    } else {
        CpuBusTarget::Cartridge(address)
    }
}

/// The PPU's address map, mirrored every 16 KiB: pattern tables below
/// 0x2000, nametables (mirrored down to 0x2000-0x2FFF) up to 0x3EFF, and
/// the palettes at 0x3F00-0x3FFF.
pub open spec fn ppu_target(address: u16) -> PpuBusTarget {
    let a = address & 0x3FFF;
    if a <= 0x1FFF {
        PpuBusTarget::Cartridge(a)
    } else if a <= 0x3EFF {
        PpuBusTarget::VRam(a & 0x2FFF)
    } else {
        PpuBusTarget::Palette(a)
    }
}

pub fn cpu_bus_target(address: u16) -> (target: CpuBusTarget)
    ensures
        target == cpu_target(address),
{
    match address {
        0x0000..=0x1FFF => CpuBusTarget::Ram(address & 0x7FF),
        0x2000..=0x3FFF => CpuBusTarget::Ppu(0x2000 | (address & 0x7)),
        0x4000..=0x4013 => CpuBusTarget::Apu(address),
        0x4014 => CpuBusTarget::Ppu(address),
        0x4015 => CpuBusTarget::Apu(address),
        0x4016 => CpuBusTarget::Controller(address),
        0x4017 => CpuBusTarget::Apu(address),
        0x4018..=0x401F => {
            // unused CPU test mode registers
            CpuBusTarget::TestMode
        },
        _ => CpuBusTarget::Cartridge(address),
    }
}

pub fn ppu_bus_target(address: u16) -> (target: PpuBusTarget)
    ensures
        target == ppu_target(address),
    decreases address,
{
    assert((address < 0x4000 ==> address & 0x3FFF == address) && (address & 0x3FFF) & 0x3FFF == address
        & 0x3FFF && address & 0x3FFF <= 0x3FFF) by (bit_vector);
    match address {
        0x0000..=0x1FFF => PpuBusTarget::Cartridge(address),
        0x2000..=0x3EFF => PpuBusTarget::VRam(address & 0x2FFF),
        0x3F00..=0x3FFF => PpuBusTarget::Palette(address),
        // mirror
        _ => {
            let mirrored = address & 0x3FFF;
            ppu_bus_target(mirrored)
        },
    }
}

/// The internal RAM and the PPU registers are mirrored: an address and the
/// same address 2 KiB (RAM) or 8 bytes (PPU registers) higher reach the same
/// place.
pub proof fn lemma_cpu_mirrors(address: u16)
    ensures
        address < 0x1800 ==> cpu_target(address) == cpu_target((address + 0x800) as u16),
        0x2000 <= address < 0x3FF8 ==> cpu_target(address) == cpu_target((address + 8) as u16),
{
    assert((address < 0x1800 ==> address & 0x7FF == ((address + 0x800) as u16) & 0x7FF) && (address
        < 0x3FF8 ==> address & 0x7 == ((address + 8) as u16) & 0x7)) by (bit_vector);
}

/// The two address maps in numbers. On the CPU bus, an address below
/// 0x2000 reaches RAM index address mod 0x800, one in 0x2000-0x3FFF reaches
/// PPU register 0x2000 + address mod 8, 0x4014 (OAM DMA) goes to the PPU,
/// 0x4016 to the controller, the other addresses up to 0x4017 but for them
/// to the APU, 0x4018-0x401F to nothing and the rest to the cartridge. On
/// the PPU bus, with a the address mod 0x4000: below 0x2000 the cartridge
/// sees a; up to 0x3EFF the nametables see a with 0x3000-0x3EFF folded
/// down by 0x1000; from 0x3F00 the palettes see a.
pub proof fn lemma_address_maps(address: u16)
    ensures
        address < 0x2000 ==> cpu_target(address) == CpuBusTarget::Ram((address % 0x800) as u16),
        0x2000 <= address < 0x4000 ==> cpu_target(address) == CpuBusTarget::Ppu(
            (0x2000 + address % 8) as u16,
        ),
        cpu_target(0x4014) == CpuBusTarget::Ppu(0x4014),
        cpu_target(0x4016) == CpuBusTarget::Controller(0x4016),
        (0x4000 <= address <= 0x4017 && address != 0x4014 && address != 0x4016) ==> cpu_target(address)
            == CpuBusTarget::Apu(address),
        0x4018 <= address <= 0x401F ==> cpu_target(address) == CpuBusTarget::TestMode,
        0x4020 <= address ==> cpu_target(address) == CpuBusTarget::Cartridge(address),
        ({
            let a = address % 0x4000;
            &&& a < 0x2000 ==> ppu_target(address) == PpuBusTarget::Cartridge(a as u16)
            &&& 0x2000 <= a < 0x3000 ==> ppu_target(address) == PpuBusTarget::VRam(a as u16)
            &&& 0x3000 <= a < 0x3F00 ==> ppu_target(address) == PpuBusTarget::VRam((a - 0x1000) as u16)
            &&& 0x3F00 <= a ==> ppu_target(address) == PpuBusTarget::Palette(a as u16)
        }),
{
    assert((address & 0x7FF) as int == address % 0x800 && (0x2000 | (address & 0x7)) as int == 0x2000
        + address % 8 && (address & 0x3FFF) as int == address % 0x4000 && ((address & 0x3FFF) < 0x3000
        ==> ((address & 0x3FFF) & 0x2FFF) == (address & 0x3FFF) || (address & 0x3FFF) < 0x2000) && ((
        address & 0x3FFF) >= 0x3000 ==> ((address & 0x3FFF) & 0x2FFF) as int == (address & 0x3FFF) as int
        - 0x1000)) by (bit_vector);
}

} // verus!
