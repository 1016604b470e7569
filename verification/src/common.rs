//! What the emulated devices share: which device is accessing a bus, the
//! bus interface itself, nametable mirroring, and the PPU/CPU connection.

use vstd::prelude::*;

verus! {

/// The device that performs a bus access.
#[derive(PartialEq, Eq, Clone, Copy, Debug, Structural)]
pub enum Device {
    CPU,
    PPU,
}

/// How the PPU's nametables are mirrored.
#[derive(PartialEq, Eq, Clone, Copy, Debug, Structural)]
pub enum MirroringMode {
    Vertical,
    Horizontal,
    FourScreen,
    SingleScreenLowBank,
    SingleScreenHighBank,
}

/// A memory-mapped device. Reads and writes are only made where the device
/// answers them (`can_read`, `can_write`); what they return or change is
/// stated by each implementation.
pub trait Bus {
    spec fn can_read(&self, address: u16, device: Device) -> bool;

    spec fn can_write(&self, address: u16, device: Device) -> bool;

    /// A read; a device may change on being read (a mapper that watches
    /// the PPU's fetches).
    fn read(&mut self, address: u16, device: Device) -> (data: u8)
        requires
            old(self).can_read(address, device),
    ;

    fn write(&mut self, address: u16, data: u8, device: Device)
        requires
            old(self).can_write(address, device),
    ;
}

/// Something that decides the nametable mirroring.
pub trait MirroringProvider {
    fn mirroring_mode(&self) -> MirroringMode;
}

/// The lines between the PPU and the CPU: the NMI pin and OAM DMA.
pub trait PPUCPUConnection {
    fn is_nmi_pin_set(&self) -> bool;

    fn clear_nmi_pin(&mut self);

    fn is_dma_request(&self) -> bool;

    fn clear_dma_request(&mut self);

    fn dma_address(&mut self) -> u8;

    fn send_oam_data(&mut self, address: u8, data: u8);
}

} // verus!
