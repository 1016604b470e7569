use plastic::common::{Device, MirroringMode};
use plastic::mapper::MappingResult;
use plastic::mappers::mapper2::Mapper2;
use plastic::mappers::mapper3::Mapper3;
use plastic::mappers::mapper4::Mapper4;
use plastic::mappers::mapper66::Mapper66;
use plastic::mappers::mapper9::Mapper9;

#[test]
fn mapper2_switches_low_bank() {
    let mut mapper = Mapper2::new();
    mapper.init(8, true, 0, false, 0);
    assert_eq!(mapper.map_read(0x8005, Device::CPU), (true, 5));
    assert_eq!(mapper.map_read(0xC005, Device::CPU), (true, 7 * 0x4000 + 5));
    assert_eq!(mapper.map_write(0x8000, 3, Device::CPU), (false, 0));
    assert_eq!(mapper.map_read(0x8005, Device::CPU), (true, 3 * 0x4000 + 5));
    assert_eq!(mapper.map_read(0x6000, Device::CPU), (false, 0));
    assert_eq!(mapper.map_write(0x0010, 1, Device::PPU), (true, 0x10));
    assert!(mapper.is_hardwired_mirrored());
}

#[test]
fn mapper3_switches_chr_bank() {
    let mut mapper = Mapper3::new();
    mapper.init(1, false, 4, 0);
    // 16 KiB of PRG ROM is mirrored
    assert_eq!(mapper.map_read(0xC123, Device::CPU), MappingResult::Allowed(0x0123));
    assert_eq!(mapper.map_write(0x8000, 0xFE, Device::CPU), MappingResult::Denied);
    // only two bits with four banks
    assert_eq!(mapper.chr_bank, 2);
    assert_eq!(mapper.map_read(0x0004, Device::PPU), MappingResult::Allowed(2 * 0x2000 + 4));
    assert_eq!(mapper.map_write(0x0004, 0, Device::PPU), MappingResult::Denied);
}

#[test]
fn mapper66_selects_both_banks() {
    let mut mapper = Mapper66::new();
    mapper.init(4, false, 4, 0);
    assert_eq!(mapper.prg_count, 2);
    assert_eq!(mapper.map_write(0x8000, 0x13, Device::CPU), MappingResult::Denied);
    assert_eq!(mapper.map_read(0x8010, Device::CPU), MappingResult::Allowed(0x8000 + 0x10));
    assert_eq!(mapper.map_read(0x0010, Device::PPU), MappingResult::Allowed(3 * 0x2000 + 0x10));
    assert_eq!(mapper.map_read(0x5000, Device::CPU), MappingResult::Denied);
}

#[test]
fn mapper66_save_state_round_trip() {
    let mut mapper = Mapper66::new();
    mapper.init(8, true, 2, 0);
    mapper.map_write(0x8000, 0x21, Device::CPU);
    let state = mapper.save_state();
    assert_eq!(state, vec![2, 1, 4, 2, 1]);
    assert_eq!(mapper.save_state_size(), 5);
    let mut loaded = Mapper66::new();
    loaded.load_state(state);
    assert_eq!(loaded.save_state(), mapper.save_state());
}

#[test]
fn mapper4_prg_banks() {
    let mut mapper = Mapper4::new();
    mapper.init(8, false, 8, 1);
    // 16 banks of 8 KiB; R6 selects the bank at 0x8000
    mapper.map_write(0x8000, 6, Device::CPU);
    mapper.map_write(0x8001, 3, Device::CPU);
    assert_eq!(mapper.map_read(0x8001, Device::CPU), MappingResult::Allowed(3 * 0x2000 + 1));
    // the second-last bank at 0xC000, the last at 0xE000
    assert_eq!(mapper.map_read(0xC000, Device::CPU), MappingResult::Allowed(14 * 0x2000));
    assert_eq!(mapper.map_read(0xE000, Device::CPU), MappingResult::Allowed(15 * 0x2000));
    // PRG bank mode 1 swaps 0x8000 and 0xC000
    mapper.map_write(0x8000, 0x46, Device::CPU);
    assert_eq!(mapper.map_read(0x8000, Device::CPU), MappingResult::Allowed(14 * 0x2000));
    assert_eq!(mapper.map_read(0xC000, Device::CPU), MappingResult::Allowed(3 * 0x2000));
}

#[test]
fn mapper4_prg_ram_protection() {
    let mut mapper = Mapper4::new();
    mapper.init(2, false, 1, 1);
    assert_eq!(mapper.map_write(0x6001, 0, Device::CPU), MappingResult::Allowed(1));
    // enabled, writes denied
    mapper.map_write(0xA001, 0xC0, Device::CPU);
    assert_eq!(mapper.map_write(0x6001, 0, Device::CPU), MappingResult::Denied);
    assert_eq!(mapper.map_read(0x6001, Device::CPU), MappingResult::Allowed(1));
    // mirroring
    mapper.map_write(0xA000, 0, Device::CPU);
    assert_eq!(mapper.nametable_mirroring(), MirroringMode::Vertical);
    mapper.map_write(0xA000, 1, Device::CPU);
    assert_eq!(mapper.nametable_mirroring(), MirroringMode::Horizontal);
}

#[test]
fn mapper4_scanline_irq() {
    let mut mapper = Mapper4::new();
    mapper.init(2, false, 1, 0);
    // latch 2, reload, enable
    mapper.map_write(0xC000, 2, Device::CPU);
    mapper.map_write(0xC001, 0, Device::CPU);
    mapper.map_write(0xE001, 0, Device::CPU);
    // first rising edge of A12 reloads the counter
    mapper.map_read(0x0000, Device::PPU);
    mapper.map_read(0x1000, Device::PPU);
    assert_eq!(mapper.irq_counter, 2);
    assert!(!mapper.irq_pin_state());
    // staying high does not count
    mapper.map_read(0x1000, Device::PPU);
    assert_eq!(mapper.irq_counter, 2);
    mapper.map_read(0x0000, Device::PPU);
    mapper.map_read(0x1000, Device::PPU);
    assert_eq!(mapper.irq_counter, 1);
    mapper.map_read(0x0000, Device::PPU);
    mapper.map_read(0x1000, Device::PPU);
    assert_eq!(mapper.irq_counter, 0);
    assert!(mapper.irq_pin_state());
    assert!(mapper.is_irq_pin_state_changed_requested());
    mapper.clear_irq_request_pin();
    assert!(!mapper.irq_pin_state());
    // disabling acknowledges
    mapper.map_write(0xE000, 0, Device::CPU);
    assert!(mapper.is_irq_pin_state_changed_requested());
}

#[test]
fn mapper4_chr_banks() {
    let mut mapper = Mapper4::new();
    mapper.init(2, false, 32, 0);
    // R0 (2 KiB, stored even) and R2 (1 KiB)
    mapper.map_write(0x8000, 0, Device::CPU);
    mapper.map_write(0x8001, 5, Device::CPU);
    mapper.map_write(0x8000, 2, Device::CPU);
    mapper.map_write(0x8001, 9, Device::CPU);
    assert_eq!(mapper.map_read(0x0010, Device::PPU), MappingResult::Allowed(4 * 0x400 + 0x10));
    assert_eq!(mapper.map_read(0x1010, Device::PPU), MappingResult::Allowed(9 * 0x400 + 0x10));
}

#[test]
fn mapper9_latches() {
    let mut mapper = Mapper9::new();
    mapper.init(8, false, 8, 0);
    mapper.map_write(0xB000, 3, Device::CPU);
    mapper.map_write(0xC000, 5, Device::CPU);
    // latch 0 starts at 0xFE
    assert_eq!(mapper.map_read(0x0010, Device::PPU), MappingResult::Allowed(5 * 0x1000 + 0x10));
    // fetching 0x0FD8 switches to the 0xFD bank
    assert_eq!(mapper.map_read(0x0FD8, Device::PPU), MappingResult::Allowed(3 * 0x1000 + 0xFD8));
    assert_eq!(mapper.latch_0, 0xFD);
    assert_eq!(mapper.map_read(0x0FE8, Device::PPU), MappingResult::Allowed(5 * 0x1000 + 0xFE8));
    // latch 1 by 0x1FD8-0x1FDF
    mapper.map_read(0x1FDB, Device::PPU);
    assert_eq!(mapper.latch_1, 0xFD);
}

#[test]
fn mapper9_prg_banks() {
    let mut mapper = Mapper9::new();
    mapper.init(8, false, 8, 0);
    mapper.map_write(0xA000, 0x12, Device::CPU);
    assert_eq!(mapper.map_read(0x8000, Device::CPU), MappingResult::Allowed(2 * 0x2000));
    // the last three of 16 banks
    assert_eq!(mapper.map_read(0xA000, Device::CPU), MappingResult::Allowed(13 * 0x2000));
    assert_eq!(mapper.map_read(0xC000, Device::CPU), MappingResult::Allowed(14 * 0x2000));
    assert_eq!(mapper.map_read(0xE000, Device::CPU), MappingResult::Allowed(15 * 0x2000));
    mapper.map_write(0xF000, 0, Device::CPU);
    assert_eq!(mapper.nametable_mirroring(), MirroringMode::Vertical);
}
