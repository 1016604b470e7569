use plastic::cartridge::Cartridge;
use plastic::cartridge_error::{CartridgeError, FileErrorKind, SramError};
use plastic::common::{Bus, Device, MirroringMode, MirroringProvider};
use plastic::ines_header::INesHeader;
use plastic::tester::TestError;

/// An iNES file: the header, then the PRG ROM banks and the CHR ROM banks,
/// each bank filled by `prg_fill(bank, offset)` and `chr_fill`.
fn ines_file(
    prg_banks: u8,
    chr_banks: u8,
    flags6: u8,
    prg_fill: fn(usize, usize) -> u8,
    chr_fill: u8,
) -> Vec<u8> {
    let mut data = vec![0x4E, 0x45, 0x53, 0x1A, prg_banks, chr_banks, flags6, 0, 0, 0, 0, 0, 0, 0, 0, 0];
    for bank in 0..prg_banks as usize {
        for offset in 0..0x4000 {
            data.push(prg_fill(bank, offset));
        }
    }
    for _ in 0..(chr_banks as usize * 0x2000) {
        data.push(chr_fill);
    }
    data
}

#[test]
fn cartridge_wrong_header() {
    let mut data = ines_file(1, 1, 0, |_, _| 0, 0);
    data[3] = 0x1B;
    let err = Cartridge::from_bytes("wrong_header.nes", &data, None)
        .err()
        .expect("Should get an error as the cartridge has wrong header");
    if let CartridgeError::HeaderError = err {
        // passed
    } else {
        panic!("Should get header error");
    }
}

#[test]
fn cartridge_large_file() {
    let mut data = ines_file(1, 1, 0, |_, _| 0, 0);
    data.push(0);
    let err = Cartridge::from_bytes("large_file.nes", &data, None)
        .err()
        .expect("Should get an error as the cartridge file is larger than expected");
    if let CartridgeError::TooLargeFile(exceeded_size) = err {
        assert_eq!(exceeded_size, 1);
    } else {
        panic!("Should get too large file error");
    }
}

#[test]
fn test_ines1_cartridge_read() {
    let data = ines_file(2, 1, 0, |_, _| 0xFF, 0xEE);
    let mut cartridge = Cartridge::from_bytes("creation.nes", &data, None).ok().unwrap();
    assert_eq!(cartridge.prg_data().len(), 0x8000);
    // make sure that all characters match, meaning we read all of them
    for &c in cartridge.prg_data() {
        assert_eq!(c, 0xFF);
    }
    assert_eq!(cartridge.chr_data().len(), 0x2000);
    // make sure that all characters match, meaning we read all of them
    for &c in cartridge.chr_data() {
        assert_eq!(c, 0xEE);
    }
}

#[test]
fn cartridge_short_file() {
    let mut data = ines_file(1, 1, 0, |_, _| 0, 0);
    data.pop();
    let err = Cartridge::from_bytes("short.nes", &data, None).err().unwrap();
    assert_eq!(err.get_message(), "FileError: failed to fill whole buffer");
    let header_only = &data[0..10];
    let err = Cartridge::from_bytes("short.nes", header_only, None).err().unwrap();
    assert_eq!(err, CartridgeError::FileError(FileErrorKind::UnexpectedEof, String::from("failed to fill whole buffer")));
}

#[test]
fn cartridge_unsupported_mapper() {
    // mapper 5 in the high nibble of flags 6
    let data = ines_file(1, 1, 0x50, |_, _| 0, 0);
    let err = Cartridge::from_bytes("mapper5.nes", &data, None).err().unwrap();
    assert_eq!(err, CartridgeError::MapperNotImplemented(5));
    assert_eq!(err.get_message(), "Mapper 5 is not yet implemented");
    // mapper 8 (0x08 in flags 6)
    let data = ines_file(2, 1, 0x80, |_, _| 0, 0);
    let err = Cartridge::from_bytes("mapper8.nes", &data, None).err().unwrap();
    assert_eq!(err, CartridgeError::MapperNotImplemented(8));
}

#[test]
fn cartridge_mapper4_switches_banks() {
    // four 16 KiB PRG banks (eight 8 KiB banks), two 8 KiB CHR banks
    let mut data = ines_file(4, 2, 0x40, |bank, offset| (2 * bank + offset / 0x2000) as u8, 0);
    let chr_start = 16 + 4 * 0x4000;
    for kb in 0..16 {
        data[chr_start + kb * 0x400] = 0x40 + kb as u8;
    }
    let mut cartridge = Cartridge::from_bytes("mmc3.nes", &data, None).ok().unwrap();
    // 0xC000 holds the second-last bank and 0xE000 the last
    assert_eq!(cartridge.read(0xC000, Device::CPU), 6);
    assert_eq!(cartridge.read(0xE000, Device::CPU), 7);
    // R6 = bank 3 at 0x8000, R7 = bank 5 at 0xA000
    cartridge.write(0x8000, 6, Device::CPU);
    cartridge.write(0x8001, 3, Device::CPU);
    cartridge.write(0x8000, 7, Device::CPU);
    cartridge.write(0x8001, 5, Device::CPU);
    assert_eq!(cartridge.read(0x8000, Device::CPU), 3);
    assert_eq!(cartridge.read(0xA000, Device::CPU), 5);
    // PRG mode 1 swaps 0x8000 and 0xC000
    cartridge.write(0x8000, 0x46, Device::CPU);
    assert_eq!(cartridge.read(0x8000, Device::CPU), 6);
    assert_eq!(cartridge.read(0xC000, Device::CPU), 3);
    // R2 = 1 KiB bank 9 at PPU 0x1000; R0 = 2 KiB bank 4 at PPU 0x0000
    cartridge.write(0x8000, 2, Device::CPU);
    cartridge.write(0x8001, 9, Device::CPU);
    cartridge.write(0x8000, 0, Device::CPU);
    cartridge.write(0x8001, 5, Device::CPU);
    assert_eq!(cartridge.read(0x1000, Device::PPU), 0x49);
    assert_eq!(cartridge.read(0x0000, Device::PPU), 0x44);
    assert_eq!(cartridge.read(0x0400, Device::PPU), 0x45);
    // mirroring is software-controlled
    cartridge.write(0xA000, 0, Device::CPU);
    assert_eq!(cartridge.mirroring_mode(), MirroringMode::Vertical);
    cartridge.write(0xA000, 1, Device::CPU);
    assert_eq!(cartridge.mirroring_mode(), MirroringMode::Horizontal);
}

#[test]
fn cartridge_mapper4_counts_scanlines() {
    let data = ines_file(2, 1, 0x40, |_, _| 0, 0);
    let mut cartridge = Cartridge::from_bytes("mmc3.nes", &data, None).ok().unwrap();
    // latch 2, reload, enable IRQs
    cartridge.write(0xC000, 2, Device::CPU);
    cartridge.write(0xC001, 0, Device::CPU);
    cartridge.write(0xE001, 0, Device::CPU);
    assert!(!cartridge.is_irq_change_requested());
    // each rising edge of A12 clocks the counter: reload to 2, then 1, then 0
    for _ in 0..2 {
        cartridge.read(0x0000, Device::PPU);
        cartridge.read(0x1000, Device::PPU);
        assert!(!cartridge.is_irq_change_requested());
    }
    cartridge.read(0x0000, Device::PPU);
    cartridge.read(0x1000, Device::PPU);
    assert!(cartridge.is_irq_change_requested());
    assert!(cartridge.irq_pin_state());
    cartridge.clear_irq_request_pin();
    assert!(!cartridge.is_irq_change_requested());
    assert!(!cartridge.irq_pin_state());
}

#[test]
fn cartridge_mapper9_latches_chr_banks() {
    // eight 16 KiB PRG banks, four 8 KiB CHR banks (eight 4 KiB banks)
    let mut data = ines_file(8, 4, 0x90, |bank, offset| (2 * bank + offset / 0x2000) as u8, 0);
    let chr_start = 16 + 8 * 0x4000;
    for kb4 in 0..8 {
        data[chr_start + kb4 * 0x1000] = 0x60 + kb4 as u8;
    }
    let mut cartridge = Cartridge::from_bytes("mmc2.nes", &data, None).ok().unwrap();
    // the last three 8 KiB banks are fixed at 0xA000-0xFFFF
    assert_eq!(cartridge.read(0xA000, Device::CPU), 13);
    assert_eq!(cartridge.read(0xC000, Device::CPU), 14);
    assert_eq!(cartridge.read(0xE000, Device::CPU), 15);
    cartridge.write(0xA000, 4, Device::CPU);
    assert_eq!(cartridge.read(0x8000, Device::CPU), 4);
    // FD bank 2, FE bank 3 for 0x0000-0x0FFF; latch 0 starts at FE
    cartridge.write(0xB000, 2, Device::CPU);
    cartridge.write(0xC000, 3, Device::CPU);
    assert_eq!(cartridge.read(0x0000, Device::PPU), 0x63);
    // fetching 0x0FD8 sets the latch to FD
    cartridge.read(0x0FD8, Device::PPU);
    assert_eq!(cartridge.read(0x0000, Device::PPU), 0x62);
    cartridge.read(0x0FE8, Device::PPU);
    assert_eq!(cartridge.read(0x0000, Device::PPU), 0x63);
    // FD bank 5, FE bank 6 for 0x1000-0x1FFF; latch 1 flips on 0x1FD8-0x1FDF
    cartridge.write(0xD000, 5, Device::CPU);
    cartridge.write(0xE000, 6, Device::CPU);
    assert_eq!(cartridge.read(0x1000, Device::PPU), 0x66);
    cartridge.read(0x1FDB, Device::PPU);
    assert_eq!(cartridge.read(0x1000, Device::PPU), 0x65);
    // mirroring register
    cartridge.write(0xF000, 1, Device::CPU);
    assert_eq!(cartridge.mirroring_mode(), MirroringMode::Horizontal);
}

#[test]
fn cartridge_mapper2_switches_prg_bank() {
    // four 16 KiB banks, CHR RAM
    let data = ines_file(4, 0, 0x20, |bank, _| bank as u8, 0);
    let mut cartridge = Cartridge::from_bytes("uxrom.nes", &data, None).ok().unwrap();
    assert_eq!(cartridge.read(0x8000, Device::CPU), 0);
    // the last bank is fixed at 0xC000
    assert_eq!(cartridge.read(0xC000, Device::CPU), 3);
    cartridge.write(0x8000, 2, Device::CPU);
    assert_eq!(cartridge.read(0x8000, Device::CPU), 2);
    assert_eq!(cartridge.read(0xC000, Device::CPU), 3);
    // no PRG RAM
    assert_eq!(cartridge.read(0x6000, Device::CPU), 0);
    // CHR RAM is written and read back
    cartridge.write(0x0100, 0x5A, Device::PPU);
    assert_eq!(cartridge.read(0x0100, Device::PPU), 0x5A);
}

#[test]
fn cartridge_mapper3_switches_chr_bank() {
    let mut data = ines_file(2, 4, 0x30, |bank, _| bank as u8, 0);
    let chr_start = 16 + 2 * 0x4000;
    for bank in 0..4 {
        data[chr_start + bank * 0x2000] = 10 + bank as u8;
    }
    let mut cartridge = Cartridge::from_bytes("cnrom.nes", &data, None).ok().unwrap();
    assert_eq!(cartridge.read(0x8000, Device::CPU), 0);
    assert_eq!(cartridge.read(0xC000, Device::CPU), 1);
    assert_eq!(cartridge.read(0x0000, Device::PPU), 10);
    cartridge.write(0x8000, 2, Device::CPU);
    assert_eq!(cartridge.read(0x0000, Device::PPU), 12);
    // only the low two bits select on a board of four banks
    cartridge.write(0x9000, 0xFF, Device::CPU);
    assert_eq!(cartridge.read(0x0000, Device::PPU), 13);
}

#[test]
fn cartridge_mapper66_switches_both_banks() {
    // two 32 KiB PRG banks, two 8 KiB CHR banks; mapper 66 = 0x42
    let mut data = ines_file(4, 2, 0x20, |bank, _| bank as u8, 0);
    data[7] = 0x40;
    let chr_start = 16 + 4 * 0x4000;
    data[chr_start] = 0x70;
    data[chr_start + 0x2000] = 0x71;
    let mut cartridge = Cartridge::from_bytes("gxrom.nes", &data, None).ok().unwrap();
    assert_eq!(cartridge.header().mapper_id, 66);
    assert_eq!(cartridge.read(0x8000, Device::CPU), 0);
    assert_eq!(cartridge.read(0xC000, Device::CPU), 1);
    assert_eq!(cartridge.read(0x0000, Device::PPU), 0x70);
    // PRG bank 1 in bits 4-5, CHR bank 1 in bits 0-1
    cartridge.write(0x8000, 0x11, Device::CPU);
    assert_eq!(cartridge.read(0x8000, Device::CPU), 2);
    assert_eq!(cartridge.read(0xC000, Device::CPU), 3);
    assert_eq!(cartridge.read(0x0000, Device::PPU), 0x71);
}

#[test]
fn cartridge_mapper0_mirrors_16k_prg() {
    let data = ines_file(1, 1, 0x01, |_, offset| (offset % 251) as u8, 0x33);
    let mut cartridge = Cartridge::from_bytes("nrom.nes", &data, None).ok().unwrap();
    assert_eq!(cartridge.read(0x8123, Device::CPU), (0x0123 % 251) as u8);
    assert_eq!(cartridge.read(0xC123, Device::CPU), (0x0123 % 251) as u8);
    assert_eq!(cartridge.read(0x0100, Device::PPU), 0x33);
    // vertical mirroring is wired in flags 6
    assert_eq!(cartridge.mirroring_mode(), MirroringMode::Vertical);
}

#[test]
fn cartridge_mapper0_32k_prg_and_rom_is_read_only() {
    let data = ines_file(2, 1, 0, |bank, _| bank as u8 + 1, 0);
    let mut cartridge = Cartridge::from_bytes("nrom256.nes", &data, None).ok().unwrap();
    assert_eq!(cartridge.read(0x8000, Device::CPU), 1);
    assert_eq!(cartridge.read(0xC000, Device::CPU), 2);
    cartridge.write(0x8000, 0x99, Device::CPU);
    assert_eq!(cartridge.read(0x8000, Device::CPU), 1);
    assert_eq!(cartridge.mirroring_mode(), MirroringMode::Horizontal);
}

#[test]
fn cartridge_prg_ram_write_then_read() {
    let data = ines_file(1, 1, 0, |_, _| 0, 0);
    let mut cartridge = Cartridge::from_bytes("ram.nes", &data, None).ok().unwrap();
    assert_eq!(cartridge.prg_ram_data().len(), 0x2000);
    cartridge.write(0x6010, 0x5A, Device::CPU);
    assert_eq!(cartridge.read(0x6010, Device::CPU), 0x5A);
    assert_eq!(cartridge.prg_ram_data()[0x10], 0x5A);
}

#[test]
fn cartridge_chr_ram_write_then_read() {
    let data = ines_file(1, 0, 0, |_, _| 0, 0);
    let mut cartridge = Cartridge::from_bytes("chr_ram.nes", &data, None).ok().unwrap();
    assert_eq!(cartridge.chr_data().len(), 0x2000);
    cartridge.write(0x1234, 0x77, Device::PPU);
    assert_eq!(cartridge.read(0x1234, Device::PPU), 0x77);
}

#[test]
fn cartridge_battery_ram_is_loaded_from_save() {
    // flags 6: battery
    let data = ines_file(1, 1, 0x02, |_, _| 0, 0);
    let mut saved = vec![0u8; 0x2000];
    saved[5] = 0xAB;
    let mut cartridge = Cartridge::from_bytes("battery.nes", &data, Some(saved)).ok().unwrap();
    assert_eq!(cartridge.read(0x6005, Device::CPU), 0xAB);
    // a save file that is too short is ignored
    let mut cartridge = Cartridge::from_bytes("battery.nes", &data, Some(vec![1, 2, 3])).ok().unwrap();
    assert_eq!(cartridge.read(0x6001, Device::CPU), 0);
}

#[test]
fn cartridge_mapper1_switches_prg_bank() {
    // mapper 1, 8 banks of 16 KiB, CHR RAM
    let data = ines_file(8, 0, 0x10, |bank, _| bank as u8, 0);
    let mut cartridge = Cartridge::from_bytes("mmc1.nes", &data, None).ok().unwrap();
    // power-up: the bank register holds the last bank, which is also fixed at 0xC000
    assert_eq!(cartridge.read(0x8000, Device::CPU), 7);
    assert_eq!(cartridge.read(0xC000, Device::CPU), 7);
    // five serial writes of 2 (lowest bit first) to the PRG bank register
    for bit in [0u8, 1, 0, 0, 0] {
        cartridge.write(0xE000, bit, Device::CPU);
    }
    assert_eq!(cartridge.read(0x8000, Device::CPU), 2);
    assert_eq!(cartridge.read(0xC000, Device::CPU), 7);
}

#[test]
fn cartridge_mapper1_reset_write() {
    let data = ines_file(8, 0, 0x10, |bank, _| bank as u8, 0);
    let mut cartridge = Cartridge::from_bytes("mmc1.nes", &data, None).ok().unwrap();
    // two bits, then a reset, then a full write of 3
    cartridge.write(0xE000, 1, Device::CPU);
    cartridge.write(0xE000, 1, Device::CPU);
    cartridge.write(0xE000, 0x80, Device::CPU);
    for bit in [1u8, 1, 0, 0, 0] {
        cartridge.write(0xE000, bit, Device::CPU);
    }
    assert_eq!(cartridge.read(0x8000, Device::CPU), 3);
}

#[test]
fn cartridge_without_file() {
    let mut cartridge = Cartridge::new_without_file();
    assert!(cartridge.is_empty());
    assert_eq!(cartridge.read(0x8000, Device::CPU), 0xEA);
    assert_eq!(cartridge.read(0x0000, Device::PPU), 0x00);
    cartridge.write(0x6000, 1, Device::CPU);
    assert_eq!(cartridge.read(0x6000, Device::CPU), 0xEA);
}

#[test]
fn ines_header_decoding() {
    let header = INesHeader::from_bytes([0x4E, 0x45, 0x53, 0x1A, 2, 1, 0x13, 0x40, 0, 0, 0, 0, 0, 0, 0, 0])
        .ok()
        .unwrap();
    assert_eq!(header.prg_rom_size, 2);
    assert_eq!(header.chr_rom_size, 1);
    assert!(!header.is_chr_ram);
    assert!(header.hardwired_mirroring_vertical);
    assert!(header.has_prg_ram_battery);
    assert!(!header.contain_trainer_data);
    assert_eq!(header.mapper_id, 0x41);
    assert_eq!(header.prg_sram_size, 0x2000);
    assert_eq!(header.get_active_prg_rom_size(0x4000), 2);
    assert_eq!(header.get_active_chr_data_size(0x1000), 2);
}

#[test]
fn ines2_header_decoding() {
    // NES 2.0: identifier 0b10 in byte 7; 8 KiB (64 << 7) of PRG RAM
    let header = INesHeader::from_bytes([0x4E, 0x45, 0x53, 0x1A, 4, 0, 0x10, 0x08, 0x01, 0x00, 0x07, 0x07, 0, 0, 0, 0])
        .ok()
        .unwrap();
    assert_eq!(header.prg_rom_size, 4);
    assert!(header.is_chr_ram);
    assert_eq!(header.mapper_id, 0x101);
    assert_eq!(header.prg_wram_size, 0x2000);
    assert_eq!(header.chr_wram_size, 0x2000);
}

#[test]
fn ines_header_reserved_bits() {
    let err = INesHeader::from_bytes([0x4E, 0x45, 0x53, 0x1A, 1, 1, 0, 0, 0, 0x02, 0, 0, 0, 0, 0, 0]).err();
    assert_eq!(err, Some(CartridgeError::HeaderError));
    assert_eq!(INesHeader::check_magic(&[0x4E, 0x45, 0x53, 0x1A]), Ok(()));
    assert_eq!(INesHeader::check_magic(&[0x4E, 0x45, 0x53, 0x00]), Err(CartridgeError::HeaderError));
}

#[test]
fn error_messages() {
    assert_eq!(
        CartridgeError::TooLargeFile(1).get_message(),
        "The cartridge reader read all the data needed, but the file still has some data at the end with size 1-bytes"
    );
    assert_eq!(CartridgeError::HeaderError.get_message(), "This is not a valid iNES file");
    assert_eq!(CartridgeError::ExtensionError.get_message(), "The cartridge file must end with `.nes` extension");
    assert_eq!(SramError::NoSramFileFound.get_message(), "Could not load cartridge save file");
    assert_eq!(
        TestError::ResultError(3).get_message(),
        "ResultError: test failed with code 3"
    );
    assert_eq!(
        TestError::CartridgeError(CartridgeError::HeaderError).get_message(),
        "CartridgeError: This is not a valid iNES file"
    );
    let converted: TestError = CartridgeError::Others.into();
    assert_eq!(
        converted.get_message(),
        "CartridgeError: An unknown error occurred while decoding/reading the cartridge"
    );
}

#[test]
fn cartridge_mapper_irq_and_four_screen() {
    // four-screen mirroring in flags 6
    let data = ines_file(1, 1, 0x08, |_, _| 0, 0);
    let mut cartridge = Cartridge::from_bytes("four.nes", &data, None).ok().unwrap();
    assert_eq!(cartridge.mirroring_mode(), MirroringMode::FourScreen);
    assert!(!cartridge.is_irq_change_requested());
    cartridge.clear_irq_request_pin();
    assert_eq!(cartridge.header().mapper_id, 0);
    assert_eq!(cartridge.file_path(), "four.nes");
}

#[test]
fn cartridge_mapper1_mirroring_control() {
    let data = ines_file(8, 0, 0x10, |bank, _| bank as u8, 0);
    let mut cartridge = Cartridge::from_bytes("mmc1.nes", &data, None).ok().unwrap();
    // power-up control 0b11100: single screen, low bank
    assert_eq!(cartridge.mirroring_mode(), MirroringMode::SingleScreenLowBank);
    // control register 0b01110 (vertical, PRG mode 3)
    for bit in [0u8, 1, 1, 1, 0] {
        cartridge.write(0x8000, bit, Device::CPU);
    }
    assert_eq!(cartridge.mirroring_mode(), MirroringMode::Vertical);
}

#[test]
fn cartridge_extension_error_file() {
    let err = Cartridge::check_file_extension("./file/does/not/exists.notnes")
        .err()
        .expect("Should get an error as the cartridge has extension error");
    assert_eq!(err, CartridgeError::ExtensionError);
}

#[test]
fn cartridge_extension_accepted() {
    assert_eq!(Cartridge::check_file_extension("./file/does/not/exists.nes"), Ok(()));
    assert_eq!(Cartridge::check_file_extension("roms.d/game.nes"), Ok(()));
}

#[test]
fn cartridge_extension_refused() {
    // a leading dot starts a hidden file's name and is no extension
    assert_eq!(Cartridge::check_file_extension("roms/.nes"), Err(CartridgeError::ExtensionError));
    assert_eq!(Cartridge::check_file_extension("game"), Err(CartridgeError::ExtensionError));
    assert_eq!(Cartridge::check_file_extension("game.NES"), Err(CartridgeError::ExtensionError));
    assert_eq!(Cartridge::check_file_extension("game.nes.zip"), Err(CartridgeError::ExtensionError));
    assert_eq!(Cartridge::check_file_extension("game.nes/.."), Err(CartridgeError::ExtensionError));
}

#[test]
fn cartridge_extension_decision() {
    assert_eq!(Cartridge::check_extension(Some("nes".to_string())), Ok(()));
    assert_eq!(Cartridge::check_extension(Some("nez".to_string())), Err(CartridgeError::ExtensionError));
    assert_eq!(Cartridge::check_extension(None), Err(CartridgeError::ExtensionError));
}
