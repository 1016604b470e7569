//! The 16-byte header of iNES and NES 2.0 cartridge files.

use vstd::prelude::*;
use crate::bits::{lemma_byte_bits_low, lemma_nibbles};
use crate::cartridge_error::CartridgeError;

verus! {

/// The decoded header of a cartridge file.
#[derive(PartialEq, Eq, Clone, Copy, Debug, Structural)]
pub struct INesHeader {
    /// in 16kb units
    pub prg_rom_size: u16,
    /// in 8kb units
    pub chr_rom_size: u16,
    pub is_chr_ram: bool,
    pub hardwired_mirroring_vertical: bool,
    pub has_prg_ram_battery: bool,
    pub contain_trainer_data: bool,
    pub use_hardwaired_4_screen_mirroring: bool,
    pub mapper_id: u16,
    pub submapper_id: u8,
    pub prg_wram_size: u32,
    pub prg_sram_size: u32,
    pub chr_wram_size: u32,
    pub chr_sram_size: u32,
}

/// The bytes every cartridge file starts with: "NES" and 0x1A.
pub open spec fn has_magic(b: Seq<u8>) -> bool {
    b.len() == 4 && b[0] == 0x4E && b[1] == 0x45 && b[2] == 0x53 && b[3] == 0x1A
}

/// Bits 2-3 of byte 7: 0 for iNES, otherwise a NES 2.0 header.
pub open spec fn ines2_identifier(b: [u8; 16]) -> int {
    (b@[7] as int / 4) % 4
}

/// An iNES header with data in bytes 12-15 was written by old tools, whose
/// byte 7 cannot be trusted.
pub open spec fn is_archaic(b: [u8; 16]) -> bool {
    b@[12] != 0 || b@[13] != 0 || b@[14] != 0 || b@[15] != 0
}

/// The header is accepted: it has the magic bytes, and an iNES header that
/// is not archaic has nothing but the TV system bit in byte 9.
pub open spec fn is_valid_header(b: [u8; 16]) -> bool {
    &&& has_magic(b@.subrange(0, 4))
    &&& !(ines2_identifier(b) == 0 && !is_archaic(b) && b@[9] / 2 != 0)
}

/// A NES 2.0 memory size: 64 bytes shifted left by the nibble, or none.
pub open spec fn shifted_size(nibble: u8) -> u32 {
    if nibble == 0 {
        0
    } else {
        64u32 << (nibble as u32)
    }
}

/// The fields a (valid) header decodes to.
pub open spec fn decoded_header(b: [u8; 16]) -> INesHeader {
    let flags6 = b@[6];
    let mapper_low = flags6 / 16;
    if ines2_identifier(b) == 0 {
        // iNES; archaic headers ignore byte 7 and have 8 KiB of PRG RAM
        let mapper_middle = if is_archaic(b) {
            0
        } else {
            b@[7] / 16
        };
        let ram_banks = if is_archaic(b) || b@[8] == 0 {
            1
        } else {
            b@[8] as int
        };
        INesHeader {
            prg_rom_size: b@[4] as u16,
            chr_rom_size: b@[5] as u16,
            is_chr_ram: b@[5] == 0,
            hardwired_mirroring_vertical: flags6 % 2 == 1,
            has_prg_ram_battery: (flags6 / 2) % 2 == 1,
            contain_trainer_data: (flags6 / 4) % 2 == 1,
            use_hardwaired_4_screen_mirroring: (flags6 / 8) % 2 == 1,
            mapper_id: (mapper_middle * 16 + mapper_low) as u16,
            submapper_id: 0,
            prg_wram_size: (ram_banks * 0x2000) as u32,
            prg_sram_size: (ram_banks * 0x2000) as u32,
            chr_wram_size: 0x2000,
            chr_sram_size: 0x2000,
        }
    } else {
        // NES 2.0
        INesHeader {
            prg_rom_size: ((b@[9] % 16) * 256 + b@[4]) as u16,
            chr_rom_size: ((b@[9] / 16) * 256 + b@[5]) as u16,
            is_chr_ram: b@[5] == 0,
            hardwired_mirroring_vertical: flags6 % 2 == 1,
            has_prg_ram_battery: (flags6 / 2) % 2 == 1,
            contain_trainer_data: (flags6 / 4) % 2 == 1,
            use_hardwaired_4_screen_mirroring: (flags6 / 8) % 2 == 1,
            mapper_id: ((b@[8] % 16) * 256 + (b@[7] / 16) * 16 + mapper_low) as u16,
            submapper_id: (b@[8] / 16) as u8,
            prg_wram_size: shifted_size((b@[10] % 16) as u8),
            prg_sram_size: shifted_size((b@[10] / 16) as u8),
            chr_wram_size: shifted_size((b@[11] % 16) as u8),
            chr_sram_size: shifted_size((b@[11] / 16) as u8),
        }
    }
}

/// The header of an empty cartridge: the magic bytes and nothing else.
pub open spec fn empty_header_bytes() -> [u8; 16] {
    [0x4E, 0x45, 0x53, 0x1A, 0, 0, 0, 0, 0, 0, 0, 0, 0, 0, 0, 0]
}

/// A NES 2.0 memory size from its nibble.
fn shifted_size_of(nibble: u8) -> (size: u32)
    requires
        nibble < 16,
    ensures
        size == shifted_size(nibble),
{
    let shift_size = nibble as u32;
    if shift_size != 0 {
        64 << shift_size
    } else {
        0
    }
}

impl INesHeader {
    /// Decodes a header; fails on a wrong magic or on reserved bits set in
    /// an iNES header.
    pub fn from_bytes(header: [u8; 16]) -> (r: Result<Self, CartridgeError>)
        ensures
            r == (if is_valid_header(header) {
                Ok(decoded_header(header))
            } else {
                Err(CartridgeError::HeaderError)
            }),
    {
        // decode header
        let magic = Self::check_magic(&[header[0], header[1], header[2], header[3]]);
        assert([header[0], header[1], header[2], header[3]]@ =~= header@.subrange(0, 4));
        if magic.is_err() {
            return Err(CartridgeError::HeaderError);
        }
        let prg_size_low = header[4] as u16;
        let chr_size_low = header[5] as u16;
        let is_chr_ram = chr_size_low == 0;
        let flags6 = header[6];
        let flags7 = header[7];
        proof {
            lemma_byte_bits_low(flags6);
            lemma_byte_bits_low(flags7);
            lemma_byte_bits_low(header[8]);
            lemma_byte_bits_low(header[9]);
            lemma_nibbles(flags6);
            lemma_nibbles(flags7);
            lemma_nibbles(header[8]);
            lemma_nibbles(header[9]);
            lemma_nibbles(header[10]);
            lemma_nibbles(header[11]);
        }
        let hardwired_mirroring_vertical = flags6 & 1 != 0;
        let has_prg_ram_battery = (flags6 >> 1) & 1 != 0;
        let contain_trainer_data = (flags6 >> 2) & 1 != 0;
        let use_hardwaired_4_screen_mirroring = (flags6 >> 3) & 1 != 0;
        let mapper_id_low = (flags6 >> 4) as u16;
        let ines_2_ident = (flags7 >> 2) & 0x3;
        let mut mapper_id_middle = (flags7 >> 4) as u16;
        if ines_2_ident == 0 {
            let mut is_archaic_ines = false;
            let mut i: usize = 12;
            while i <= 15
                invariant
                    12 <= i <= 16,
                    is_archaic_ines == exists|j: int| 12 <= j < i && header@[j] != 0,
                decreases 16 - i,
            {
                if header[i] != 0 {
                    is_archaic_ines = true;
                }
                i = i + 1;
            }
            assert(is_archaic_ines == is_archaic(header)) by {
                if is_archaic(header) {
                    if header@[12] != 0 {
                    } else if header@[13] != 0 {
                    } else if header@[14] != 0 {
                    } else {
                        assert(header@[15] != 0);
                    }
                }
            }
            let prg_ram_size: u8;
            if !is_archaic_ines {
                prg_ram_size = if header[8] == 0 {
                    1
                } else {
                    header[8]
                };
                if header[9] >> 1 != 0 {
                    return Err(CartridgeError::HeaderError);
                }
            } else {
                // ignore `header[7]` data
                mapper_id_middle = 0;
                prg_ram_size = 1;
            }
            Ok(Self {
                prg_rom_size: prg_size_low,
                chr_rom_size: chr_size_low,
                is_chr_ram,
                hardwired_mirroring_vertical,
                has_prg_ram_battery,
                contain_trainer_data,
                use_hardwaired_4_screen_mirroring,
                mapper_id: mapper_id_middle * 16 + mapper_id_low,
                submapper_id: 0,
                prg_wram_size: prg_ram_size as u32 * 0x2000,
                prg_sram_size: prg_ram_size as u32 * 0x2000,
                chr_wram_size: 0x2000,  // can only use 8kb
                chr_sram_size: 0x2000,
            })
        } else {
            let mapper_id_high = (header[8] & 0xF) as u16;
            let submapper_id = header[8] >> 4;
            let prg_size_high = (header[9] & 0xF) as u16;
            let chr_size_high = (header[9] >> 4) as u16;
            let prg_wram_size_bytes = shifted_size_of(header[10] & 0xF);
            let prg_sram_size_bytes = shifted_size_of(header[10] >> 4);
            let chr_wram_size_bytes = shifted_size_of(header[11] & 0xF);
            let chr_sram_size_bytes = shifted_size_of(header[11] >> 4);
            Ok(Self {
                prg_rom_size: prg_size_high * 256 + prg_size_low,
                chr_rom_size: chr_size_high * 256 + chr_size_low,
                is_chr_ram,
                hardwired_mirroring_vertical,
                has_prg_ram_battery,
                contain_trainer_data,
                use_hardwaired_4_screen_mirroring,
                mapper_id: mapper_id_high * 256 + mapper_id_middle * 16 + mapper_id_low,
                submapper_id,
                prg_wram_size: prg_wram_size_bytes,
                prg_sram_size: prg_sram_size_bytes,
                chr_wram_size: chr_wram_size_bytes,
                chr_sram_size: chr_sram_size_bytes,
            })
        }
    }

    /// The header of an empty cartridge.
    pub fn empty() -> (h: Self)
        ensures
            h == decoded_header(empty_header_bytes()),
    {
        let bytes: [u8; 16] = [0x4E, 0x45, 0x53, 0x1A, 0, 0, 0, 0, 0, 0, 0, 0, 0, 0, 0, 0];
        assert(bytes == empty_header_bytes());
        assert(is_valid_header(bytes)) by {
            assert(bytes@.subrange(0, 4) =~= seq![0x4Eu8, 0x45, 0x53, 0x1A]);
        }
        // the magic bytes are present and the rest is zero
        Self::from_bytes(bytes).unwrap()
    }

    pub fn check_magic(header: &[u8]) -> (r: Result<(), CartridgeError>)
        ensures
            r == (if has_magic(header@) {
                Ok::<(), CartridgeError>(())
            } else {
                Err(CartridgeError::HeaderError)
            }),
    {
        if header.len() == 4 && header[0] == 0x4E && header[1] == 0x45 && header[2] == 0x53
            && header[3] == 0x1A {
            Ok(())
        } else {
            Err(CartridgeError::HeaderError)
        }
    }

    /// returns the number of banks
    pub fn get_active_chr_data_size(&self, chr_bank_size: u16) -> (banks: u16)
        requires
            chr_bank_size > 0,
        ensures
            banks == (if !self.is_chr_ram {
                ((self.chr_rom_size * 0x2000 / (chr_bank_size as int)) % 0x10000) as u16
            } else {
                ((self.chr_wram_size as int / (chr_bank_size as int)) % 0x10000) as u16
            }),
    {
        let banks = if !self.is_chr_ram {
            self.chr_rom_size as u32 * 0x2000 / chr_bank_size as u32
        } else {
            self.chr_wram_size / chr_bank_size as u32
        };
        proof {
            crate::bits::lemma_u32_low_half(banks);
        }
        banks as u16
    }

    /// returns the number of banks
    pub fn get_active_prg_ram_size(&self, prg_ram_bank_size: u16) -> (banks: u16)
        requires
            prg_ram_bank_size > 0,
        ensures
            banks == ((self.active_prg_ram_bytes() as int / (prg_ram_bank_size as int)) % 0x10000) as u16,
    {
        let banks = (if self.has_prg_ram_battery {
            self.prg_sram_size
        } else {
            self.prg_wram_size
        }) / prg_ram_bank_size as u32;
        proof {
            crate::bits::lemma_u32_low_half(banks);
        }
        banks as u16
    }

    /// returns the number of banks
    pub fn get_active_prg_rom_size(&self, prg_rom_bank_size: u16) -> (banks: u16)
        requires
            prg_rom_bank_size > 0,
        ensures
            banks == ((self.prg_rom_size * 0x4000 / (prg_rom_bank_size as int)) % 0x10000) as u16,
    {
        let banks = self.prg_rom_size as u32 * 0x4000 / prg_rom_bank_size as u32;
        proof {
            crate::bits::lemma_u32_low_half(banks);
        }
        banks as u16
    }

    /// The size in bytes of the PRG RAM in use: the battery-backed size when
    /// there is a battery, the work RAM size otherwise.
    pub open spec fn active_prg_ram_bytes(self) -> u32 {
        if self.has_prg_ram_battery {
            self.prg_sram_size
        } else {
            self.prg_wram_size
        }
    }
}

/// An iNES header (bits 2-3 of byte 7 clear, bytes 12-15 zero) with the
/// magic bytes is accepted exactly when byte 9 is 0 (NTSC) or 1 (PAL): only
/// bits 1-7 of byte 9 are reserved. An accepted one gives the PRG ROM size
/// from byte 4, the CHR size from byte 5 (CHR RAM when it is 0), the mapper
/// from the high nibbles of bytes 7 and 6, and the mirroring from bit 0 of
/// byte 6.
pub proof fn lemma_ines_byte9(b: [u8; 16])
    requires
        b@[0] == 0x4E && b@[1] == 0x45 && b@[2] == 0x53 && b@[3] == 0x1A,
        b@[7] % 16 < 4,
        b@[12] == 0 && b@[13] == 0 && b@[14] == 0 && b@[15] == 0,
    ensures
        is_valid_header(b) <==> b@[9] <= 1,
        b@[9] <= 1 ==> {
            let h = decoded_header(b);
            &&& h.prg_rom_size == b@[4]
            &&& h.chr_rom_size == b@[5]
            &&& h.is_chr_ram == (b@[5] == 0)
            &&& h.mapper_id == b@[7] / 16 * 16 + b@[6] / 16
            &&& h.hardwired_mirroring_vertical == (b@[6] % 2 == 1)
            &&& h.has_prg_ram_battery == (b@[6] & 2 != 0)
            &&& h.contain_trainer_data == (b@[6] & 4 != 0)
            &&& h.use_hardwaired_4_screen_mirroring == (b@[6] & 8 != 0)
            &&& h.prg_wram_size == (if b@[8] == 0 { 1 } else { b@[8] as int }) * 8192
        },
{
    assert(b@.subrange(0, 4) =~= seq![0x4Eu8, 0x45, 0x53, 0x1A]);
    crate::bits::lemma_byte_bits_low(b@[6]);
    crate::bits::lemma_low_bits(b@[6]);
}

/// A NES 2.0 header (bits 2-3 of byte 7 equal to 2) with the magic bytes is
/// accepted whatever byte 9 holds, and gives 12-bit ROM sizes (the low
/// nibble of byte 9 above byte 4 for PRG, the high nibble above byte 5 for
/// CHR), a 12-bit mapper number (low nibble of byte 8, then the high nibbles
/// of bytes 7 and 6), the submapper from the high nibble of byte 8, and RAM
/// sizes of 64 bytes shifted left by the nibbles of bytes 10 and 11 (none
/// for a zero nibble).
pub proof fn lemma_nes2_header(b: [u8; 16])
    requires
        b@[0] == 0x4E && b@[1] == 0x45 && b@[2] == 0x53 && b@[3] == 0x1A,
        b@[7] / 4 % 4 == 2,
    ensures
        is_valid_header(b),
        ({
            let h = decoded_header(b);
            &&& h.prg_rom_size == (b@[9] & 0xF) as int * 256 + b@[4]
            &&& h.chr_rom_size == (b@[9] >> 4u8) as int * 256 + b@[5]
            &&& h.mapper_id == (b@[8] & 0xF) as int * 256 + (b@[7] >> 4u8) as int * 16 + (b@[6] >> 4u8)
            &&& h.submapper_id == b@[8] >> 4u8
            &&& h.prg_wram_size == shifted_size(b@[10] & 0xF)
            &&& h.prg_sram_size == shifted_size(b@[10] >> 4u8)
            &&& h.chr_wram_size == shifted_size(b@[11] & 0xF)
            &&& h.chr_sram_size == shifted_size(b@[11] >> 4u8)
            &&& h.hardwired_mirroring_vertical == (b@[6] & 1 != 0)
        }),
{
    assert(b@.subrange(0, 4) =~= seq![0x4Eu8, 0x45, 0x53, 0x1A]);
    lemma_byte_bits_low(b@[7]);
    lemma_byte_bits_low(b@[6]);
    crate::bits::lemma_low_bits(b@[7]);
    crate::bits::lemma_byte_sign(b@[6]);
    lemma_nibbles(b@[6]);
    lemma_nibbles(b@[7]);
    lemma_nibbles(b@[8]);
    lemma_nibbles(b@[9]);
    lemma_nibbles(b@[10]);
    lemma_nibbles(b@[11]);
    assert(ines2_identifier(b) == 2);
}

} // verus!
