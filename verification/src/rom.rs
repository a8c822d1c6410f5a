//! Cartridge images in the iNES format.

use vstd::prelude::*;
use vstd::slice::slice_subrange;
use vstd::slice::slice_to_vec;

verus! {

/// How the cartridge wires the two physical nametables into the four
/// logical ones.
#[allow(non_camel_case_types)]
#[derive(Clone, Copy, Debug, PartialEq, Eq, Structural)]
pub enum Mirroring {
    VERTICAL,
    HORIZONTAL,
    FOURSCREEN,
}

/// A parsed cartridge: program code, tile data, and how it is wired.
pub struct Rom {
    pub prg_rom: Vec<u8>,
    pub chr_rom: Vec<u8>,
    pub mapper: u8,
    pub screen_mirroring: Mirroring,
}

pub const PRG_ROM_PAGE_SIZE: usize = 16384;

pub const CHR_ROM_PAGE_SIZE: usize = 8192;

pub const HEADER_SIZE: usize = 16;

pub const TRAINER_SIZE: usize = 512;

/// The image starts with the sixteen bytes of a header that opens with
/// `N`, `E`, `S` and the end-of-file byte.
pub open spec fn has_ines_tag(raw: Seq<u8>) -> bool {
    &&& raw.len() >= HEADER_SIZE
    &&& raw[0] == 0x4e
    &&& raw[1] == 0x45
    &&& raw[2] == 0x53
    &&& raw[3] == 0x1a
}

/// The header announces the second version of the format.
pub open spec fn is_nes2(raw: Seq<u8>) -> bool {
    (raw[7] >> 2) & 0b11 == 0b10
}

/// The mapper number: the high nibble of byte 7 over that of byte 6.
pub open spec fn mapper_of(raw: Seq<u8>) -> u8 {
    (raw[7] & 0b1111_0000) | (raw[6] >> 4)
}

/// The nametable wiring that byte 6 announces.
pub open spec fn mirroring_of(raw: Seq<u8>) -> Mirroring {
    if raw[6] & 0b1000 != 0 {
        Mirroring::FOURSCREEN
    } else if raw[6] & 0b1 != 0 {
        Mirroring::VERTICAL
    } else {
        Mirroring::HORIZONTAL
    }
}

/// Where the program code starts: behind the header, and behind the
/// trainer where byte 6 announces one.
pub open spec fn prg_start(raw: Seq<u8>) -> int {
    if raw[6] & 0b100 != 0 {
        HEADER_SIZE + TRAINER_SIZE
    } else {
        HEADER_SIZE as int
    }
}

/// The length of the program code: byte 4 counts pages of 16 KiB.
pub open spec fn prg_len(raw: Seq<u8>) -> int {
    raw[4] * PRG_ROM_PAGE_SIZE
}

/// The length of the tile data: byte 5 counts pages of 8 KiB.
pub open spec fn chr_len(raw: Seq<u8>) -> int {
    raw[5] * CHR_ROM_PAGE_SIZE
}

/// The image holds all the bytes that its header announces.
pub open spec fn is_complete(raw: Seq<u8>) -> bool {
    prg_start(raw) + prg_len(raw) + chr_len(raw) <= raw.len()
}

impl Rom {
    /// Reads a cartridge image.
    ///
    /// An image without the format's tag, one of the format's second
    /// version, and one shorter than its header announces are turned down,
    /// in that order, each with a message of its own.
    pub fn new(raw: &Vec<u8>) -> (res: Result<Rom, String>)
        ensures
            !has_ines_tag(raw@) ==> res is Err && res->Err_0@
                == "File is not in iNES file format"@,
            has_ines_tag(raw@) && is_nes2(raw@) ==> res is Err && res->Err_0@
                == "NES2.0 format is not supported"@,
            has_ines_tag(raw@) && !is_nes2(raw@) && !is_complete(raw@) ==> res is Err
                && res->Err_0@ == "File is shorter than its header declares"@,
            has_ines_tag(raw@) && !is_nes2(raw@) && is_complete(raw@) ==> res is Ok && ({
                let rom = res->Ok_0;
                &&& rom.prg_rom@ == raw@.subrange(prg_start(raw@), prg_start(raw@) + prg_len(raw@))
                &&& rom.chr_rom@ == raw@.subrange(
                    prg_start(raw@) + prg_len(raw@),
                    prg_start(raw@) + prg_len(raw@) + chr_len(raw@),
                )
                &&& rom.mapper == mapper_of(raw@)
                &&& rom.screen_mirroring == mirroring_of(raw@)
            }),
    {
        if raw.len() < HEADER_SIZE || raw[0] != 0x4e || raw[1] != 0x45 || raw[2] != 0x53 || raw[3]
            != 0x1a {
            return Err("File is not in iNES file format".to_owned());
        }
        let mapper = (raw[7] & 0b1111_0000) | (raw[6] >> 4);

        let ines_ver = (raw[7] >> 2) & 0b11;
        if ines_ver == 0b10 {
            return Err("NES2.0 format is not supported".to_owned());
        }
        let four_screen = raw[6] & 0b1000 != 0;
        let vertical_mirroring = raw[6] & 0b1 != 0;
        let screen_mirroring = if four_screen {
            Mirroring::FOURSCREEN
        } else if vertical_mirroring {
            Mirroring::VERTICAL
        } else {
            Mirroring::HORIZONTAL
        };

        let prg_rom_size = raw[4] as usize * PRG_ROM_PAGE_SIZE;
        let chr_rom_size = raw[5] as usize * CHR_ROM_PAGE_SIZE;

        let skip_trainer = raw[6] & 0b100 != 0;

        let prg_rom_start = HEADER_SIZE + if skip_trainer {
            TRAINER_SIZE
        } else {
            0
        };
        let chr_rom_start = prg_rom_start + prg_rom_size;
        if raw.len() < chr_rom_start + chr_rom_size {
            return Err("File is shorter than its header declares".to_owned());
        }
        Ok(
            Rom {
                prg_rom: slice_to_vec(slice_subrange(raw.as_slice(), prg_rom_start, chr_rom_start)),
                chr_rom: slice_to_vec(
                    slice_subrange(raw.as_slice(), chr_rom_start, chr_rom_start + chr_rom_size),
                ),
                mapper: mapper,
                screen_mirroring: screen_mirroring,
            },
        )
    }
}

} // verus!
