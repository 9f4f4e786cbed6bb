//! What a cartridge hands to the console: program bytes, pattern bytes and
//! the way the two physical nametable banks are laid out; and the file
//! format that carries them.
//!
//! A cartridge file starts with a header of 16 bytes:
//!
//! ```text
//! 0-3  the tag "NES" and $1A
//! 4    number of 16 KiB banks of program memory
//! 5    number of 8 KiB banks of pattern memory
//! 6    bit 0: vertical mirroring; bit 2: a trainer of 512 bytes follows
//!      the header; bit 3: four-screen layout
//! 7    bits 2 and 3: version of the format, 0 for the one read here
//! ```
//!
//! Then come the trainer, if any, the program banks and the pattern banks.

use vstd::prelude::*;

verus! {

/// Arrangement of the two physical nametable banks over the four logical ones.
#[allow(non_camel_case_types)]
#[derive(Debug, Clone, Copy, PartialEq, Eq, Structural)]
pub enum Mirroring {
    VERTICAL,
    HORIZONTAL,
}

/// The contents of a cartridge with a fixed mapping.
#[derive(Debug)]
pub struct Rom {
    pub prg_rom: Vec<u8>,
    pub chr_rom: Vec<u8>,
    pub screen_mirroring: Mirroring,
}

/// Why a file is no cartridge that this console takes.
#[derive(Debug, Clone, Copy, PartialEq, Eq, Structural)]
pub enum RomError {
    /// The file is shorter than a header or does not start with the tag.
    NotInes,
    /// The header names a later version of the format.
    UnsupportedVersion,
    /// The cartridge brings video memory for four screens.
    FourScreen,
    /// The file is shorter than the banks that the header counts.
    Truncated,
}

pub const HEADER_SIZE: usize = 16;

pub const TRAINER_SIZE: usize = 512;

pub const PRG_ROM_PAGE_SIZE: usize = 16384;

pub const CHR_ROM_PAGE_SIZE: usize = 8192;

/// The contents of a cartridge as a mathematical value.
pub struct RomContents {
    pub prg_rom: Seq<u8>,
    pub chr_rom: Seq<u8>,
    pub screen_mirroring: Mirroring,
}

impl View for Rom {
    type V = RomContents;

    open spec fn view(&self) -> RomContents {
        RomContents {
            prg_rom: self.prg_rom@,
            chr_rom: self.chr_rom@,
            screen_mirroring: self.screen_mirroring,
        }
    }
}

/// Whether a file starts with a header and its tag.
pub open spec fn has_tag(raw: Seq<u8>) -> bool {
    &&& raw.len() >= HEADER_SIZE
    &&& raw[0] == 0x4E
    &&& raw[1] == 0x45
    &&& raw[2] == 0x53
    &&& raw[3] == 0x1A
}

/// Where the program banks start.
pub open spec fn prg_start(raw: Seq<u8>) -> int {
    if (raw[6] / 4) % 2 == 1 {
        HEADER_SIZE + TRAINER_SIZE
    } else {
        HEADER_SIZE as int
    }
}

/// Where the pattern banks start.
pub open spec fn chr_start(raw: Seq<u8>) -> int {
    prg_start(raw) + raw[4] * PRG_ROM_PAGE_SIZE
}

/// Where the pattern banks end.
pub open spec fn chr_end(raw: Seq<u8>) -> int {
    chr_start(raw) + raw[5] * CHR_ROM_PAGE_SIZE
}

/// What a file holds.
pub open spec fn parse(raw: Seq<u8>) -> Result<RomContents, RomError> {
    if !has_tag(raw) {
        Err(RomError::NotInes)
    } else if (raw[7] / 4) % 4 != 0 {
        Err(RomError::UnsupportedVersion)
    } else if (raw[6] / 8) % 2 == 1 {
        Err(RomError::FourScreen)
    } else if raw.len() < chr_end(raw) {
        Err(RomError::Truncated)
    } else {
        Ok(
            RomContents {
                prg_rom: raw.subrange(prg_start(raw), chr_start(raw)),
                chr_rom: raw.subrange(chr_start(raw), chr_end(raw)),
                screen_mirroring: if raw[6] % 2 == 1 {
                    Mirroring::VERTICAL
                } else {
                    Mirroring::HORIZONTAL
                },
            },
        )
    }
}

/// Copies a part of a file.
fn copy_range(raw: &Vec<u8>, start: usize, end: usize) -> (part: Vec<u8>)
    requires
        start <= end <= raw@.len(),
    ensures
        part@ == raw@.subrange(start as int, end as int),
{
    let mut part: Vec<u8> = Vec::with_capacity(end - start);
    let mut i = start;
    while i < end
        invariant
            start <= i <= end <= raw@.len(),
            part@ == raw@.subrange(start as int, i as int),
        decreases end - i,
    {
        part.push(raw[i]);
        assert(part@ =~= raw@.subrange(start as int, i + 1));
        i += 1;
    }
    part
}

impl Rom {
    /// Reads a cartridge file.
    pub fn new(raw: &Vec<u8>) -> (rom: Result<Rom, RomError>)
        ensures
            match (rom, parse(raw@)) {
                (Ok(rom), Ok(contents)) => rom@ == contents,
                (Err(found), Err(expected)) => found == expected,
                _ => false,
            },
    {
        if raw.len() < HEADER_SIZE || raw[0] != 0x4E || raw[1] != 0x45 || raw[2] != 0x53 || raw[3]
            != 0x1A {
            return Err(RomError::NotInes);
        }
        if (raw[7] / 4) % 4 != 0 {
            return Err(RomError::UnsupportedVersion);
        }
        if (raw[6] / 8) % 2 == 1 {
            return Err(RomError::FourScreen);
        }
        let screen_mirroring = if raw[6] % 2 == 1 {
            Mirroring::VERTICAL
        } else {
            Mirroring::HORIZONTAL
        };
        let prg_rom_size = raw[4] as usize * PRG_ROM_PAGE_SIZE;
        let chr_rom_size = raw[5] as usize * CHR_ROM_PAGE_SIZE;
        let prg_rom_start = HEADER_SIZE + if (raw[6] / 4) % 2 == 1 {
            TRAINER_SIZE
        } else {
            0
        };
        let chr_rom_start = prg_rom_start + prg_rom_size;
        if raw.len() < chr_rom_start + chr_rom_size {
            return Err(RomError::Truncated);
        }
        Ok(
            Rom {
                prg_rom: copy_range(raw, prg_rom_start, chr_rom_start),
                chr_rom: copy_range(raw, chr_rom_start, chr_rom_start + chr_rom_size),
                screen_mirroring,
            },
        )
    }
}

} // verus!
