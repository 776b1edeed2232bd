//! The cartridge: PRG-ROM, CHR-ROM and the nametable mirroring mode,
//! loaded from an iNES image.
use vstd::prelude::*;

verus! {

/// How the two physical nametable banks cover the four logical slots.
#[allow(non_camel_case_types)]
#[derive(Clone, Copy, Debug, PartialEq, Eq, Structural)]
pub enum Mirroring {
    VERTICAL,
    HORIZONTAL,
    FOUR_SCREEN,
}

/// Why an iNES image was rejected.
#[derive(Clone, Copy, Debug, PartialEq, Eq, Structural)]
pub enum RomError {
    /// The four magic bytes are wrong or the header is cut short.
    NotInes,
    /// The header announces the NES 2.0 format.
    Nes2NotSupported,
    /// PRG-ROM is not 16 KiB or 32 KiB.
    BadPrgSize,
    /// CHR-ROM is not 8 KiB.
    BadChrSize,
    /// The image ends before the announced ROM data does.
    Truncated,
}

/// A loaded cartridge.
pub struct Rom {
    pub prg_rom: Vec<u8>,
    pub chr_rom: Vec<u8>,
    pub screen_mirroring: Mirroring,
}

/// The iNES magic: the bytes "NES" followed by 0x1A.
pub open spec fn ines_magic_ok(raw: Seq<u8>) -> bool {
    raw.len() >= 16 && raw[0] == 0x4Eu8 && raw[1] == 0x45u8 && raw[2] == 0x53u8 && raw[3] == 0x1Au8
}

/// Where PRG-ROM starts: past the header and, when header bit 2 of byte 6
/// announces one, past a 512-byte trainer.
pub open spec fn prg_start(raw: Seq<u8>) -> int {
    if raw[6] & 0x04 != 0 {
        16int + 512
    } else {
        16int
    }
}

/// The announced PRG-ROM size in bytes.
pub open spec fn prg_size(raw: Seq<u8>) -> int {
    raw[4] * 0x4000
}

/// The announced CHR-ROM size in bytes.
pub open spec fn chr_size(raw: Seq<u8>) -> int {
    raw[5] * 0x2000
}

/// The mirroring mode the header announces: bit 3 of byte 6 selects
/// four-screen, else bit 0 selects vertical over horizontal.
pub open spec fn header_mirroring(raw: Seq<u8>) -> Mirroring {
    if raw[6] & 0x08 != 0 {
        Mirroring::FOUR_SCREEN
    } else if raw[6] & 0x01 != 0 {
        Mirroring::VERTICAL
    } else {
        Mirroring::HORIZONTAL
    }
}

/// Everything `Rom::new` demands of an image: intact magic, iNES 1.0,
/// a 16 or 32 KiB PRG-ROM, an 8 KiB CHR-ROM, and no missing data.
pub open spec fn ines_ok(raw: Seq<u8>) -> bool {
    &&& ines_magic_ok(raw)
    &&& (raw[7] >> 2) & 0x03 == 0
    &&& (raw[4] == 1 || raw[4] == 2)
    &&& raw[5] == 1
    &&& raw.len() >= prg_start(raw) + prg_size(raw) + chr_size(raw)
}

impl Rom {
    /// A well-formed cartridge: a 16 or 32 KiB PRG-ROM and an 8 KiB CHR-ROM.
    pub open spec fn inv(self) -> bool {
        &&& (self.prg_rom@.len() == 0x4000 || self.prg_rom@.len() == 0x8000)
        &&& self.chr_rom@.len() == 0x2000
    }

    /// Parses an iNES image into a cartridge.
    pub fn new(raw: &Vec<u8>) -> (r: Result<Rom, RomError>)
        ensures
            r is Ok <==> ines_ok(raw@),
            r matches Ok(rom) ==> {
                &&& rom.inv()
                &&& rom.prg_rom@ == raw@.subrange(prg_start(raw@), prg_start(raw@) + prg_size(raw@))
                &&& rom.chr_rom@ == raw@.subrange(
                    prg_start(raw@) + prg_size(raw@),
                    prg_start(raw@) + prg_size(raw@) + chr_size(raw@),
                )
                &&& rom.screen_mirroring == header_mirroring(raw@)
            },
    {
        if raw.len() < 16 {
            return Err(RomError::NotInes);
        }
        if !(raw[0] == 0x4E && raw[1] == 0x45 && raw[2] == 0x53 && raw[3] == 0x1A) {
            return Err(RomError::NotInes);
        }
        if (raw[7] >> 2) & 0x03 != 0 {
            return Err(RomError::Nes2NotSupported);
        }
        if !(raw[4] == 1 || raw[4] == 2) {
            return Err(RomError::BadPrgSize);
        }
        if raw[5] != 1 {
            return Err(RomError::BadChrSize);
        }
        let prg_len: usize = (raw[4] as usize) * 0x4000;
        let chr_len: usize = (raw[5] as usize) * 0x2000;
        let start: usize = if raw[6] & 0x04 != 0 {
            16 + 512
        } else {
            16
        };
        if raw.len() < start + prg_len + chr_len {
            return Err(RomError::Truncated);
        }
        let mut prg_rom: Vec<u8> = Vec::new();
        let mut i: usize = 0;
        while i < prg_len
            invariant
                i <= prg_len,
                raw@.len() <= usize::MAX,
                start + prg_len <= raw@.len(),
                prg_rom@ =~= raw@.subrange(start as int, start + i),
            decreases prg_len - i,
        {
            prg_rom.push(raw[start + i]);
            i = i + 1;
        }
        let mut chr_rom: Vec<u8> = Vec::new();
        let mut j: usize = 0;
        while j < chr_len
            invariant
                j <= chr_len,
                raw@.len() <= usize::MAX,
                start + prg_len + chr_len <= raw@.len(),
                chr_rom@ =~= raw@.subrange(start + prg_len, start + prg_len + j),
            decreases chr_len - j,
        {
            chr_rom.push(raw[start + prg_len + j]);
            j = j + 1;
        }
        let screen_mirroring = if raw[6] & 0x08 != 0 {
            Mirroring::FOUR_SCREEN
        } else if raw[6] & 0x01 != 0 {
            Mirroring::VERTICAL
        } else {
            Mirroring::HORIZONTAL
        };
        Ok(Rom { prg_rom, chr_rom, screen_mirroring })
    }
}

} // verus!
