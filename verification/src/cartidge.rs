//! Cartridge header decoding: the iNES family of byte layouts (archaic,
//! standard and 2.0) and the TNES layout, reduced to byte ranges for the
//! ROM images plus the board-relevant flags.

pub mod mapper;

use vstd::prelude::*;

verus! {

/// A half-open byte range into the cartridge image.
#[derive(Clone, Copy, PartialEq, Eq, Structural, Debug)]
pub struct ByteRange {
    pub start: usize,
    pub end: usize,
}

impl ByteRange {
    /// Number of bytes covered.
    pub fn len(&self) -> (r: usize)
        requires
            self.start <= self.end,
        ensures
            r == self.end - self.start,
    {
        self.end - self.start
    }
}

#[derive(Clone, Copy, PartialEq, Eq, Structural, Debug)]
pub enum CartidgeFileFormat {
    INESArchaic,
    INES,
    NES2,
    TNES,
}

#[derive(Clone, Copy, PartialEq, Eq, Structural, Debug)]
#[allow(non_camel_case_types)]
pub enum NameTableArrangement {
    HORIZONTAL,
    VERTICAL,
    MapperControlled,
}

/// The decoded cartridge: where each ROM image lies in the file, the
/// nametable arrangement and the board flags.
pub struct CartridgeData {
    pub trainer_range: Option<ByteRange>,
    pub prg_rom_range: ByteRange,
    pub chr_rom_range: Option<ByteRange>,
    pub playchoice_rom_range: Option<ByteRange>,
    pub playchoice_prom_range: Option<ByteRange>,
    pub nametable_arrangement: NameTableArrangement,
    pub nametable_alternate: bool,
    pub battery: bool,
    pub title: Option<String>,
    pub mapper: usize,
}

// The header magic: "NES\x1A" or "TNES".

pub open spec fn spec_is_nes_name(p: Seq<u8>) -> bool {
    p[0] == 0x4E && p[1] == 0x45 && p[2] == 0x53 && p[3] == 0x1A
}

pub open spec fn spec_is_tnes_name(p: Seq<u8>) -> bool {
    p[0] == 0x54 && p[1] == 0x4E && p[2] == 0x45 && p[3] == 0x53
}

/// Which layout the header declares.
pub open spec fn spec_format(p: Seq<u8>) -> CartidgeFileFormat {
    if spec_is_nes_name(p) {
        if p[7] & 0x0C == 0x08 {
            CartidgeFileFormat::NES2
        } else if p[7] & 0x0C == 0x00 {
            CartidgeFileFormat::INES
        } else {
            CartidgeFileFormat::INESArchaic
        }
    } else {
        CartidgeFileFormat::TNES
    }
}

/// The TNES mapper ids this decoder knows, and their iNES equivalents.
pub open spec fn spec_tnes_mapper(b: u8) -> Option<usize> {
    if b == 0 {
        Some(0usize)
    } else if b == 1 {
        Some(1usize)
    } else if b == 2 {
        Some(9usize)
    } else if b == 3 {
        Some(4usize)
    } else if b == 4 {
        Some(10usize)
    } else if b == 5 {
        Some(5usize)
    } else if b == 6 {
        Some(2usize)
    } else if b == 7 {
        Some(3usize)
    } else if b == 9 {
        Some(7usize)
    } else if b == 31 {
        Some(86usize)
    } else {
        None
    }
}

/// The exponent-multiplier PRG/CHR size encoding of NES 2.0.
pub open spec fn spec_exp_size(base: u8) -> int {
    (1usize << ((base / 4) as usize)) * ((base % 4) * 2 + 1)
}

/// PRG-ROM byte count for each layout.
pub open spec fn spec_prg_size(p: Seq<u8>) -> int {
    match spec_format(p) {
        CartidgeFileFormat::NES2 => if p[9] & 0x0F == 0x0F {
            spec_exp_size(p[4])
        } else {
            16384 * (p[4] + ((p[9] & 0x0F) as int) * 256)
        },
        CartidgeFileFormat::TNES => 8192 * p[5],
        _ => 16384 * p[4],
    }
}

/// CHR-ROM byte count for each layout; zero means CHR-RAM is used.
pub open spec fn spec_chr_size(p: Seq<u8>) -> int {
    match spec_format(p) {
        CartidgeFileFormat::NES2 => if (p[9] >> 4u8) == 0x0F {
            spec_exp_size(p[5])
        } else {
            8192 * (p[5] + ((p[9] >> 4u8) as int) * 256)
        },
        CartidgeFileFormat::TNES => 8192 * p[6],
        _ => 8192 * p[5],
    }
}

/// Whether the header declares a 512-byte trainer before the PRG image.
pub open spec fn spec_has_trainer(p: Seq<u8>) -> bool {
    spec_format(p) != CartidgeFileFormat::TNES && (p[6] & 0x04) > 0
}

/// The mapper number for each layout.
pub open spec fn spec_mapper(p: Seq<u8>) -> int {
    match spec_format(p) {
        CartidgeFileFormat::INESArchaic => (p[6] >> 4u8) as int,
        CartidgeFileFormat::INES => if p[12] == 0 && p[13] == 0 && p[14] == 0 && p[15] == 0 {
            ((p[6] >> 4u8) | (p[7] & 0xF0)) as int
        } else {
            (p[6] >> 4u8) as int
        },
        CartidgeFileFormat::NES2 => (((p[6] >> 4u8) | (p[7] & 0xF0)) as int) + (((p[8]
            & 0x0F) as int) * 256),
        CartidgeFileFormat::TNES => spec_tnes_mapper(p[4]).unwrap() as int,
    }
}

pub open spec fn spec_mirroring(p: Seq<u8>) -> NameTableArrangement {
    if spec_format(p) == CartidgeFileFormat::TNES {
        if p[8] == 0 {
            NameTableArrangement::MapperControlled
        } else if p[8] == 1 {
            NameTableArrangement::HORIZONTAL
        } else {
            NameTableArrangement::VERTICAL
        }
    } else {
        if p[6] & 0x01 == 0 {
            NameTableArrangement::HORIZONTAL
        } else {
            NameTableArrangement::VERTICAL
        }
    }
}

pub open spec fn spec_battery(p: Seq<u8>) -> bool {
    if spec_format(p) == CartidgeFileFormat::TNES {
        p[9] != 0
    } else {
        (p[6] & 0x02) > 0
    }
}

pub open spec fn spec_nametable_alternate(p: Seq<u8>) -> bool {
    spec_format(p) != CartidgeFileFormat::TNES && (p[6] & 0x08) > 0
}

/// A header this decoder accepts: long enough, carrying one of the two
/// magics, with a known mapper id if TNES, and with NES 2.0
/// exponent-form sizes small enough to count in a usize.
pub open spec fn spec_valid_cartridge(p: Seq<u8>) -> bool {
    &&& p.len() >= 16
    &&& (spec_is_nes_name(p) || spec_is_tnes_name(p))
    &&& (spec_format(p) == CartidgeFileFormat::TNES ==> spec_tnes_mapper(p[4]) is Some)
    &&& (spec_format(p) == CartidgeFileFormat::NES2 && p[9] & 0x0F == 0x0F ==> p[4] / 4 < 28)
    &&& (spec_format(p) == CartidgeFileFormat::NES2 && (p[9] >> 4u8) == 0x0F ==> p[5] / 4 < 28)
}

/// The NES 2.0 exponent-multiplier size: 2^exponent times an odd
/// multiplier, both packed into one byte.
fn exp_size(base: u8) -> (r: usize)
    requires
        base / 4 < 28,
    ensures
        r == spec_exp_size(base),
        r <= 0x38000000,
{
    let ee = (base / 4) as usize;
    let mm = ((base % 4) * 2 + 1) as usize;
    proof {
        let e = ee;
        assert(e < 28 ==> (1usize << e) <= 0x08000000) by (bit_vector);
        assert((1usize << e) * mm <= 0x08000000 * 7) by (nonlinear_arith)
            requires
                (1usize << e) <= 0x08000000 && 0 <= (1usize << e) && 0 <= mm && mm <= 7,
        ;
    }
    (1usize << ee) * mm
}

impl CartridgeData {
    /// Decode a cartridge header the layout of which this decoder
    /// accepts (see `spec_valid_cartridge`); `try_decode` screens
    /// arbitrary bytes first.
    pub fn decode(program: &[u8]) -> (r: CartridgeData)
        requires
            spec_valid_cartridge(program@),
        ensures
            r.trainer_range == (if spec_has_trainer(program@) {
                Some(ByteRange { start: 16, end: 528 })
            } else {
                Option::<ByteRange>::None
            }),
            r.prg_rom_range.start == 16 + (if spec_has_trainer(program@) {
                512int
            } else {
                0int
            }),
            r.prg_rom_range.end == r.prg_rom_range.start + spec_prg_size(program@),
            spec_chr_size(program@) == 0 ==> r.chr_rom_range is None,
            spec_chr_size(program@) != 0 ==> r.chr_rom_range is Some
                && r.chr_rom_range->Some_0.start == r.prg_rom_range.end
                && r.chr_rom_range->Some_0.end == r.prg_rom_range.end + spec_chr_size(program@),
            r.playchoice_rom_range is None,
            r.playchoice_prom_range is None,
            r.title is None,
            r.mapper == spec_mapper(program@),
            r.nametable_arrangement == spec_mirroring(program@),
            r.battery == spec_battery(program@),
            r.nametable_alternate == spec_nametable_alternate(program@),
    {
        let byte0 = program[0];
        let byte1 = program[1];
        let byte2 = program[2];
        let byte3 = program[3];
        let byte4 = program[4];
        let byte5 = program[5];
        let byte6 = program[6];
        let byte7 = program[7];
        let byte8 = program[8];
        let byte9 = program[9];

        let is_nes_name = byte0 == 0x4E && byte1 == 0x45 && byte2 == 0x53 && byte3 == 0x1A;
        let format = if is_nes_name {
            if byte7 & 0x0C == 0x08 {
                CartidgeFileFormat::NES2
            } else if byte7 & 0x0C == 0x00 {
                CartidgeFileFormat::INES
            } else {
                CartidgeFileFormat::INESArchaic
            }
        } else {
            CartidgeFileFormat::TNES
        };

        let prg_size: usize = match format {
            CartidgeFileFormat::NES2 => {
                let msb = byte9 & 0x0F;
                if msb == 0x0F {
                    exp_size(byte4)
                } else {
                    16384 * (byte4 as usize + (msb as usize) * 256)
                }
            },
            CartidgeFileFormat::TNES => 8192 * (byte5 as usize),
            _ => 16384 * (byte4 as usize),
        };
        let chr_size: usize = match format {
            CartidgeFileFormat::NES2 => {
                let msb = byte9 >> 4u8;
                if msb == 0x0F {
                    exp_size(byte5)
                } else {
                    8192 * (byte5 as usize + (msb as usize) * 256)
                }
            },
            CartidgeFileFormat::TNES => 8192 * (byte6 as usize),
            _ => 8192 * (byte5 as usize),
        };
        proof {
            assert(prg_size <= 0x40000000 && chr_size <= 0x40000000);
        }

        let has_trainer = match format {
            CartidgeFileFormat::TNES => false,
            _ => (byte6 & 0x04) > 0,
        };

        let mut offset: usize = 16;
        let trainer_range = if has_trainer {
            let begin = offset;
            offset = offset + 512;
            Some(ByteRange { start: begin, end: offset })
        } else {
            None
        };

        let prg_rom_range = ByteRange { start: offset, end: offset + prg_size };
        offset = offset + prg_size;

        let chr_rom_range = if chr_size == 0 {
            // CHR-RAM is used instead.
            None
        } else {
            let begin = offset;
            offset = offset + chr_size;
            Some(ByteRange { start: begin, end: offset })
        };

        let mapper: usize = match format {
            CartidgeFileFormat::INESArchaic => (byte6 >> 4u8) as usize,
            CartidgeFileFormat::INES => {
                let byte12 = program[12];
                let byte13 = program[13];
                let byte14 = program[14];
                let byte15 = program[15];
                if byte12 == 0 && byte13 == 0 && byte14 == 0 && byte15 == 0 {
                    ((byte6 >> 4u8) | (byte7 & 0xF0)) as usize
                } else {
                    (byte6 >> 4u8) as usize
                }
            },
            CartidgeFileFormat::NES2 => ((byte6 >> 4u8) | (byte7 & 0xF0)) as usize + ((byte8
                & 0x0F) as usize) * 256,
            CartidgeFileFormat::TNES => {
                if byte4 == 0 {
                    0
                } else if byte4 == 1 {
                    1
                } else if byte4 == 2 {
                    9
                } else if byte4 == 3 {
                    4
                } else if byte4 == 4 {
                    10
                } else if byte4 == 5 {
                    5
                } else if byte4 == 6 {
                    2
                } else if byte4 == 7 {
                    3
                } else if byte4 == 9 {
                    7
                } else {
                    // The only remaining known TNES mapper id.
                    31
                }
            },
        };
        let mapper: usize = if matches!(format, CartidgeFileFormat::TNES) && mapper == 31 {
            86
        } else {
            mapper
        };

        let nametable_arrangement = match format {
            CartidgeFileFormat::TNES => {
                if byte8 == 0 {
                    NameTableArrangement::MapperControlled
                } else if byte8 == 1 {
                    NameTableArrangement::HORIZONTAL
                } else {
                    NameTableArrangement::VERTICAL
                }
            },
            _ => {
                if byte6 & 0x01 == 0 {
                    NameTableArrangement::HORIZONTAL
                } else {
                    NameTableArrangement::VERTICAL
                }
            },
        };

        let battery = match format {
            CartidgeFileFormat::TNES => byte9 != 0,
            _ => (byte6 & 0x02) > 0,
        };
        let nametable_alternate = match format {
            CartidgeFileFormat::TNES => false,
            _ => (byte6 & 0x08) > 0,
        };

        CartridgeData {
            trainer_range,
            prg_rom_range,
            chr_rom_range,
            playchoice_rom_range: None,
            playchoice_prom_range: None,
            nametable_arrangement,
            nametable_alternate,
            battery,
            title: None,
            mapper,
        }
    }

    /// Screen arbitrary bytes: decode any header this decoder accepts
    /// and reject everything else.
    pub fn try_decode(program: &[u8]) -> (r: Option<CartridgeData>)
        ensures
            r is Some <==> spec_valid_cartridge(program@),
            // The payload carries exactly what `decode` guarantees.
            r is Some ==> ({
                let c = r->Some_0;
                c.trainer_range == (if spec_has_trainer(program@) {
                    Some(ByteRange { start: 16, end: 528 })
                } else {
                    Option::<ByteRange>::None
                }) && c.prg_rom_range.start == 16 + (if spec_has_trainer(program@) {
                    512int
                } else {
                    0int
                }) && c.prg_rom_range.end == c.prg_rom_range.start + spec_prg_size(program@) && (
                spec_chr_size(program@) == 0 ==> c.chr_rom_range is None) && (spec_chr_size(
                    program@,
                ) != 0 ==> c.chr_rom_range is Some && c.chr_rom_range->Some_0.start
                    == c.prg_rom_range.end && c.chr_rom_range->Some_0.end == c.prg_rom_range.end
                    + spec_chr_size(program@)) && c.playchoice_rom_range is None
                    && c.playchoice_prom_range is None && c.title is None && c.mapper
                    == spec_mapper(program@) && c.nametable_arrangement == spec_mirroring(program@)
                    && c.battery == spec_battery(program@) && c.nametable_alternate
                    == spec_nametable_alternate(program@)
            }),
    {
        if program.len() < 16 {
            return None;
        }
        let byte0 = program[0];
        let byte1 = program[1];
        let byte2 = program[2];
        let byte3 = program[3];
        let byte4 = program[4];
        let byte5 = program[5];
        let byte7 = program[7];
        let byte9 = program[9];
        let is_nes_name = byte0 == 0x4E && byte1 == 0x45 && byte2 == 0x53 && byte3 == 0x1A;
        let is_tnes_name = byte0 == 0x54 && byte1 == 0x4E && byte2 == 0x45 && byte3 == 0x53;
        if !is_nes_name && !is_tnes_name {
            return None;
        }
        if !is_nes_name {
            let known = byte4 == 0 || byte4 == 1 || byte4 == 2 || byte4 == 3 || byte4 == 4
                || byte4 == 5 || byte4 == 6 || byte4 == 7 || byte4 == 9 || byte4 == 31;
            if !known {
                return None;
            }
        } else if byte7 & 0x0C == 0x08 {
            if (byte9 & 0x0F) == 0x0F && byte4 / 4 >= 28 {
                return None;
            }
            if (byte9 >> 4u8) == 0x0F && byte5 / 4 >= 28 {
                return None;
            }
        }
        Some(CartridgeData::decode(program))
    }
}

} // verus!
