//! Mapper 0 (NROM): fixed PRG and CHR images with no banking.

use vstd::prelude::*;

verus! {

/// The NROM board: a PRG-ROM image mirrored into the CPU window and a
/// fixed CHR image.  Address decoding itself lives on the board, which
/// is all mapper 0 needs.
pub struct MapperNROM {
    pub prg_rom: Vec<u8>,
    pub chr_rom: Vec<u8>,
}

impl MapperNROM {
    /// Wrap the two ROM images.
    pub fn new(prg_rom: Vec<u8>, chr_rom: Vec<u8>) -> (r: MapperNROM)
        ensures
            r.prg_rom@ == prg_rom@,
            r.chr_rom@ == chr_rom@,
    {
        MapperNROM { prg_rom, chr_rom }
    }
}

} // verus!
