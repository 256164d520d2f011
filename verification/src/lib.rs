//! A cycle-accurate model of the MOS 6502 CPU and the NES picture
//! processing unit, together with the board glue that couples them.
//!
//! The CPU is driven in half-cycles through a bus pinout; the PPU is
//! driven one dot at a time.  The board owns both, the internal RAM and
//! VRAM, the cartridge ROM images and the DMA machinery, and runs the
//! master clock: three PPU dots per CPU cycle.

pub mod board;
pub mod cartidge;
pub mod cpu;
pub mod ppu;
pub mod tracelog;

use vstd::prelude::*;

verus! {

} // verus!
