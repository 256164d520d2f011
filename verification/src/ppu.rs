//! The picture processing unit: a dot-clocked pipeline producing a
//! 256 by 240 RGBA frame, with CPU-visible registers, background tile
//! fetching through the "loopy" scroll registers, sprite evaluation and
//! a per-scanline sprite pixel buffer.

use vstd::prelude::*;

verus! {

// True size of the rendering area, pre-render line included.
pub const DOTS_PER_SCANLINE: usize = 341;
pub const SCANLINES_PER_FRAME: usize = 262;
// The drawn region.
pub const DOTS_PER_IMAGE_ROW: usize = 256;
pub const SCANLINES_PER_IMAGE: usize = 240;

/// Bytes in one frame: 4 bytes of RGBA for each drawn dot.
pub const VIDEO_MEMORY_SIZE: usize = 245760;

pub const SYSTEM_PALETTE_BYTES: usize = 192;

/// Pending use of the video-memory bus.
#[derive(Clone, Copy, PartialEq, Eq, Structural, Debug)]
pub enum VRamManip {
    /// No action is to be taken.
    Idle,
    /// The cycle enabling the R signal; the byte arrives at the start of
    /// the cycle that returns to Idle.
    Read,
    /// The cycle enabling the W signal; the data goes out the same cycle.
    Write,
}

/// A 16-bit shift register feeding the pixel mux.
pub struct LoopyShiftRegister(pub u16);

impl LoopyShiftRegister {
    pub fn new() -> (r: LoopyShiftRegister)
        ensures
            r.0 == 0,
    {
        LoopyShiftRegister(0)
    }

    /// Load the next tile byte into the low half.
    pub fn set(&mut self, data: u8)
        ensures
            final(self).0 == (old(self).0 & 0xFF00) | (data as u16),
    {
        self.0 = (self.0 & 0xFF00) | (data as u16);
    }

    /// Shift one bit towards the output end.
    pub fn shift(&mut self)
        ensures
            final(self).0 == old(self).0 << 1u16,
    {
        self.0 = self.0 << 1u16;
    }

    /// The bit `offset` places below the output end.
    pub fn get(&self, offset: u8) -> (r: bool)
        requires
            offset < 16,
        ensures
            r == spec_shift_get(self.0, offset),
    {
        (self.0 & (0x8000u16 >> (offset as u16))) > 0
    }
}

pub open spec fn spec_shift_get(bits: u16, offset: u8) -> bool {
    (bits & (0x8000u16 >> (offset as u16))) > 0
}

/// The pixel byte the buffer keeps for one sprite pixel: 2 bits of
/// pattern, 2 of palette, the sprite-0 marker in bit 6 and the priority
/// in bit 7.
pub open spec fn spec_sprite_pixel_byte(
    lsb: u8,
    msb: u8,
    priority: u8,
    palette: u8,
    sprite_0: bool,
    i: u8,
) -> u8 {
    let lo = (lsb >> ((7 - i) as u8)) & 1;
    let hi = (msb >> ((7 - i) as u8)) & 1;
    (lo | (hi << 1u8)) | (palette << 2u8) | (priority << 7u8) | ((if sprite_0 {
        1u8
    } else {
        0u8
    }) << 6u8)
}

/// What one slot of the buffer holds after placing a sprite's eight
/// pixels at `x`: slots whose distance from `x` is below eight and which
/// held a transparent pixel take the new pixel; all others keep theirs.
pub open spec fn spec_pixel_buffer_place(
    data: Seq<u8>,
    x: u8,
    lsb: u8,
    msb: u8,
    priority: u8,
    palette: u8,
    sprite_0: bool,
    j: u8,
) -> u8 {
    let i = j.wrapping_sub(x);
    if i < 8 && data[j as int] & 3 == 0 {
        spec_sprite_pixel_byte(lsb, msb, priority, palette, sprite_0, i)
    } else {
        data[j as int]
    }
}

/// A byte with its bit order reversed.
pub open spec fn spec_reverse_bits(b: u8) -> u8 {
    ((b & 0x01) << 7u8) | ((b & 0x02) << 5u8) | ((b & 0x04) << 3u8) | ((b & 0x08) << 1u8) | ((b
        & 0x10) >> 1u8) | ((b & 0x20) >> 3u8) | ((b & 0x40) >> 5u8) | ((b & 0x80) >> 7u8)
}

/// Reverse the bit order of a byte (for horizontally flipped sprites).
pub fn reverse_bits(b: u8) -> (r: u8)
    ensures
        r == spec_reverse_bits(b),
{
    ((b & 0x01) << 7u8) | ((b & 0x02) << 5u8) | ((b & 0x04) << 3u8) | ((b & 0x08) << 1u8) | ((b
        & 0x10) >> 1u8) | ((b & 0x20) >> 3u8) | ((b & 0x40) >> 5u8) | ((b & 0x80) >> 7u8)
}

/// How the status-register writes treat the sprite-0-hit bit: the
/// overflow and vblank writes leave it alone; only the dedicated set and
/// clear operations change it.
pub proof fn lemma_status_hit_bit(s: u8, b: u8)
    requires
        b <= 1,
    ensures
        (((s & 0xDF) | (b << 5u8)) & 0x40) == (s & 0x40),
        (((s & 0x7F) | (b << 7u8)) & 0x40) == (s & 0x40),
        ((s & 0xBF) & 0x40) == 0,
        (((s & 0xBF) | 0x40) & 0x40) == 0x40,
{
    assert(b <= 1 ==> (((s & 0xDF) | (b << 5u8)) & 0x40) == (s & 0x40) && (((s & 0x7F) | (b
        << 7u8)) & 0x40) == (s & 0x40) && ((s & 0xBF) & 0x40) == 0 && (((s & 0xBF) | 0x40)
        & 0x40) == 0x40) by (bit_vector);
}

/// How the status-register writes treat the vblank bit.
pub proof fn lemma_status_vblank_bit(s: u8, b: u8)
    requires
        b <= 1,
    ensures
        b == 1 ==> (((s & 0x7F) | (b << 7u8)) & 0x80) != 0,
        b == 0 ==> (((s & 0x7F) | (b << 7u8)) & 0x80) == 0,
        ((s & 0xBF) & 0x80) == (s & 0x80),
        (((s & 0xDF) | (b << 5u8)) & 0x80) == (s & 0x80),
        (((s & 0xBF) | 0x40) & 0x80) == (s & 0x80),
{
    assert(b <= 1 ==> (b == 1 ==> (((s & 0x7F) | (b << 7u8)) & 0x80) != 0) && (b == 0 ==> (((s
        & 0x7F) | (b << 7u8)) & 0x80) == 0) && ((s & 0xBF) & 0x80) == (s & 0x80) && (((s & 0xDF)
        | (b << 5u8)) & 0x80) == (s & 0x80) && (((s & 0xBF) | 0x40) & 0x80) == (s & 0x80))
        by (bit_vector);
}

/// A frame position as a single dot index: scanline times 341 plus dot.
pub open spec fn spec_dot_index(p: Ppu) -> int {
    p.scanline * 341 + p.cycle
}

/// Frame cadence: counting positions as `spec_dot_index`, every dot
/// advance moves the index to its successor modulo 89342 — so a frame
/// has exactly 89342 dots — except that the skipped dot jumps from
/// index 89340 (dot 339 of the pre-render line, reached on odd frames
/// with background rendering on) straight to 0, making that frame one
/// dot, 89341, short.
pub proof fn lemma_frame_cadence(p: Ppu)
    requires
        p.wf(),
    ensures
        !p.spec_skip_dot() ==> p.spec_next_scanline() * 341 + p.spec_next_cycle() == (
        spec_dot_index(p) + 1) % 89342,
        p.spec_skip_dot() ==> spec_dot_index(p) == 89340 && p.spec_next_scanline() * 341
            + p.spec_next_cycle() == 0,
{
    if !p.spec_skip_dot() {
        if p.cycle + 1 < 341 {
            assert(spec_dot_index(p) + 1 == p.scanline * 341 + p.cycle + 1);
            assert(p.scanline * 341 <= 261 * 341) by (nonlinear_arith)
                requires
                    p.scanline <= 261,
            ;
            assert((spec_dot_index(p) + 1) % 89342 == spec_dot_index(p) + 1);
        } else {
            assert(p.cycle == 340);
            if p.scanline < 261 {
                assert(p.spec_next_scanline() == p.scanline + 1);
                assert((p.scanline + 1) * 341 == p.scanline * 341 + 341) by (nonlinear_arith);
                assert(p.scanline * 341 + 341 <= 261 * 341) by (nonlinear_arith)
                    requires
                        p.scanline <= 260,
                ;
                assert((spec_dot_index(p) + 1) % 89342 == spec_dot_index(p) + 1);
            } else {
                assert(p.scanline == 261);
                assert(spec_dot_index(p) == 261 * 341 + 340);
                assert((spec_dot_index(p) + 1) % 89342 == 0);
                assert(p.spec_next_scanline() == 0 && p.spec_next_cycle() == 0);
            }
        }
    } else {
        assert(spec_dot_index(p) == 261 * 341 + 339);
    }
}

/// The PPUADDR two-write identity: writing the high byte of a 16-bit
/// value (masked to six bits by the port) and then the low byte leaves
/// the address latch, and so the video-memory address, at the value
/// modulo the 14-bit address space.
pub proof fn lemma_ppuaddr_two_writes(v: u16)
    ensures
        ((((((v >> 8u16) as u8) & 0x3F) as u16) << 8u16) & 0xFF00) | (((v & 0x00FF) as u8) as u16)
            == v & 0x3FFF,
{
    assert(((((((v >> 8u16) as u8) & 0x3F) as u16) << 8u16) & 0xFF00) | (((v
        & 0x00FF) as u8) as u16) == v & 0x3FFF) by (bit_vector);
}

/// The per-scanline sprite pixel buffer.
pub struct PixelBuffer {
    pub data: [u8; 256],
}

impl PixelBuffer {
    pub fn new() -> (r: PixelBuffer)
        ensures
            forall|j: int| 0 <= j < 256 ==> r.data[j] == 0,
    {
        PixelBuffer { data: [0; 256] }
    }

    /// Place one sprite's eight pixels at `x`, wrapping at the right
    /// edge; pixels already opaque in the buffer win (OAM order wins on
    /// overlap).
    pub fn set(&mut self, x: u8, lsb: u8, msb: u8, priority: u8, palette: u8, sprite_0: bool)
        ensures
            forall|j: u8|
                #![auto]
                final(self).data[j as int] == spec_pixel_buffer_place(
                    old(self).data@,
                    x,
                    lsb,
                    msb,
                    priority,
                    palette,
                    sprite_0,
                    j,
                ),
    {
        let mut i: u8 = 0;
        while i < 8
            invariant
                i <= 8,
                forall|j: u8|
                    #![auto]
                    j.wrapping_sub(x) < i ==> self.data[j as int] == spec_pixel_buffer_place(
                        old(self).data@,
                        x,
                        lsb,
                        msb,
                        priority,
                        palette,
                        sprite_0,
                        j,
                    ),
                forall|j: u8| #![auto]
                    j.wrapping_sub(x) >= i ==> self.data[j as int] == old(self).data[j as int],
            decreases 8 - i,
        {
            let index = x.wrapping_add(i);
            proof {
                let xx = x;
                let ii = i;
                assert(xx.wrapping_add(ii).wrapping_sub(xx) == ii) by (bit_vector);
                assert(forall|j: u8, d: u8|
                    j.wrapping_sub(d) < 8 ==> d.wrapping_add(j.wrapping_sub(d)) == j)
                    by (bit_vector);
            }
            let lo = (lsb >> (7 - i)) & 1;
            let hi = (msb >> (7 - i)) & 1;
            let pixel = lo | (hi << 1u8);
            let existing_data_transparent = self.data[index as usize] & 3 == 0;
            if existing_data_transparent {
                let s0: u8 = if sprite_0 {
                    1
                } else {
                    0
                };
                self.data[index as usize] = pixel | (palette << 2u8) | (priority << 7u8) | (s0
                    << 6u8);
            }
            i = i + 1;
        }
    }

    /// The palette bits, priority bit and sprite-0 marker of one slot.
    pub fn get(&self, pixel: u8) -> (r: (u8, u8, bool))
        ensures
            r.0 == self.data[pixel as int] & 15,
            r.1 == self.data[pixel as int] >> 7u8,
            r.2 == ((self.data[pixel as int] & 0x40) > 0),
    {
        let data = self.data[pixel as usize];
        (data & 15, data >> 7u8, (data & 0x40) > 0)
    }

    /// Clear every slot to transparent.
    pub fn clear(&mut self)
        ensures
            forall|j: int| 0 <= j < 256 ==> final(self).data[j] == 0,
    {
        self.data = [0; 256];
    }
}

/// One sprite picked into secondary OAM during evaluation.
#[derive(Clone, Copy, PartialEq, Eq, Structural, Debug)]
pub struct EvaluatedSprite {
    pub x: u8,
    pub attrib: u8,
    /// Before the fetch this is the pattern-table address of the
    /// sprite's row; after the fetch it carries the fetched tile bits.
    pub tile: u16,
}

/// The PPU side of the bus: wires held between dot ticks.  `nmi` is
/// active-low; `cpu_control` strobes a CPU register access with
/// `cpu_rw`, `cpu_addr` (register index 0 to 7) and `cpu_data`;
/// `ppu_ale` latches the low address byte for the video-memory bus.
#[derive(Clone, Copy)]
pub struct PpuPinout {
    pub nmi: bool,
    pub cpu_control: bool,
    pub cpu_rw: bool,
    pub cpu_addr: u8,
    pub cpu_data: u8,
    pub ppu_address_data_low: u8,
    pub ppu_address_high: u8,
    pub ppu_r: bool,
    pub ppu_w: bool,
    pub ppu_sync: bool,
    pub ppu_ale: bool,
    /// Tells the outside world that a frame has just been completed;
    /// not a real pin on the original part.
    pub finished_frame: bool,
}

/// The picture processing unit.
pub struct Ppu {
    pub control_register: u8,
    pub mask_register: u8,
    pub status_register: u8,
    pub oam_address_register: u8,

    pub temp_address: u16,
    pub w_register: bool,
    pub fine_x_scroll: u8,

    pub vram_address: u16,
    pub vram_data: u8,
    pub vram_manip: VRamManip,

    pub next_nametable: u8,
    pub next_attribute: u8,
    pub next_tile_lsb: u8,
    pub next_tile_msb: u8,

    pub tile_msb_scroll: LoopyShiftRegister,
    pub tile_lsb_scroll: LoopyShiftRegister,
    pub attribute_msb_scroll: LoopyShiftRegister,
    pub attribute_lsb_scroll: LoopyShiftRegister,

    pub scanline: usize,
    pub cycle: usize,
    pub is_odd_frame: bool,
    pub internal_read_buffer: u8,

    pub oam_memory: [u8; 256],
    pub secondary_oam_buffer: [Option<EvaluatedSprite>; 8],
    pub oam_pixel_buffer: PixelBuffer,
    pub secondary_oam_buffer_count: usize,

    pub frame_palette_memory: [u8; 32],
    pub system_palette_memory: [u8; SYSTEM_PALETTE_BYTES],

    pub video_data: Vec<u8>,
}

// Register fields, as mathematical predicates over the register bytes.

pub open spec fn spec_nmi_enabled(control: u8) -> bool {
    (control & 0x80) > 0
}

pub open spec fn spec_sprite_size(control: u8) -> bool {
    (control & 0x20) > 0
}

pub open spec fn spec_bg_rendering(mask: u8) -> bool {
    (mask & 0x08) > 0
}

pub open spec fn spec_sprite_rendering(mask: u8) -> bool {
    (mask & 0x10) > 0
}

pub open spec fn spec_rendering_enabled(mask: u8) -> bool {
    spec_bg_rendering(mask) || spec_sprite_rendering(mask)
}

pub open spec fn spec_vblank_flag(status: u8) -> bool {
    (status & 0x80) > 0
}

pub open spec fn spec_sprite_hit_flag(status: u8) -> bool {
    (status & 0x40) > 0
}

/// Palette RAM after a write: entry 0 of each 4-entry palette is
/// mirrored between the background and sprite halves, so a write to one
/// writes both.
/// The index an entry is mirrored to: entry 0 of each palette maps to
/// the same entry of the other half; every other entry maps to itself.
pub open spec fn spec_palette_mirror(index: int) -> int {
    if index % 4 == 0 {
        if index < 16 {
            index + 16
        } else {
            index - 16
        }
    } else {
        index
    }
}

pub open spec fn spec_palette_write(pal: Seq<u8>, index: int, value: u8) -> Seq<u8> {
    pal.update(index, value).update(spec_palette_mirror(index), value)
}

/// The palette-mirroring law: a write to an entry whose low two bits
/// are zero lands in both the background and the sprite half, 0x00 with
/// 0x10, 0x04 with 0x14, 0x08 with 0x18 and 0x0C with 0x1C.
pub proof fn lemma_palette_mirroring(pal: Seq<u8>, index: int, value: u8)
    requires
        pal.len() == 32,
        0 <= index < 32,
        index % 4 == 0,
    ensures
        spec_palette_write(pal, index, value)[index] == value,
        spec_palette_write(pal, index, value)[spec_palette_mirror(index)] == value,
        spec_palette_mirror(index) != index && 0 <= spec_palette_mirror(index) < 32,
        // Every other entry is untouched.
        forall|j: int|
            0 <= j < 32 && j != index && j != spec_palette_mirror(index) ==> spec_palette_write(
                pal,
                index,
                value,
            )[j] == pal[j],
{
}

/// The coarse-X increment of the scroll address: wraps at 31 into the
/// horizontally adjacent nametable.
pub open spec fn spec_increment_x(v: u16) -> u16 {
    if v & 0x001F == 31 {
        (v & !0x001F) ^ 0x0400
    } else {
        v.wrapping_add(1)
    }
}

/// The Y increment of the scroll address: fine Y, then coarse Y with a
/// vertical nametable toggle at 29; coarse Y 30 and 31 wrap without a
/// toggle.
pub open spec fn spec_increment_y(v: u16) -> u16 {
    if (v & 0x7000) != 0x7000 {
        v.wrapping_add(0x1000)
    } else {
        let v0 = v & !0x7000;
        let y = (v0 & 0x03E0) >> 5u16;
        if y == 29 {
            (v0 ^ 0x0800) & !0x03E0
        } else if y == 31 {
            v0 & !0x03E0
        } else {
            (v0 & !0x03E0) | (((y + 1) as u16) << 5u16)
        }
    }
}

impl Ppu {
    /// Structural soundness: the frame buffer has its fixed size and
    /// the counters and fine-X stay in range.
    pub open spec fn wf(&self) -> bool {
        self.video_data@.len() == VIDEO_MEMORY_SIZE && self.cycle < DOTS_PER_SCANLINE
            && self.scanline < SCANLINES_PER_FRAME && self.fine_x_scroll < 8
    }

    /// A zeroed PPU at the start of the pre-render scanline, with an
    /// opaque white frame buffer.
    pub fn new() -> (r: Ppu)
        ensures
            r.wf(),
            r.control_register == 0 && r.mask_register == 0 && r.status_register == 0,
            r.oam_address_register == 0,
            r.temp_address == 0 && !r.w_register && r.fine_x_scroll == 0,
            r.vram_address == 0 && r.vram_data == 0 && r.vram_manip == VRamManip::Idle,
            r.scanline == 261 && r.cycle == 0 && !r.is_odd_frame,
            r.internal_read_buffer == 0,
            forall|j: int| 0 <= j < 256 ==> r.oam_memory[j] == 0,
            forall|j: int| 0 <= j < 8 ==> r.secondary_oam_buffer[j] is None,
            r.secondary_oam_buffer_count == 0,
            forall|j: int| 0 <= j < 32 ==> r.frame_palette_memory[j] == 0,
            // The frame buffer starts opaque white: every byte 0xFF,
            // the alpha bytes included.
            forall|j: int| 0 <= j < VIDEO_MEMORY_SIZE ==> r.video_data@[j] == 255,
    {
        let mut video_data: Vec<u8> = Vec::new();
        while video_data.len() < VIDEO_MEMORY_SIZE
            invariant
                video_data@.len() <= VIDEO_MEMORY_SIZE,
                forall|j: int| 0 <= j < video_data@.len() ==> video_data@[j] == 255,
            decreases VIDEO_MEMORY_SIZE - video_data@.len(),
        {
            video_data.push(255);
        }
        Ppu {
            control_register: 0,
            mask_register: 0,
            status_register: 0,
            oam_address_register: 0,
            temp_address: 0,
            w_register: false,
            fine_x_scroll: 0,
            vram_address: 0,
            vram_data: 0,
            vram_manip: VRamManip::Idle,
            next_nametable: 0,
            next_attribute: 0,
            next_tile_lsb: 0,
            next_tile_msb: 0,
            tile_msb_scroll: LoopyShiftRegister::new(),
            tile_lsb_scroll: LoopyShiftRegister::new(),
            attribute_msb_scroll: LoopyShiftRegister::new(),
            attribute_lsb_scroll: LoopyShiftRegister::new(),
            scanline: 261,
            cycle: 0,
            is_odd_frame: false,
            internal_read_buffer: 0,
            oam_memory: [0; 256],
            secondary_oam_buffer: [None; 8],
            oam_pixel_buffer: PixelBuffer::new(),
            secondary_oam_buffer_count: 0,
            frame_palette_memory: [0; 32],
            system_palette_memory: [0; 192],
            video_data,
        }
    }

    /// Install the 64-entry RGB system palette.
    pub fn set_palette(&mut self, data: &[u8; SYSTEM_PALETTE_BYTES])
        ensures
            *final(self) == (Ppu { system_palette_memory: *data, ..*old(self) }),
    {
        self.system_palette_memory = *data;
    }

    /// The frame buffer: 256 by 240 tightly packed RGBA bytes.
    pub fn video_data(&self) -> (r: &Vec<u8>)
        ensures
            r@ == self.video_data@,
    {
        &self.video_data
    }

    // -- Rendering helper functions --

    fn increment_x(&mut self)
        ensures
            *final(self) == (Ppu {
                vram_address: spec_increment_x(old(self).vram_address),
                ..*old(self)
            }),
    {
        if self.vram_address & 0x001F == 31 {
            self.vram_address = self.vram_address & !0x001F;
            self.vram_address = self.vram_address ^ 0x0400;
        } else {
            self.vram_address = self.vram_address.wrapping_add(1);
        }
    }

    fn increment_y(&mut self)
        ensures
            *final(self) == (Ppu {
                vram_address: spec_increment_y(old(self).vram_address),
                ..*old(self)
            }),
    {
        if (self.vram_address & 0x7000) != 0x7000 {
            // increment fine Y
            self.vram_address = self.vram_address.wrapping_add(0x1000);
        } else {
            self.vram_address = self.vram_address & !0x7000;  // fine Y = 0
            let y = (self.vram_address & 0x03E0) >> 5u16;  // coarse Y
            if y == 29 {
                // coarse Y = 0, switch vertical nametable
                self.vram_address = self.vram_address ^ 0x0800;
                self.vram_address = self.vram_address & !0x03E0;
            } else if y == 31 {
                // coarse Y = 0, nametable not switched
                self.vram_address = self.vram_address & !0x03E0;
            } else {
                // increment coarse Y
                proof {
                    let v0 = self.vram_address;
                    assert((v0 & 0x03E0) >> 5u16 < 32) by (bit_vector);
                }
                self.vram_address = (self.vram_address & !0x03E0) | ((y + 1) << 5u16);
            }
        }
    }

    // -- Rendering timing functions --

    pub open spec fn spec_is_fetch_scanline(&self) -> bool {
        self.scanline < 240 || self.scanline == 261
    }

    fn is_fetch_scanline(&self) -> (r: bool)
        ensures
            r == self.spec_is_fetch_scanline(),
    {
        self.scanline < 240 || self.scanline == 261
    }

    pub open spec fn spec_is_render_fetch_cycle(&self) -> bool {
        (1 <= self.cycle < 257 || 321 <= self.cycle < 337) && self.spec_is_fetch_scanline()
    }

    fn is_render_fetch_cycle(&self) -> (r: bool)
        ensures
            r == self.spec_is_render_fetch_cycle(),
    {
        ((self.cycle >= 1 && self.cycle < 257) || (self.cycle >= 321 && self.cycle < 337))
            && self.is_fetch_scanline()
    }

    pub open spec fn spec_is_render_cycle(&self) -> bool {
        self.scanline < 240 && self.cycle < 256
    }

    fn is_render_cycle(&self) -> (r: bool)
        ensures
            r == self.spec_is_render_cycle(),
    {
        self.scanline < 240 && self.cycle < 256
    }

    fn is_sprite_evaluation_cycle(&self) -> (r: bool)
        ensures
            r == (65 <= self.cycle < 257),
    {
        self.cycle >= 65 && self.cycle < 257
    }

    /// Starts at dot 258 because the first sprite's pattern byte is not
    /// addressed before the first cycle of the fetch window.
    fn is_sprite_fetch_cycle(&self) -> (r: bool)
        ensures
            r == (258 <= self.cycle < 322 && self.spec_is_fetch_scanline()),
    {
        (self.cycle >= 258 && self.cycle < 322) && self.is_fetch_scanline()
    }

    fn is_begin_vblank_cycle(&self) -> (r: bool)
        ensures
            r == (self.cycle == 1 && self.scanline == 241),
    {
        self.cycle == 1 && self.scanline == 241
    }

    fn is_end_vblank_cycle(&self) -> (r: bool)
        ensures
            r == (self.cycle == 1 && self.scanline == 261),
    {
        self.cycle == 1 && self.scanline == 261
    }

    fn is_rendering_enabled(&self) -> (r: bool)
        ensures
            r == spec_rendering_enabled(self.mask_register),
    {
        self.enabled_background_rendering() || self.enabled_sprite_rendering()
    }

    // -- loopy address helpers --

    fn set_course_x(&mut self, b: u8)
        ensures
            *final(self) == (Ppu {
                temp_address: (old(self).temp_address & !0x001F) | ((b as u16) & 0x001F),
                ..*old(self)
            }),
    {
        self.temp_address = (self.temp_address & !0x001F) | ((b as u16) & 0x001F);
    }

    fn set_fine_x(&mut self, b: u8)
        ensures
            *final(self) == (Ppu { fine_x_scroll: b, ..*old(self) }),
    {
        self.fine_x_scroll = b;
    }

    fn get_fine_x(&self) -> (r: u8)
        ensures
            r == self.fine_x_scroll,
    {
        self.fine_x_scroll
    }

    fn set_course_y(&mut self, b: u8)
        ensures
            *final(self) == (Ppu {
                temp_address: (old(self).temp_address & !0x03E0) | ((((b as u16) & 0x001F)
                    << 5u16) & 0x03E0),
                ..*old(self)
            }),
    {
        self.temp_address = (self.temp_address & !0x03E0) | ((((b as u16) & 0x001F) << 5u16)
            & 0x03E0);
    }

    fn set_fine_y(&mut self, b: u8)
        ensures
            *final(self) == (Ppu {
                temp_address: (old(self).temp_address & !0x7000) | ((((b as u16) & 0x0007)
                    << 12u16) & 0x7000),
                ..*old(self)
            }),
    {
        self.temp_address = (self.temp_address & !0x7000) | ((((b as u16) & 0x0007) << 12u16)
            & 0x7000);
    }

    // -- Register accessors and mutators --

    /// Advance the four background shift registers by one dot while
    /// background rendering is on.
    fn shift(&mut self)
        ensures
            *final(self) == (if spec_bg_rendering(old(self).mask_register) {
                Ppu {
                    tile_msb_scroll: LoopyShiftRegister(old(self).tile_msb_scroll.0 << 1u16),
                    tile_lsb_scroll: LoopyShiftRegister(old(self).tile_lsb_scroll.0 << 1u16),
                    attribute_msb_scroll: LoopyShiftRegister(
                        old(self).attribute_msb_scroll.0 << 1u16,
                    ),
                    attribute_lsb_scroll: LoopyShiftRegister(
                        old(self).attribute_lsb_scroll.0 << 1u16,
                    ),
                    ..*old(self)
                }
            } else {
                *old(self)
            }),
    {
        if self.enabled_background_rendering() {
            self.tile_msb_scroll.shift();
            self.tile_lsb_scroll.shift();
            self.attribute_msb_scroll.shift();
            self.attribute_lsb_scroll.shift();
        }
    }

    fn base_nametable_address(&self) -> (r: u8)
        ensures
            r == self.control_register & 0x03,
    {
        self.control_register & 0x03
    }

    fn vram_address_increment(&self) -> (r: u8)
        ensures
            r == (if (self.control_register & 0x04) > 0 {
                32u8
            } else {
                1u8
            }),
    {
        if (self.control_register & 0x04) > 0 {
            32
        } else {
            1
        }
    }

    fn sprite_pattern_table(&self) -> (r: u8)
        ensures
            r == (self.control_register & 0x08) >> 3u8,
            r <= 1,
    {
        proof {
            let c = self.control_register;
            assert((c & 0x08) >> 3u8 <= 1) by (bit_vector);
        }
        (self.control_register & 0x08) >> 3u8
    }

    fn background_pattern_table(&self) -> (r: u8)
        ensures
            r == (self.control_register & 0x10) >> 4u8,
            r <= 1,
    {
        proof {
            let c = self.control_register;
            assert((c & 0x10) >> 4u8 <= 1) by (bit_vector);
        }
        (self.control_register & 0x10) >> 4u8
    }

    fn sprite_size(&self) -> (r: bool)
        ensures
            r == spec_sprite_size(self.control_register),
    {
        (self.control_register & 0x20) > 0
    }

    fn master_slave_select(&self) -> (r: bool)
        ensures
            r == ((self.control_register & 0x40) > 0),
    {
        (self.control_register & 0x40) > 0
    }

    fn nmi_enabled(&self) -> (r: bool)
        ensures
            r == spec_nmi_enabled(self.control_register),
    {
        (self.control_register & 0x80) > 0
    }

    fn greyscale(&self) -> (r: bool)
        ensures
            r == ((self.mask_register & 0x01) > 0),
    {
        (self.mask_register & 0x01) > 0
    }

    fn show_background_left_bits(&self) -> (r: bool)
        ensures
            r == ((self.mask_register & 0x02) > 0),
    {
        (self.mask_register & 0x02) > 0
    }

    fn show_sprite_left_bits(&self) -> (r: bool)
        ensures
            r == ((self.mask_register & 0x04) > 0),
    {
        (self.mask_register & 0x04) > 0
    }

    fn enabled_background_rendering(&self) -> (r: bool)
        ensures
            r == spec_bg_rendering(self.mask_register),
    {
        (self.mask_register & 0x08) > 0
    }

    fn enabled_sprite_rendering(&self) -> (r: bool)
        ensures
            r == spec_sprite_rendering(self.mask_register),
    {
        (self.mask_register & 0x10) > 0
    }

    fn emphasize_red(&self) -> (r: bool)
        ensures
            r == ((self.mask_register & 0x20) > 0),
    {
        (self.mask_register & 0x20) > 0
    }

    fn emphasize_green(&self) -> (r: bool)
        ensures
            r == ((self.mask_register & 0x40) > 0),
    {
        (self.mask_register & 0x40) > 0
    }

    fn emphasize_blue(&self) -> (r: bool)
        ensures
            r == ((self.mask_register & 0x80) > 0),
    {
        (self.mask_register & 0x80) > 0
    }

    fn set_sprite_overflow(&mut self, status: bool)
        ensures
            *final(self) == (Ppu {
                status_register: (old(self).status_register & 0xDF) | ((if status {
                    1u8
                } else {
                    0u8
                }) << 5u8),
                ..*old(self)
            }),
    {
        let b: u8 = if status {
            1
        } else {
            0
        };
        self.status_register = (self.status_register & 0xDF) | (b << 5u8);
    }

    fn set_sprite_hit(&mut self)
        ensures
            *final(self) == (Ppu {
                status_register: (old(self).status_register & 0xBF) | 0x40,
                ..*old(self)
            }),
    {
        self.status_register = (self.status_register & 0xBF) | 0x40;
    }

    fn get_sprite_hit(&self) -> (r: bool)
        ensures
            r == spec_sprite_hit_flag(self.status_register),
    {
        (self.status_register & 0x40) > 0
    }

    fn clear_sprite_hit(&mut self)
        ensures
            *final(self) == (Ppu {
                status_register: old(self).status_register & 0xBF,
                ..*old(self)
            }),
    {
        self.status_register = self.status_register & 0xBF;
    }

    fn set_vblank_flag(&mut self, status: bool)
        ensures
            *final(self) == (Ppu {
                status_register: (old(self).status_register & 0x7F) | ((if status {
                    1u8
                } else {
                    0u8
                }) << 7u8),
                ..*old(self)
            }),
    {
        let b: u8 = if status {
            1
        } else {
            0
        };
        self.status_register = (self.status_register & 0x7F) | (b << 7u8);
    }

    fn get_frame_palette(&self, index: usize) -> (r: u8)
        requires
            index < 32,
        ensures
            r == self.frame_palette_memory[index as int],
    {
        self.frame_palette_memory[index]
    }

    /// One dot of the background fetch window, as a mathematical
    /// transition: the PPU state afterwards and the video-memory address
    /// to drive, if any.  Each 8-dot group fetches the nametable byte,
    /// the attribute byte and the two tile pattern bytes, reloads the
    /// shift registers and increments coarse X.
    pub open spec fn spec_render_fetch(&self) -> (Ppu, Option<u16>) {
        let v = self.vram_address;
        let period = (self.cycle - 1) % 8;
        if period == 0 {
            let p1 = Ppu {
                next_tile_msb: self.internal_read_buffer,
                tile_msb_scroll: LoopyShiftRegister(
                    (self.tile_msb_scroll.0 & 0xFF00) | (self.internal_read_buffer as u16),
                ),
                tile_lsb_scroll: LoopyShiftRegister(
                    (self.tile_lsb_scroll.0 & 0xFF00) | (self.next_tile_lsb as u16),
                ),
                attribute_msb_scroll: LoopyShiftRegister(
                    (self.attribute_msb_scroll.0 & 0xFF00) | ((0xFFu8 * ((self.next_attribute
                        >> 1u8) & 1)) as u16),
                ),
                attribute_lsb_scroll: LoopyShiftRegister(
                    (self.attribute_lsb_scroll.0 & 0xFF00) | ((0xFFu8 * (self.next_attribute
                        & 1)) as u16),
                ),
                ..*self
            };
            (p1, Some(0x2000 | (v & 0x0FFF)))
        } else if period == 2 {
            (
                Ppu { next_nametable: self.internal_read_buffer, ..*self },
                Some(0x23C0 | (v & 0x0C00) | ((v >> 4u16) & 0x38) | ((v >> 2u16) & 0x07)),
            )
        } else if period == 4 {
            let masked = v & 0x42;
            let xsel = (((masked >> 1u16) & 1) * 2) as u16;
            let ysel = (((masked >> 6u16) & 1) * 4) as u16;
            let attr = (self.internal_read_buffer >> ((xsel | ysel) as u8)) & 0x03;
            let table = ((self.control_register & 0x10) >> 4u8) as u16;
            (
                Ppu { next_attribute: attr, ..*self },
                Some(
                    (((table << 12u16) + ((self.next_nametable as u16) << 4u16) + ((v >> 12u16)
                        & 0x07)) as u16),
                ),
            )
        } else if period == 6 {
            let table = ((self.control_register & 0x10) >> 4u8) as u16;
            (
                Ppu { next_tile_lsb: self.internal_read_buffer, ..*self },
                Some(
                    (((table << 12u16) + ((self.next_nametable as u16) << 4u16) + ((v >> 12u16)
                        & 0x07) + 8) as u16),
                ),
            )
        } else if period == 7 {
            (Ppu { vram_address: spec_increment_x(v), ..*self }, None)
        } else {
            (*self, None)
        }
    }

    /// One dot of the background fetch window.
    fn render_fetch(&mut self) -> (r: Option<u16>)
        requires
            1 <= old(self).cycle,
        ensures
            *final(self) == old(self).spec_render_fetch().0,
            r == old(self).spec_render_fetch().1,
    {
        let v = self.vram_address;
        let v_cycle = self.cycle - 1;
        let cycle_fetch_period = v_cycle % 8;
        if cycle_fetch_period == 0 {
            // Read in the pattern MSB just in time.
            self.next_tile_msb = self.internal_read_buffer;

            self.tile_msb_scroll.set(self.next_tile_msb);
            self.tile_lsb_scroll.set(self.next_tile_lsb);
            // Extend the attribute bits across the whole shift register.
            proof {
                let a = self.next_attribute;
                assert((a >> 1u8) & 1 <= 1 && (a & 1) <= 1) by (bit_vector);
            }
            self.attribute_msb_scroll.set(0xFF * ((self.next_attribute >> 1u8) & 1));
            self.attribute_lsb_scroll.set(0xFF * (self.next_attribute & 1));

            let nametable_address = 0x2000 | (v & 0x0FFF);
            Some(nametable_address)
        } else if cycle_fetch_period == 2 {
            self.next_nametable = self.internal_read_buffer;

            let attribute_address = 0x23C0 | (v & 0x0C00) | ((v >> 4u16) & 0x38) | ((v >> 2u16)
                & 0x07);
            Some(attribute_address)
        } else if cycle_fetch_period == 4 {
            self.next_attribute = self.internal_read_buffer;
            // The attribute byte holds four 2-bit palette selections;
            // bit 1 of coarse X and bit 1 of coarse Y pick one of them.
            let masked_address = self.vram_address & 0x42;
            proof {
                let m = masked_address;
                assert((m >> 1u16) & 1 <= 1 && (m >> 6u16) & 1 <= 1) by (bit_vector);
                assert(forall|a: u16, b: u16| a <= 2 && b <= 4 ==> (a | b) < 8) by (bit_vector);
            }
            let x = ((masked_address >> 1u16) & 1) * 2;
            let y = ((masked_address >> 6u16) & 1) * 4;
            self.next_attribute = self.next_attribute >> ((x | y) as u8);
            self.next_attribute = self.next_attribute & 0x03;

            let table = self.background_pattern_table() as u16;
            proof {
                let t = table;
                let n = self.next_nametable as u16;
                let vv = self.vram_address;
                assert(t <= 1 ==> (t << 12u16) <= 0x1000) by (bit_vector);
                assert(n <= 255 ==> (n << 4u16) <= 0x0FF0) by (bit_vector);
                assert((vv >> 12u16) & 0x07 <= 7) by (bit_vector);
            }
            let tile_lsb_address = (table << 12u16) + ((self.next_nametable as u16) << 4u16) + ((
            self.vram_address >> 12u16) & 0x07);
            Some(tile_lsb_address)
        } else if cycle_fetch_period == 6 {
            self.next_tile_lsb = self.internal_read_buffer;

            let table = self.background_pattern_table() as u16;
            proof {
                let t = table;
                let n = self.next_nametable as u16;
                let vv = self.vram_address;
                assert(t <= 1 ==> (t << 12u16) <= 0x1000) by (bit_vector);
                assert(n <= 255 ==> (n << 4u16) <= 0x0FF0) by (bit_vector);
                assert((vv >> 12u16) & 0x07 <= 7) by (bit_vector);
            }
            let tile_msb_address = (table << 12u16) + ((self.next_nametable as u16) << 4u16) + ((
            self.vram_address >> 12u16) & 0x07) + 8;
            Some(tile_msb_address)
        } else if cycle_fetch_period == 7 {
            self.increment_x();
            None
        } else {
            // Second cycles of fetches do nothing.
            None
        }
    }

    /// The sprite evaluation step, as a mathematical value: on the last
    /// of a sprite's three evaluation dots, the sprite under the OAM
    /// cursor is picked exactly when its Y coordinate is on screen and
    /// the current scanline falls within its height; the attribute byte
    /// is augmented with the sprite-0 marker in bit 2 and the tile field
    /// carries the pattern address of the sprite's row, with vertical
    /// flip applied.
    pub open spec fn spec_evaluate_sprite(&self) -> Option<EvaluatedSprite> {
        let c = (self.cycle - 65) % 3;
        let s = self.scanline as u8;
        if c == 2 {
            let sprite = self.oam_address_register;
            let sprite_0_flag = (if sprite == 0 {
                1u8
            } else {
                0u8
            }) << 2u8;
            let y = self.oam_memory[sprite as int];
            let tile = self.oam_memory[sprite.wrapping_add(1) as int];
            let attrib = self.oam_memory[sprite.wrapping_add(2) as int] | sprite_0_flag;
            let x = self.oam_memory[sprite.wrapping_add(3) as int];
            let big = spec_sprite_size(self.control_register);
            let table = if big {
                tile & 1
            } else {
                (self.control_register & 0x08) >> 3u8
            };
            let tile_index = if big {
                tile >> 1u8
            } else {
                tile
            };
            let sprite_height: u8 = if big {
                16
            } else {
                8
            };
            let flip_vertically = (attrib & 0x80) > 0;
            let y_s = s.wrapping_sub(y);
            if y < 240 && y_s < sprite_height {
                let y_t = (if flip_vertically {
                    7u8.wrapping_sub(y_s)
                } else {
                    y_s
                }) as u16;
                let tile_addr = ((table as u16) << 12u16) | ((tile_index as u16) << 4u16) | y_t;
                Some(EvaluatedSprite { x, attrib, tile: tile_addr })
            } else {
                None
            }
        } else {
            None
        }
    }

    /// Evaluate the sprite under the OAM cursor for the current
    /// scanline.  Each sprite takes three dots; the decision falls on
    /// the last one.
    fn evaluate_sprite(&self) -> (r: Option<EvaluatedSprite>)
        requires
            65 <= self.cycle,
        ensures
            r == self.spec_evaluate_sprite(),
    {
        let c = (self.cycle - 65) % 3;
        let s = self.scanline as u8;

        if c == 2 {
            let sprite = self.oam_address_register;
            let sprite_0_flag: u8 = (if sprite == 0 {
                1u8
            } else {
                0u8
            }) << 2u8;
            // byte 0 - Y position of the sprite's top row
            let y = self.oam_memory[sprite as usize];
            // byte 1 - tile index; in 8x16 mode bit 0 selects the
            // pattern table and the upper bits the (even) tile
            let tile = self.oam_memory[sprite.wrapping_add(1) as usize];
            // byte 2 - attributes, with the sprite-0 marker synthesized
            // into the unused bit 2
            let attrib = self.oam_memory[sprite.wrapping_add(2) as usize] | sprite_0_flag;
            // byte 3 - left X position
            let x = self.oam_memory[sprite.wrapping_add(3) as usize];

            let big = self.sprite_size();
            let table: u8 = if big {
                tile & 1
            } else {
                self.sprite_pattern_table()
            };
            let tile_index: u8 = if big {
                tile >> 1u8
            } else {
                tile
            };
            let sprite_height: u8 = if big {
                16
            } else {
                8
            };

            let flip_vertically = (attrib & 0x80) > 0;
            let y_s = s.wrapping_sub(y);
            // Sprites parked off screen at Y=255 would wrap around in
            // the subtraction, so Y is also checked against the screen.
            if y < 240 && y_s < sprite_height {
                let y_t = (if flip_vertically {
                    7u8.wrapping_sub(y_s)
                } else {
                    y_s
                }) as u16;
                let tile_addr = ((table as u16) << 12u16) | ((tile_index as u16) << 4u16) | y_t;
                return Some(EvaluatedSprite { x, attrib, tile: tile_addr });
            }
            None
        } else {
            None
        }
    }

    /// One dot of the sprite pattern fetch window (dots 257 to 320):
    /// address the pattern bytes of each picked sprite and spill its
    /// eight pixels into the scanline pixel buffer.
    fn sprite_fetch(&mut self) -> (r: Option<u16>)
        requires
            258 <= old(self).cycle < 322,
        ensures
            ({
                let rel = old(self).cycle - 257;
                let c = rel % 8;
                let sprite_index = ((rel - 1) / 8) % 8;
                let slot = old(self).secondary_oam_buffer[sprite_index];
                match slot {
                    Option::Some(sprite) => {
                        let flip = (sprite.attrib & 0x40) > 0;
                        let data = (if flip {
                            spec_reverse_bits(old(self).internal_read_buffer)
                        } else {
                            old(self).internal_read_buffer
                        }) as u16;
                        if c == 0 {
                            r is None && *final(self) == (Ppu {
                                oam_pixel_buffer: final(self).oam_pixel_buffer,
                                ..*old(self)
                            }) && (forall|j: u8|
                                #![auto]
                                final(self).oam_pixel_buffer.data[j as int]
                                    == spec_pixel_buffer_place(
                                    old(self).oam_pixel_buffer.data@,
                                    sprite.x,
                                    (sprite.tile & 0x00FF) as u8,
                                    (if flip {
                                        spec_reverse_bits(old(self).internal_read_buffer)
                                    } else {
                                        old(self).internal_read_buffer
                                    }),
                                    if (sprite.attrib & 0x20) > 0 {
                                        1u8
                                    } else {
                                        0u8
                                    },
                                    sprite.attrib & 3,
                                    (sprite.attrib & 4) > 0,
                                    j,
                                ))
                        } else if c == 4 {
                            r == Some(sprite.tile) && *final(self) == *old(self)
                        } else if c == 6 {
                            r == Some(sprite.tile | 0x08)
                                && final(self).secondary_oam_buffer@
                                == old(self).secondary_oam_buffer@.update(
                                sprite_index,
                                Some(EvaluatedSprite { tile: data, ..sprite }),
                            ) && *final(self) == (Ppu {
                                secondary_oam_buffer: final(self).secondary_oam_buffer,
                                ..*old(self)
                            })
                        } else {
                            r is None && *final(self) == *old(self)
                        }
                    },
                    Option::None => r is None && *final(self) == *old(self),
                }
            }),
    {
        let relative_cycle = self.cycle - 257;
        let c = relative_cycle % 8;
        let sprite_index = ((relative_cycle - 1) / 8) % 8;
        let slot = self.secondary_oam_buffer[sprite_index];
        match slot {
            Option::Some(sprite) => {
                let addr = sprite.tile;
                let flip_horizontally = (sprite.attrib & 0x40) > 0;
                let fetched = if flip_horizontally {
                    reverse_bits(self.internal_read_buffer)
                } else {
                    self.internal_read_buffer
                };
                let data = fetched as u16;
                if c == 0 {
                    // The MSB byte has just arrived: spill the sprite's
                    // pixels into the scanline buffer.
                    let priority: u8 = if (sprite.attrib & 0x20) > 0 {
                        1
                    } else {
                        0
                    };
                    self.oam_pixel_buffer.set(
                        sprite.x,
                        (sprite.tile & 0x00FF) as u8,
                        fetched,
                        priority,
                        sprite.attrib & 3,
                        (sprite.attrib & 4) > 0,
                    );
                    None
                } else if c == 4 {
                    // Address the pattern LSB.
                    Some(addr)
                } else if c == 6 {
                    // Store the LSB; address the pattern MSB.
                    self.secondary_oam_buffer[sprite_index] = Some(
                        EvaluatedSprite { tile: data, ..sprite },
                    );
                    Some(addr | 0x08)
                } else {
                    None
                }
            },
            Option::None => None,
        }
    }

    /// The dot about to be skipped: the last dot of the pre-render line
    /// on odd frames while background rendering is on.
    pub open spec fn spec_skip_dot(&self) -> bool {
        self.scanline == 261 && self.cycle == 339 && self.is_odd_frame && spec_bg_rendering(
            self.mask_register,
        )
    }

    /// The dot counter after this dot.
    pub open spec fn spec_next_cycle(&self) -> int {
        if self.spec_skip_dot() {
            0
        } else {
            (self.cycle + 1) % 341
        }
    }

    /// The scanline counter after this dot.
    pub open spec fn spec_next_scanline(&self) -> int {
        if self.spec_skip_dot() {
            0
        } else if (self.cycle + 1) % 341 == 0 {
            (self.scanline + 1) % 262
        } else {
            self.scanline as int
        }
    }

    /// The 2-bit background pattern value at the current fine-X tap of
    /// the tile shift registers.
    pub open spec fn spec_bg_pixel_value(&self) -> u8 {
        let msb: u8 = if spec_shift_get(self.tile_msb_scroll.0, self.fine_x_scroll) {
            1
        } else {
            0
        };
        let lsb: u8 = if spec_shift_get(self.tile_lsb_scroll.0, self.fine_x_scroll) {
            1
        } else {
            0
        };
        (msb << 1u8) | lsb
    }

    /// Advance the PPU by one dot against the bus pinout.
    ///
    /// The contract carries the rendering skeleton through the register
    /// access that may happen on the same dot: how the counters advance,
    /// the vblank edges, the NMI line, frame completion, the sprite-0-hit
    /// law and the video-memory strobes.
    pub fn clock(&mut self, pins: &mut PpuPinout)
        requires
            old(self).wf(),
        ensures
            final(self).wf(),
            // A byte arriving for a pending read lands in the internal
            // read buffer.
            old(self).vram_manip == VRamManip::Read && old(pins).ppu_r ==> final(self).internal_read_buffer == old(pins).ppu_address_data_low,
            // The video-memory strobes are mutually exclusive and never
            // raised on an address-latch cycle.
            !(final(pins).ppu_r && final(pins).ppu_w),
            final(pins).ppu_ale ==> !final(pins).ppu_r && !final(pins).ppu_w,
            // A CPU status read sees the status byte as it was.
            old(pins).cpu_control && old(pins).cpu_addr == 2 ==> final(pins).cpu_data == old(self).status_register,
            // Without a register access in the way, the dot advances
            // with the documented cadence and vblank behavior.
            !old(pins).cpu_control ==> final(self).cycle == old(self).spec_next_cycle() && final(self).scanline == old(self).spec_next_scanline() && final(pins).finished_frame == (old(self).scanline == 261 && old(self).cycle == 340 || old(self).spec_skip_dot()) && final(pins).nmi == !(old(self).scanline == 241 && old(self).cycle == 1 && spec_nmi_enabled(
                old(self).control_register,
            )) && (old(self).scanline == 241 && old(self).cycle == 1 ==> spec_vblank_flag(
                final(self).status_register,
            )) && (old(self).scanline == 261 && old(self).cycle == 1 ==> !spec_vblank_flag(
                final(self).status_register,
            ) && !spec_sprite_hit_flag(final(self).status_register)),
            // Sprite-0 hit only rises on a visible dot with both
            // rendering enables on and both pixels opaque.
            spec_sprite_hit_flag(final(self).status_register) && !spec_sprite_hit_flag(
                old(self).status_register,
            ) ==> spec_bg_rendering(final(self).mask_register) && spec_sprite_rendering(
                final(self).mask_register,
            ) && old(self).scanline < 240 && old(self).cycle < 256
                && final(self).spec_bg_pixel_value() > 0
                && (final(self).oam_pixel_buffer.data[old(self).cycle as int] & 3) > 0
                && (final(self).oam_pixel_buffer.data[old(self).cycle as int] & 0x40) > 0,
            // Once set it stays set until the pre-render-line clear.
            !spec_sprite_hit_flag(final(self).status_register) && spec_sprite_hit_flag(
                old(self).status_register,
            ) ==> old(self).scanline == 261 && old(self).cycle == 1,
            // ...and it does rise (or stays set) on such a dot.
            spec_bg_rendering(final(self).mask_register) && spec_sprite_rendering(
                final(self).mask_register,
            ) && old(self).scanline < 240 && old(self).cycle < 256
                && final(self).spec_bg_pixel_value() > 0
                && (final(self).spec_sprite_entry(old(self).cycle as int) & 3) > 0
                && (final(self).spec_sprite_entry(old(self).cycle as int) & 0x40) > 0
                ==> spec_sprite_hit_flag(final(self).status_register),
            // The pixel mux: on a visible dot with rendering on, the
            // dot's three RGB bytes take the system-palette triple of
            // the winning pixel; all other bytes are untouched.
            old(self).scanline < 240 && old(self).cycle < 256 && spec_rendering_enabled(
                final(self).mask_register,
            ) ==> (forall|j: int|
                0 <= j < VIDEO_MEMORY_SIZE ==> final(self).video_data@[j] == ({
                    let point = (old(self).scanline * 256 + old(self).cycle) * 4;
                    let tint = final(self).spec_winning_tint(old(self).cycle as int);
                    if j == point {
                        old(self).system_palette_memory[tint]
                    } else if j == point + 1 {
                        old(self).system_palette_memory[tint + 1]
                    } else if j == point + 2 {
                        old(self).system_palette_memory[tint + 2]
                    } else {
                        old(self).video_data@[j]
                    }
                })),
            !(old(self).scanline < 240 && old(self).cycle < 256 && spec_rendering_enabled(
                final(self).mask_register,
            )) ==> final(self).video_data@ == old(self).video_data@,
            // The alpha bytes in particular are never written.
            forall|j: int|
                0 <= j < VIDEO_MEMORY_SIZE && j % 4 == 3 ==> final(self).video_data@[j] == old(
                    self,
                ).video_data@[j],
            // The dot and scanline counters advance every call, a
            // register access in the way or not; the one-before-last
            // pre-render dot is skipped on odd frames with background
            // rendering on.
            old(self).scanline == 261 && old(self).cycle == 339 && old(self).is_odd_frame
                && spec_bg_rendering(final(self).mask_register) ==> final(self).cycle == 0
                && final(self).scanline == 0,
            !(old(self).scanline == 261 && old(self).cycle == 339 && old(self).is_odd_frame
                && spec_bg_rendering(final(self).mask_register)) ==> final(self).cycle == (old(self).cycle + 1) % 341 && final(self).scanline == (if (old(self).cycle + 1) % 341 == 0 {
                (old(self).scanline + 1) % 262
            } else {
                old(self).scanline as int
            }),
            final(pins).finished_frame == (old(self).scanline == 261 && old(self).cycle == 340
                || (old(self).scanline == 261 && old(self).cycle == 339 && old(self).is_odd_frame
                && spec_bg_rendering(final(self).mask_register))),
            final(self).is_odd_frame == (if old(self).scanline == 261 && old(self).cycle == 1 {
                !old(self).is_odd_frame
            } else {
                old(self).is_odd_frame
            }),
            // On a background-fetch dot with no register access in the
            // way, the fetch address goes out with the address latch
            // raised.
            !old(pins).cpu_control && spec_rendering_enabled(final(self).mask_register) && 1 <= old(self).cycle < 257 && (old(self).scanline < 240 || old(self).scanline == 261) && old(self).spec_render_fetch().1 is Some ==> final(pins).ppu_ale && final(self).vram_manip
                == VRamManip::Read && final(pins).ppu_address_data_low == (old(self).spec_render_fetch().1->Some_0 & 0x00FF) as u8 && final(pins).ppu_address_high == (old(self).spec_render_fetch().1->Some_0 >> 8u16) as u8,
            // The register semantics, per register index.
            old(pins).cpu_control && old(pins).cpu_addr == 0 ==> final(self).control_register
                == old(pins).cpu_data && final(self).temp_address == (old(self).temp_address
                & 0xF3FF) | (((old(pins).cpu_data & 0x03) as u16) << 10u16),
            old(pins).cpu_control && old(pins).cpu_addr == 1 ==> final(self).mask_register == old(pins).cpu_data,
            // A status read clears the write latch, and the vblank flag
            // stays clear unless this very dot begins the vblank.
            old(pins).cpu_control && old(pins).cpu_addr == 2 ==> final(self).w_register == false
                && (spec_vblank_flag(final(self).status_register) ==> old(self).scanline == 241
                && old(self).cycle == 1),
            old(pins).cpu_control && old(pins).cpu_addr == 3 ==> final(self).oam_address_register
                == old(pins).cpu_data || (spec_rendering_enabled(final(self).mask_register) && 65
                <= old(self).cycle < 257 && old(self).scanline < 240),
            old(pins).cpu_control && old(pins).cpu_addr == 4 && old(pins).cpu_rw ==> final(pins).cpu_data == old(self).oam_memory[old(self).oam_address_register as int],
            old(pins).cpu_control && old(pins).cpu_addr == 4 && !old(pins).cpu_rw ==> final(self).oam_memory@ == old(self).oam_memory@.update(
                old(self).oam_address_register as int,
                old(pins).cpu_data,
            ) && (final(self).oam_address_register == old(self).oam_address_register.wrapping_add(
                1,
            ) || (spec_rendering_enabled(final(self).mask_register) && 65 <= old(self).cycle < 257
                && old(self).scanline < 240)),
            // First scroll write: fine X and coarse X into t.
            old(pins).cpu_control && old(pins).cpu_addr == 5 && !old(self).w_register ==> final(self).fine_x_scroll == old(pins).cpu_data % 8 && final(self).temp_address == (old(self).temp_address & !0x001F) | (((old(pins).cpu_data >> 3u8) as u16) & 0x001F) && final(self).w_register == true,
            // Second scroll write: fine Y and coarse Y into t.
            old(pins).cpu_control && old(pins).cpu_addr == 5 && old(self).w_register ==> final(self).temp_address == (((old(self).temp_address & !0x7000) | ((((old(pins).cpu_data
                & 0x07) as u16) & 0x0007) << 12u16) & 0x7000) & !0x03E0) | (((((old(pins).cpu_data >> 3u8) as u16) & 0x001F) << 5u16) & 0x03E0) && final(self).w_register
                == false,
            // First address write: the high byte, masked to six bits.
            old(pins).cpu_control && old(pins).cpu_addr == 6 && !old(self).w_register ==> final(self).temp_address == ((old(pins).cpu_data & 0x3F) as u16) << 8u16 && final(self).w_register == true,
            // Second address write: the low byte; t is copied into v
            // (and stays there unless rendering is rewriting v).
            old(pins).cpu_control && old(pins).cpu_addr == 6 && old(self).w_register ==> final(self).temp_address == (old(self).temp_address & 0xFF00) | (old(pins).cpu_data as u16)
                && final(self).w_register == false && (!spec_rendering_enabled(
                final(self).mask_register,
            ) ==> final(self).vram_address == (old(self).temp_address & 0xFF00) | (old(pins).cpu_data as u16)),
            // The PPUDATA port, away from rendering: palette addresses
            // are served internally, others go out on the video-memory
            // bus with the address latch raised; reads are buffered one
            // access behind; v advances by the configured step.
            old(pins).cpu_control && old(pins).cpu_addr >= 7 && !spec_rendering_enabled(
                final(self).mask_register,
            ) ==> ({
                let v = old(self).vram_address;
                let d = old(pins).cpu_data;
                let inc: u16 = if (old(self).control_register & 0x04) > 0 {
                    32
                } else {
                    1
                };
                let buf = if old(self).vram_manip == VRamManip::Read && old(pins).ppu_r {
                    old(pins).ppu_address_data_low
                } else {
                    old(self).internal_read_buffer
                };
                let in_palette = 0x3F00 <= v <= 0x3FFF;
                let palette_index = ((v - 0x3F00) as u16 % 0x20) as int;
                final(self).vram_address == v.wrapping_add(inc) && final(pins).ppu_ale && final(pins).ppu_address_high == (v >> 8u16) as u8 && final(pins).ppu_address_data_low == (v
                    & 0x00FF) as u8 && (old(pins).cpu_rw ==> final(self).vram_manip
                    == VRamManip::Read && final(pins).cpu_data == (if in_palette {
                    old(self).frame_palette_memory[palette_index]
                } else {
                    buf
                })) && (!old(pins).cpu_rw ==> (if in_palette {
                    final(self).frame_palette_memory@ == spec_palette_write(
                        old(self).frame_palette_memory@,
                        palette_index,
                        d,
                    )
                } else {
                    final(self).vram_manip == VRamManip::Write && final(self).vram_data == d
                }))
            }),
    {
        // Grab the read byte before the PPU state moves at all.
        if self.vram_manip == VRamManip::Read && pins.ppu_r {
            self.internal_read_buffer = pins.ppu_address_data_low;
            self.vram_manip = VRamManip::Idle;
        }
        // Reset the outputs to quiet defaults for this dot.
        pins.nmi = true;
        pins.ppu_r = false;
        pins.ppu_w = false;
        pins.ppu_ale = false;

        if pins.cpu_control {
            let ghost s_before = self.status_register;
            self.handle_cpu_io(pins);
            proof {
                let sb = s_before;
                assert((sb & 0x7F) & 0x40 == sb & 0x40) by (bit_vector);
                assert((sb & 0x7F) & 0x80 == 0) by (bit_vector);
            }
        }
        // Render a pixel (if rendering), and/or configure the bus to
        // read from video memory.
        self.render(pins);

        // On an address-latch cycle the address goes out and no strobe
        // is raised; otherwise a pending read or write drives its
        // strobe.
        if pins.ppu_ale {
        } else {
            if self.vram_manip == VRamManip::Read {
                pins.ppu_r = true;
                // Finishes at the very start of the next dot.
            } else if self.vram_manip == VRamManip::Write {
                self.vram_manip = VRamManip::Idle;
                pins.ppu_address_data_low = self.vram_data;
                pins.ppu_w = true;
            }
        }
    }

    /// One dot of sprite evaluation: restart at dot 65, then judge the
    /// sprite under the OAM cursor every third dot and stage hits in
    /// the secondary OAM back buffer; the ninth hit sets the overflow
    /// bit instead.  Only the cursor, the back buffer and the overflow
    /// bit move.
    fn evaluate_sprites_step(&mut self)
        requires
            old(self).wf(),
            65 <= old(self).cycle < 257,
            old(self).scanline < 240,
        ensures
            final(self).wf(),
            *final(self) == (Ppu {
                oam_address_register: final(self).oam_address_register,
                secondary_oam_buffer: final(self).secondary_oam_buffer,
                secondary_oam_buffer_count: final(self).secondary_oam_buffer_count,
                status_register: final(self).status_register,
                ..*old(self)
            }),
            spec_sprite_hit_flag(final(self).status_register) == spec_sprite_hit_flag(
                old(self).status_register,
            ),
            spec_vblank_flag(final(self).status_register) == spec_vblank_flag(
                old(self).status_register,
            ),
    {
        if self.cycle == 65 {
            // Restart evaluation for the next scanline.
            self.oam_address_register = 0;
            self.secondary_oam_buffer_count = 0;
            self.secondary_oam_buffer = [None; 8];
            let ghost s_before = self.status_register;
            self.set_sprite_overflow(false);
            proof {
                lemma_status_hit_bit(s_before, 0);
                lemma_status_vblank_bit(s_before, 0);
            }
        }
        let sprite = self.evaluate_sprite();
        self.oam_address_register = self.oam_address_register.wrapping_add(4);
        match sprite {
            Option::Some(found) => {
                if self.secondary_oam_buffer_count < 8 {
                    // Stage evaluated sprites in a back buffer so the
                    // sprites being fetched are not replaced.
                    self.secondary_oam_buffer[self.secondary_oam_buffer_count] = Some(found);
                    self.secondary_oam_buffer_count = self.secondary_oam_buffer_count + 1;
                } else {
                    let ghost s_before = self.status_register;
                    self.set_sprite_overflow(true);
                    proof {
                        lemma_status_hit_bit(s_before, 1);
                        lemma_status_vblank_bit(s_before, 1);
                    }
                }
            },
            Option::None => {},
        }
    }

    /// The per-dot scroll housekeeping while rendering: clear the
    /// sprite pixel buffer at dot 260, step the scroll address down one
    /// row at dot 256, reload its horizontal bits at dot 257 and its
    /// vertical bits during the pre-render reload window.  Only the
    /// scroll address and the pixel buffer move.
    fn scroll_housekeeping(&mut self)
        requires
            old(self).wf(),
        ensures
            final(self).wf(),
            *final(self) == (Ppu {
                vram_address: final(self).vram_address,
                oam_pixel_buffer: final(self).oam_pixel_buffer,
                ..*old(self)
            }),
            old(self).cycle != 260 ==> final(self).oam_pixel_buffer == old(
                self,
            ).oam_pixel_buffer,
    {
        if self.cycle == 260 {
            self.oam_pixel_buffer.clear();
        }
        if self.cycle == 256 && self.scanline < 240 {
            self.increment_y();
        }
        // "Transfer X"
        if self.cycle == 257 && (self.scanline < 240 || self.scanline == 261) {
            self.vram_address = (self.vram_address & 0xFBE0) | (self.temp_address & !0xFBE0);
        }
        // "Transfer Y"
        if self.scanline == 261 && self.cycle >= 280 && self.cycle < 305 {
            self.vram_address = (self.vram_address & !0x7BE0) | (self.temp_address & 0x7BE0);
        }
    }

    /// The pixel mux for one visible dot: pick the winning pixel from
    /// the background shift registers and the sprite pixel buffer, set
    /// the sprite-0-hit bit when both are opaque, and write the RGB
    /// bytes of the dot into the frame buffer.
    #[verifier::rlimit(100)]
    fn render_pixel(&mut self)
        requires
            old(self).wf(),
            old(self).scanline < 240,
            old(self).cycle < 256,
        ensures
            final(self).wf(),
            *final(self) == (Ppu {
                status_register: final(self).status_register,
                video_data: final(self).video_data,
                ..*old(self)
            }),
            final(self).status_register == old(self).status_register || final(self).status_register
                == (old(self).status_register & 0xBF) | 0x40,
            // The sprite-0-hit bit rises only when both rendering
            // enables are on and both pixels are opaque.
            spec_sprite_hit_flag(final(self).status_register) && !spec_sprite_hit_flag(
                old(self).status_register,
            ) ==> spec_bg_rendering(old(self).mask_register) && spec_sprite_rendering(
                old(self).mask_register,
            ) && old(self).spec_bg_pixel_value() > 0
                && (old(self).oam_pixel_buffer.data[old(self).cycle as int] & 3) > 0
                && (old(self).oam_pixel_buffer.data[old(self).cycle as int] & 0x40) > 0,
            // ...and it does rise (or stays set) whenever both enables
            // are on, a sprite-0 pixel is opaque and the background
            // pixel is opaque.
            spec_bg_rendering(old(self).mask_register) && spec_sprite_rendering(
                old(self).mask_register,
            ) && old(self).spec_bg_pixel_value() > 0
                && (old(self).spec_sprite_entry(old(self).cycle as int) & 3) > 0
                && (old(self).spec_sprite_entry(old(self).cycle as int) & 0x40) > 0
                ==> spec_sprite_hit_flag(final(self).status_register),
            // The pixel mux: the dot's three RGB bytes in the frame
            // buffer take the system-palette triple of the winning
            // pixel's palette-RAM entry; every other byte (the alpha
            // byte included) is untouched.
            forall|j: int|
                0 <= j < VIDEO_MEMORY_SIZE ==> final(self).video_data@[j] == ({
                    let point = (old(self).scanline * 256 + old(self).cycle) * 4;
                    let tint = old(self).spec_winning_tint(old(self).cycle as int);
                    if j == point {
                        old(self).system_palette_memory[tint]
                    } else if j == point + 1 {
                        old(self).system_palette_memory[tint + 1]
                    } else if j == point + 2 {
                        old(self).system_palette_memory[tint + 2]
                    } else {
                        old(self).video_data@[j]
                    }
                }),
            // The alpha bytes in particular are never written.
            forall|j: int|
                0 <= j < VIDEO_MEMORY_SIZE && j % 4 == 3 ==> final(self).video_data@[j] == old(
                    self,
                ).video_data@[j],
    {
        let sprite_entry: (u8, u8, bool) = if self.enabled_sprite_rendering() {
            self.oam_pixel_buffer.get(self.cycle as u8)
        } else {
            (0, 0, false)
        };
        let sprite_palette_index = sprite_entry.0;
        let sprite_priority = sprite_entry.1;
        let sprite_opaque = (sprite_entry.0 & 3) > 0 && self.enabled_sprite_rendering();
        let sprite_0 = sprite_entry.2;

        let bg: (u8, bool) = if self.enabled_background_rendering() {
            let offset = self.get_fine_x();
            let tile_msb: u8 = if self.tile_msb_scroll.get(offset) {
                1
            } else {
                0
            };
            let tile_lsb: u8 = if self.tile_lsb_scroll.get(offset) {
                1
            } else {
                0
            };
            let attribute_msb: u8 = if self.attribute_msb_scroll.get(offset) {
                1
            } else {
                0
            };
            let attribute_lsb: u8 = if self.attribute_lsb_scroll.get(offset) {
                1
            } else {
                0
            };
            // The 2-bit pattern value picks the pixel inside the
            // palette; the 2-bit attribute value picks the palette.
            let pixel_value = (tile_msb << 1u8) | tile_lsb;
            let attribute_value = (attribute_msb << 1u8) | attribute_lsb;
            proof {
                let m = tile_msb;
                let l = tile_lsb;
                let am = attribute_msb;
                let al = attribute_lsb;
                assert(m <= 1 && l <= 1 && am <= 1 && al <= 1 ==> ((((m << 1u8) | l) | (((am
                    << 1u8) | al) << 2u8)) as int) % 16 == ((((m << 1u8) | l) | (((am << 1u8)
                    | al) << 2u8)) as int)) by (bit_vector);
            }
            ((pixel_value | (attribute_value << 2u8)), pixel_value > 0)
        } else {
            (0, false)
        };
        let bg_palette_index = bg.0;
        let bg_opaque = bg.1;
        proof {
            let d = self.oam_pixel_buffer.data[old(self).cycle as int];
            assert((d & 15) & 3 == d & 3) by (bit_vector);
            assert(((d & 15) as int) % 16 == ((d & 15) as int)) by (bit_vector);
        }

        if self.enabled_background_rendering() && self.enabled_sprite_rendering()
            && sprite_0 && sprite_opaque && bg_opaque && !self.get_sprite_hit() {
            let ghost s_before = self.status_register;
            self.set_sprite_hit();
            proof {
                lemma_status_hit_bit(s_before, 0);
                lemma_status_vblank_bit(s_before, 0);
                let d = self.oam_pixel_buffer.data[old(self).cycle as int];
                assert((d & 15) & 3 == d & 3) by (bit_vector);
            }
        }
        // When both pixels are opaque the priority bit picks the
        // winner; otherwise the opaque one wins; all transparent
        // shows the backdrop.
        let winning_pixel: usize = if bg_opaque && sprite_opaque {
            if sprite_priority == 0 {
                2
            } else {
                1
            }
        } else if sprite_opaque {
            2
        } else if bg_opaque {
            1
        } else {
            0
        };
        // Bit 4 of the palette address selects the sprite half.
        let winning_page: usize = if winning_pixel == 2 {
            0x10
        } else {
            0x00
        };
        let chosen: u8 = if winning_pixel == 1 {
            bg_palette_index
        } else if winning_pixel == 2 {
            sprite_palette_index
        } else {
            0
        };
        let palette_slot = winning_page + (chosen as usize) % 16;
        let palette_byte = self.get_frame_palette(palette_slot);
        proof {
            let pb = palette_byte;
            assert((pb & 0x3F) < 64) by (bit_vector);
        }
        let system_palette_index = (palette_byte & 0x3F) as usize;
        // Copy the RGB triple; alpha stays at its initial 255.
        let tint = system_palette_index * 3;
        let point = (self.scanline * 256 + self.cycle) * 4;
        self.video_data[point] = self.system_palette_memory[tint];
        self.video_data[point + 1] = self.system_palette_memory[tint + 1];
        self.video_data[point + 2] = self.system_palette_memory[tint + 2];
        proof {
            let m = (old(self).scanline * 256 + old(self).cycle) as int;
            let pt = m * 4;
            assert(pt % 4 == 0 && (pt + 1) % 4 == 1 && (pt + 2) % 4 == 2) by (nonlinear_arith)
                requires
                    pt == m * 4,
            ;
        }
    }

    /// One dot of the rendering pipeline: fetches, sprite evaluation,
    /// the pixel mux, the vblank edges and the dot counters.
    ///
    /// The contract pins the timing skeleton: how the counters advance
    /// (one dot per call, with the last pre-render dot skipped on odd
    /// frames while background rendering is on), when the vblank flag
    /// rises and falls, when the NMI line is driven, when the frame is
    /// reported finished, and that the sprite-0-hit bit can only rise on
    /// a visible dot where both rendering enables are on and both the
    /// background and a sprite-0 pixel are opaque.
    #[verifier::rlimit(100)]
    fn render(&mut self, pins: &mut PpuPinout)
        requires
            old(self).wf(),
        ensures
            final(self).wf(),
            final(self).cycle == old(self).spec_next_cycle(),
            final(self).scanline == old(self).spec_next_scanline(),
            final(self).control_register == old(self).control_register,
            final(self).mask_register == old(self).mask_register,
            final(self).oam_memory@ == old(self).oam_memory@,
            final(self).internal_read_buffer == old(self).internal_read_buffer,
            final(self).temp_address == old(self).temp_address,
            final(self).w_register == old(self).w_register,
            final(self).fine_x_scroll == old(self).fine_x_scroll,
            final(self).frame_palette_memory == old(self).frame_palette_memory,
            final(self).system_palette_memory == old(self).system_palette_memory,
            final(self).oam_address_register == old(self).oam_address_register
                || (spec_rendering_enabled(old(self).mask_register) && 65 <= old(self).cycle < 257
                && old(self).scanline < 240),
            final(self).vram_data == old(self).vram_data,
            !spec_rendering_enabled(old(self).mask_register) ==> final(self).vram_address == old(self).vram_address && final(self).vram_manip == old(self).vram_manip && final(pins).ppu_ale == old(pins).ppu_ale && final(pins).ppu_address_data_low == old(pins).ppu_address_data_low && final(pins).ppu_address_high == old(pins).ppu_address_high,
            // On a background-fetch dot the video-memory address of the
            // fetch goes out with the address latch raised.
            spec_rendering_enabled(old(self).mask_register) && 1 <= old(self).cycle < 257 && (old(self).scanline < 240 || old(self).scanline == 261) && old(self).spec_render_fetch().1
                is Some ==> final(pins).ppu_ale && final(self).vram_manip == VRamManip::Read
                && final(pins).ppu_address_data_low == (old(self).spec_render_fetch().1->Some_0
                & 0x00FF) as u8 && final(pins).ppu_address_high == (old(self).spec_render_fetch().1->Some_0 >> 8u16) as u8,
            // Rendering leaves the CPU-side pins and the strobes alone.
            final(pins).ppu_r == old(pins).ppu_r,
            final(pins).ppu_w == old(pins).ppu_w,
            final(pins).cpu_data == old(pins).cpu_data,
            final(pins).cpu_control == old(pins).cpu_control,
            final(pins).cpu_rw == old(pins).cpu_rw,
            final(pins).cpu_addr == old(pins).cpu_addr,
            final(pins).ppu_sync == old(pins).ppu_sync,
            final(pins).finished_frame == (old(self).scanline == 261 && old(self).cycle == 340
                || old(self).spec_skip_dot()),
            // The NMI line is driven low exactly on the vblank-start dot
            // with NMI enabled.
            final(pins).nmi == !(old(self).scanline == 241 && old(self).cycle == 1
                && spec_nmi_enabled(old(self).control_register)),
            old(self).scanline == 241 && old(self).cycle == 1 ==> spec_vblank_flag(
                final(self).status_register,
            ),
            // The vblank flag only rises on the vblank-start dot.
            spec_vblank_flag(final(self).status_register) && !spec_vblank_flag(
                old(self).status_register,
            ) ==> old(self).scanline == 241 && old(self).cycle == 1,
            // The odd-frame toggle happens exactly at dot 1 of the
            // pre-render line.
            final(self).is_odd_frame == (if old(self).scanline == 261 && old(self).cycle == 1 {
                !old(self).is_odd_frame
            } else {
                old(self).is_odd_frame
            }),
            old(self).scanline == 261 && old(self).cycle == 1 ==> !spec_vblank_flag(
                final(self).status_register,
            ) && !spec_sprite_hit_flag(final(self).status_register) && (final(self).status_register & 0x20) == 0 && final(self).is_odd_frame == !old(self).is_odd_frame,
            // Sprite-0 hit only rises on a visible dot with both
            // rendering enables on and both pixels opaque.
            spec_sprite_hit_flag(final(self).status_register) && !spec_sprite_hit_flag(
                old(self).status_register,
            ) ==> spec_bg_rendering(old(self).mask_register) && spec_sprite_rendering(
                old(self).mask_register,
            ) && old(self).scanline < 240 && old(self).cycle < 256
                && final(self).spec_bg_pixel_value() > 0
                && (final(self).oam_pixel_buffer.data[old(self).cycle as int] & 3) > 0
                && (final(self).oam_pixel_buffer.data[old(self).cycle as int] & 0x40) > 0,
            // Once set it stays set until the pre-render-line clear.
            !spec_sprite_hit_flag(final(self).status_register) && spec_sprite_hit_flag(
                old(self).status_register,
            ) ==> old(self).scanline == 261 && old(self).cycle == 1,
            // ...and it does rise (or stays set) on such a dot.
            spec_bg_rendering(old(self).mask_register) && spec_sprite_rendering(
                old(self).mask_register,
            ) && old(self).scanline < 240 && old(self).cycle < 256
                && final(self).spec_bg_pixel_value() > 0
                && (final(self).spec_sprite_entry(old(self).cycle as int) & 3) > 0
                && (final(self).spec_sprite_entry(old(self).cycle as int) & 0x40) > 0
                ==> spec_sprite_hit_flag(final(self).status_register),
            // The pixel mux: on a visible dot with rendering on, the
            // dot's three RGB bytes take the system-palette triple of
            // the winning pixel; all other bytes are untouched.
            old(self).scanline < 240 && old(self).cycle < 256 && spec_rendering_enabled(
                old(self).mask_register,
            ) ==> (forall|j: int|
                0 <= j < VIDEO_MEMORY_SIZE ==> final(self).video_data@[j] == ({
                    let point = (old(self).scanline * 256 + old(self).cycle) * 4;
                    let tint = final(self).spec_winning_tint(old(self).cycle as int);
                    if j == point {
                        old(self).system_palette_memory[tint]
                    } else if j == point + 1 {
                        old(self).system_palette_memory[tint + 1]
                    } else if j == point + 2 {
                        old(self).system_palette_memory[tint + 2]
                    } else {
                        old(self).video_data@[j]
                    }
                })),
            !(old(self).scanline < 240 && old(self).cycle < 256 && spec_rendering_enabled(
                old(self).mask_register,
            )) ==> final(self).video_data@ == old(self).video_data@,
            // The alpha bytes in particular are never written.
            forall|j: int|
                0 <= j < VIDEO_MEMORY_SIZE && j % 4 == 3 ==> final(self).video_data@[j] == old(
                    self,
                ).video_data@[j],
    {
        if self.is_render_fetch_cycle() && self.is_rendering_enabled() {
            let fetch = self.render_fetch();
            match fetch {
                Option::Some(address) => {
                    pins.ppu_address_data_low = (address & 0x00FF) as u8;
                    pins.ppu_address_high = (address >> 8u16) as u8;
                    pins.ppu_ale = true;
                    self.vram_manip = VRamManip::Read;
                },
                Option::None => {},
            }
        }
        if self.is_sprite_fetch_cycle() && self.is_rendering_enabled() {
            let fetch = self.sprite_fetch();
            match fetch {
                Option::Some(address) => {
                    pins.ppu_address_data_low = (address & 0x00FF) as u8;
                    pins.ppu_address_high = (address >> 8u16) as u8;
                    pins.ppu_ale = true;
                    self.vram_manip = VRamManip::Read;
                },
                Option::None => {},
            }
        }
        if (self.cycle > 0 && self.cycle < 257) || (self.cycle >= 321 && self.cycle < 337) {
            self.shift();
        }
        if self.is_rendering_enabled() {
            if self.is_sprite_evaluation_cycle() && self.scanline < 240 {
                self.evaluate_sprites_step();
            }
            self.scroll_housekeeping();
            if self.is_render_cycle() {
                let ghost s_before = self.status_register;
                self.render_pixel();
                proof {
                    lemma_status_vblank_bit(s_before, 0);
                    lemma_status_hit_bit(s_before, 0);
                }
            }
        }
        if self.is_begin_vblank_cycle() {
            let ghost s_before = self.status_register;
            self.set_vblank_flag(true);
            proof {
                lemma_status_hit_bit(s_before, 1);
                lemma_status_vblank_bit(s_before, 1);
            }
            pins.nmi = !self.nmi_enabled();
        } else {
            pins.nmi = true;
        }
        if self.is_end_vblank_cycle() {
            let ghost s_before = self.status_register;
            self.set_vblank_flag(false);
            proof {
                lemma_status_hit_bit(s_before, 0);
                lemma_status_vblank_bit(s_before, 0);
            }
            let ghost s_before2 = self.status_register;
            self.clear_sprite_hit();
            proof {
                lemma_status_hit_bit(s_before2, 0);
                lemma_status_vblank_bit(s_before2, 0);
            }
            let ghost s_before3 = self.status_register;
            self.set_sprite_overflow(false);
            proof {
                lemma_status_hit_bit(s_before3, 0);
                lemma_status_vblank_bit(s_before3, 0);
                let sb = s_before3;
                assert(((sb & 0xDF) | (0u8 << 5u8)) & 0x20 == 0) by (bit_vector);
            }
            self.is_odd_frame = !self.is_odd_frame;
        }
        let skip = self.scanline == 261 && self.cycle == 339 && self.is_odd_frame
            && self.enabled_background_rendering();
        pins.finished_frame = (self.scanline == 261 && self.cycle == 340) || skip;
        if pins.finished_frame && self.is_rendering_enabled() {
            self.vram_address = self.temp_address;
        }
        if skip {
            // Odd frames drop the last pre-render dot while the
            // background is being rendered.
            self.cycle = 0;
            self.scanline = 0;
        } else {
            self.cycle = (self.cycle + 1) % DOTS_PER_SCANLINE;
            if self.cycle == 0 {
                self.scanline = (self.scanline + 1) % SCANLINES_PER_FRAME;
            }
        }
    }

    /// The 2-bit attribute (palette-select) value at the current
    /// fine-X tap of the attribute shift registers.
    pub open spec fn spec_bg_attr_value(&self) -> u8 {
        let msb: u8 = if spec_shift_get(self.attribute_msb_scroll.0, self.fine_x_scroll) {
            1
        } else {
            0
        };
        let lsb: u8 = if spec_shift_get(self.attribute_lsb_scroll.0, self.fine_x_scroll) {
            1
        } else {
            0
        };
        (msb << 1u8) | lsb
    }

    /// The background's 4-bit palette index at the current tap.
    pub open spec fn spec_bg_palette_index(&self) -> u8 {
        self.spec_bg_pixel_value() | (self.spec_bg_attr_value() << 2u8)
    }

    /// The sprite pixel-buffer entry consulted at dot `cycle`.
    pub open spec fn spec_sprite_entry(&self, cycle: int) -> u8 {
        self.oam_pixel_buffer.data[cycle]
    }

    /// Which pixel wins the mux at dot `cycle`: 0 for the backdrop, 1
    /// for the background, 2 for the sprite.  When both are opaque the
    /// sprite wins exactly when its priority bit is 0.
    pub open spec fn spec_winning_pixel(&self, cycle: int) -> int {
        let bg = spec_bg_rendering(self.mask_register) && self.spec_bg_pixel_value() > 0;
        let sp = spec_sprite_rendering(self.mask_register) && (self.spec_sprite_entry(cycle) & 3)
            > 0;
        if bg && sp {
            if self.spec_sprite_entry(cycle) >> 7u8 == 0 {
                2int
            } else {
                1int
            }
        } else if sp {
            2int
        } else if bg {
            1int
        } else {
            0int
        }
    }

    /// The palette-RAM slot the winning pixel looks up: bit 4 selects
    /// the sprite half, the low four bits are the winner's palette
    /// index (the backdrop uses entry 0).
    pub open spec fn spec_winning_slot(&self, cycle: int) -> int {
        let chosen: u8 = if self.spec_winning_pixel(cycle) == 1 {
            self.spec_bg_palette_index()
        } else if self.spec_winning_pixel(cycle) == 2 {
            self.spec_sprite_entry(cycle) & 15
        } else {
            0u8
        };
        (if self.spec_winning_pixel(cycle) == 2 {
            0x10int
        } else {
            0int
        }) + (chosen as int) % 16
    }

    /// Offset of the dot's RGB triple in the system palette: the
    /// palette-RAM byte, masked to its six significant bits, times
    /// three.
    pub open spec fn spec_winning_tint(&self, cycle: int) -> int {
        ((self.frame_palette_memory[self.spec_winning_slot(cycle)] & 0x3F) as int) * 3
    }

    /// One CPU register access, as clauses per register index: control
    /// and mask writes, the status read with its vblank and write-latch
    /// side effects, OAM cursor and data, the two-write scroll and
    /// address latches, and the buffered PPUDATA port.
    fn handle_cpu_io(&mut self, pins: &mut PpuPinout)
        ensures
            old(pins).cpu_addr == 0 ==> *final(self) == (Ppu {
                control_register: old(pins).cpu_data,
                temp_address: (old(self).temp_address & 0xF3FF) | (((old(pins).cpu_data
                    & 0x03) as u16) << 10u16),
                ..*old(self)
            }) && *final(pins) == *old(pins),
            old(pins).cpu_addr == 1 ==> *final(self) == (Ppu {
                mask_register: old(pins).cpu_data,
                ..*old(self)
            }) && *final(pins) == *old(pins),
            // Reading the status register clears the vblank flag and
            // the write latch.
            old(pins).cpu_addr == 2 ==> *final(self) == (Ppu {
                status_register: old(self).status_register & 0x7F,
                w_register: false,
                ..*old(self)
            }) && *final(pins) == (PpuPinout {
                cpu_data: old(self).status_register,
                ..*old(pins)
            }),
            old(pins).cpu_addr == 3 ==> *final(self) == (Ppu {
                oam_address_register: old(pins).cpu_data,
                ..*old(self)
            }) && *final(pins) == *old(pins),
            old(pins).cpu_addr == 4 && old(pins).cpu_rw ==> *final(self) == *old(self)
                && *final(pins) == (PpuPinout {
                cpu_data: old(self).oam_memory[old(self).oam_address_register as int],
                ..*old(pins)
            }),
            // An OAM data write advances the cursor.
            old(pins).cpu_addr == 4 && !old(pins).cpu_rw ==> final(self).oam_memory@ == old(self).oam_memory@.update(old(self).oam_address_register as int, old(pins).cpu_data)
                && *final(self) == (Ppu {
                oam_memory: final(self).oam_memory,
                oam_address_register: old(self).oam_address_register.wrapping_add(1),
                ..*old(self)
            }) && *final(pins) == *old(pins),
            // First scroll write: fine X and coarse X.
            old(pins).cpu_addr == 5 && !old(self).w_register ==> *final(self) == (Ppu {
                fine_x_scroll: old(pins).cpu_data % 8,
                temp_address: (old(self).temp_address & !0x001F) | (((old(pins).cpu_data
                    >> 3u8) as u16) & 0x001F),
                w_register: true,
                ..*old(self)
            }) && *final(pins) == *old(pins),
            // Second scroll write: fine Y and coarse Y.
            old(pins).cpu_addr == 5 && old(self).w_register ==> *final(self) == (Ppu {
                temp_address: (((old(self).temp_address & !0x7000) | ((((old(pins).cpu_data
                    & 0x07) as u16) & 0x0007) << 12u16) & 0x7000) & !0x03E0) | (((((old(pins).cpu_data >> 3u8) as u16) & 0x001F) << 5u16) & 0x03E0),
                w_register: false,
                ..*old(self)
            }) && *final(pins) == *old(pins),
            // First address write: the high byte, masked to six bits.
            old(pins).cpu_addr == 6 && !old(self).w_register ==> *final(self) == (Ppu {
                temp_address: ((old(pins).cpu_data & 0x3F) as u16) << 8u16,
                w_register: true,
                ..*old(self)
            }) && *final(pins) == *old(pins),
            // Second address write: the low byte; t is copied into v.
            old(pins).cpu_addr == 6 && old(self).w_register ==> *final(self) == (Ppu {
                temp_address: (old(self).temp_address & 0xFF00) | (old(pins).cpu_data as u16),
                vram_address: (old(self).temp_address & 0xFF00) | (old(pins).cpu_data as u16),
                w_register: false,
                ..*old(self)
            }) && *final(pins) == *old(pins),
            // PPUDATA: palette addresses are served internally, other
            // addresses go to the video-memory bus; reads are buffered
            // one access behind; v advances by the configured step.
            old(pins).cpu_addr >= 7 ==> ({
                let v = old(self).vram_address;
                let inc: u16 = if (old(self).control_register & 0x04) > 0 {
                    32
                } else {
                    1
                };
                let in_palette = 0x3F00 <= v <= 0x3FFF;
                let palette_index = ((v - 0x3F00) as u16 % 0x20) as int;
                (*final(pins) == (PpuPinout {
                    cpu_data: final(pins).cpu_data,
                    ppu_address_high: (v >> 8u16) as u8,
                    ppu_address_data_low: (v & 0x00FF) as u8,
                    ppu_ale: true,
                    ..*old(pins)
                })) && (old(pins).cpu_rw ==> final(pins).cpu_data == (if in_palette {
                    old(self).frame_palette_memory[palette_index]
                } else {
                    old(self).internal_read_buffer
                }) && (if in_palette {
                    *final(self) == (Ppu {
                        vram_manip: VRamManip::Read,
                        vram_address: v.wrapping_add(inc),
                        ..*old(self)
                    })
                } else {
                    *final(self) == (Ppu {
                        vram_manip: VRamManip::Read,
                        vram_address: v.wrapping_add(inc),
                        ..*old(self)
                    })
                })) && (!old(pins).cpu_rw ==> final(pins).cpu_data == old(pins).cpu_data && (
                if in_palette {
                    final(self).frame_palette_memory@ == spec_palette_write(
                        old(self).frame_palette_memory@,
                        palette_index,
                        old(pins).cpu_data,
                    ) && *final(self) == (Ppu {
                        frame_palette_memory: final(self).frame_palette_memory,
                        vram_address: v.wrapping_add(inc),
                        ..*old(self)
                    })
                } else {
                    *final(self) == (Ppu {
                        vram_data: old(pins).cpu_data,
                        vram_manip: VRamManip::Write,
                        vram_address: v.wrapping_add(inc),
                        ..*old(self)
                    })
                }))
            }),
    {
        if pins.cpu_addr == 0 {
            self.control_register = pins.cpu_data;
            self.temp_address = (self.temp_address & 0xF3FF) | ((self.base_nametable_address()
                as u16) << 10u16);
        } else if pins.cpu_addr == 1 {
            self.mask_register = pins.cpu_data;
        } else if pins.cpu_addr == 2 {
            pins.cpu_data = self.status_register;
            self.set_vblank_flag(false);
            self.w_register = false;
            proof {
                let st = old(self).status_register;
                assert((st & 0x7F) | (0u8 << 7u8) == st & 0x7F) by (bit_vector);
            }
        } else if pins.cpu_addr == 3 {
            self.oam_address_register = pins.cpu_data;
        } else if pins.cpu_addr == 4 {
            if pins.cpu_rw {
                pins.cpu_data = self.oam_memory[self.oam_address_register as usize];
            } else {
                self.oam_memory[self.oam_address_register as usize] = pins.cpu_data;
                self.oam_address_register = self.oam_address_register.wrapping_add(1);
            }
        } else if pins.cpu_addr == 5 {
            if !self.w_register {
                self.set_fine_x(pins.cpu_data % 8);
                self.set_course_x(pins.cpu_data >> 3u8);
                proof {
                    let d = old(pins).cpu_data;
                    assert(((d >> 3u8) as u16) & 0x001F == (((d >> 3u8) as u16) & 0x001F))
                        by (bit_vector);
                }
            } else {
                self.set_fine_y(pins.cpu_data & 0x07);
                self.set_course_y(pins.cpu_data >> 3u8);
            }
            self.w_register = !self.w_register;
        } else if pins.cpu_addr == 6 {
            if !self.w_register {
                self.temp_address = ((pins.cpu_data & 0x3F) as u16) << 8u16;
            } else {
                self.temp_address = (self.temp_address & 0xFF00) | (pins.cpu_data as u16);
                self.vram_address = self.temp_address;
            }
            self.w_register = !self.w_register;
        } else {
            // Register 7: the PPUDATA port.
            if pins.cpu_rw {
                if 0x3F00 <= self.vram_address && self.vram_address <= 0x3FFF {
                    let palette_address = (self.vram_address - 0x3F00) % 0x20;
                    pins.cpu_data = self.get_frame_palette(palette_address as usize);
                } else {
                    pins.cpu_data = self.internal_read_buffer;
                }
                self.vram_manip = VRamManip::Read;
            } else {
                if 0x3F00 <= self.vram_address && self.vram_address <= 0x3FFF {
                    let palette_address = (self.vram_address - 0x3F00) % 0x20;
                    self.set_frame_palette(palette_address as usize, pins.cpu_data);
                } else {
                    self.vram_data = pins.cpu_data;
                    self.vram_manip = VRamManip::Write;
                }
            }
            pins.ppu_address_high = (self.vram_address >> 8u16) as u8;
            pins.ppu_address_data_low = (self.vram_address & 0x00FF) as u8;
            pins.ppu_ale = true;
            let inc = self.vram_address_increment();
            self.vram_address = self.vram_address.wrapping_add(inc as u16);
        }
    }

    /// Write one palette RAM entry; entry 0 of each palette is mirrored
    /// between the background and sprite halves, so the write lands in
    /// both.
    fn set_frame_palette(&mut self, index: usize, value: u8)
        requires
            index < 32,
        ensures
            final(self).frame_palette_memory@ == spec_palette_write(
                old(self).frame_palette_memory@,
                index as int,
                value,
            ),
            *final(self) == (Ppu {
                frame_palette_memory: final(self).frame_palette_memory,
                ..*old(self)
            }),
    {
        self.frame_palette_memory[index] = value;
        let mirrored = if index % 4 == 0 {
            index ^ 0x10
        } else {
            index
        };
        proof {
            assert(index < 32 && index % 4 == 0 ==> ((index ^ 0x10) as int) == spec_palette_mirror(
                index as int,
            ) && (index ^ 0x10) < 32) by (bit_vector);
            assert(index % 4 == (index as int) % 4 || index >= 32) by (bit_vector);
        }
        self.frame_palette_memory[mirrored] = value;
    }
}

} // verus!
