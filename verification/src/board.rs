//! The board: couples the CPU and the PPU through their pinouts, owns
//! the internal RAM, VRAM, the cartridge ROM images and the controller
//! shift registers, runs the master clock (three PPU dots per CPU
//! cycle) and performs OAM DMA with the CPU suspended.

use vstd::prelude::*;

verus! {

use crate::cartidge::NameTableArrangement;
use crate::cpu::machine::{Cpu, CpuPinout, clock_step};
use crate::ppu::{Ppu, PpuPinout, VRamManip};

/// The whole console below the host shell.
pub struct NESBoard {
    pub cpu: Cpu,
    pub cpu_pins: CpuPinout,

    pub ppu: Ppu,
    pub ppu_pins: PpuPinout,
    pub ppu_address_latch: u8,

    pub ram: Vec<u8>,
    pub vram: Vec<u8>,
    /// Which physical VRAM page serves each logical nametable.
    pub mirroring: NameTableArrangement,
    pub prg_rom: Vec<u8>,
    pub chr_rom: Vec<u8>,
    pub chr_writable: bool,
    pub prg_ram: Vec<u8>,

    /// Raw input state of the two controllers.
    pub controllers: [u8; 2],
    /// Shift-register copies latched from the raw inputs.
    pub controllers_copy: [u8; 2],

    pub dma_active: bool,
    pub dma_write_cycle: bool,
    pub dma_address: u8,
    pub dma_address_lo: u8,
}

/// The CPU-visible byte at an address, where the address maps to plain
/// memory; bus-attached devices (the PPU and the controllers) are not
/// plain memory and yield no value here.
pub open spec fn spec_cpu_bus_read(b: NESBoard, addr: u16) -> Option<u8> {
    if addr < 0x2000 {
        Some(b.ram@[addr as int % 0x800])
    } else if 0x6000 <= addr < 0x8000 {
        Some(b.prg_ram@[(addr - 0x6000) as int % 0x800])
    } else if addr >= 0x8000 {
        Some(b.prg_rom@[(addr - 0x8000) as int % (b.prg_rom@.len() as int)])
    } else if 0x4020 <= addr < 0x6000 {
        // Unmapped expansion area: reads return 0 silently.
        Some(0)
    } else {
        None
    }
}

/// The physical VRAM index serving a nametable access at offset `rel`
/// below the nametable window.  The cartridge's arrangement picks which
/// of the two 1 KiB physical pages serves each of the four logical
/// nametables: under horizontal mirroring the upper pair shares the
/// second page, under vertical mirroring the odd pair does; a
/// mapper-controlled board falls back to the linear mirror.
pub open spec fn spec_vram_index(arr: NameTableArrangement, rel: int) -> int {
    let nt = (rel % 0x1000) / 0x400;
    let offset = rel % 0x400;
    match arr {
        NameTableArrangement::VERTICAL => (nt % 2) * 0x400 + offset,
        NameTableArrangement::HORIZONTAL => (nt / 2) * 0x400 + offset,
        NameTableArrangement::MapperControlled => rel % 0x800,
    }
}

/// The physical VRAM index for a nametable access.
fn vram_index(arr: NameTableArrangement, rel: usize) -> (r: usize)
    ensures
        r == spec_vram_index(arr, rel as int),
        r < 0x800,
{
    let nt = (rel % 0x1000) / 0x400;
    let offset = rel % 0x400;
    match arr {
        NameTableArrangement::VERTICAL => (nt % 2) * 0x400 + offset,
        NameTableArrangement::HORIZONTAL => (nt / 2) * 0x400 + offset,
        NameTableArrangement::MapperControlled => rel % 0x800,
    }
}

impl NESBoard {
    /// Structural soundness of the memories.
    pub open spec fn wf(&self) -> bool {
        &&& self.ppu.wf()
        &&& self.ram@.len() == 0x800
        &&& self.vram@.len() == 0x800
        &&& self.prg_rom@.len() > 0
        &&& self.chr_rom@.len() >= 0x2000
        &&& self.prg_ram@.len() == 0x800
    }

    /// Assemble a board.  The interrupt lines start asserted so that
    /// the CPU begins with a reset sequence.
    pub fn new(
        cpu: Cpu,
        internal_ram: Vec<u8>,
        internal_vram: Vec<u8>,
        prg_rom: Vec<u8>,
        chr_rom: Vec<u8>,
        chr_writable: bool,
        mirroring: NameTableArrangement,
    ) -> (r: NESBoard)
        requires
            internal_ram@.len() == 0x800,
            internal_vram@.len() == 0x800,
            prg_rom@.len() > 0,
            chr_rom@.len() >= 0x2000,
        ensures
            r.wf(),
            r.cpu == cpu,
            r.ram@ == internal_ram@,
            r.vram@ == internal_vram@,
            r.prg_rom@ == prg_rom@,
            r.chr_rom@ == chr_rom@,
            r.chr_writable == chr_writable,
            r.mirroring == mirroring,
            !r.dma_active,
            !r.cpu_pins.reset && !r.cpu_pins.irq && !r.cpu_pins.nmi,
            // Fresh PPU: pre-render line, all registers zero.
            r.ppu.scanline == 261 && r.ppu.cycle == 0 && !r.ppu.is_odd_frame,
            r.ppu.control_register == 0 && r.ppu.mask_register == 0 && r.ppu.status_register == 0,
            r.ppu.vram_address == 0 && r.ppu.temp_address == 0 && !r.ppu.w_register,
            forall|j: int| 0 <= j < 256 ==> r.ppu.oam_memory[j] == 0,
            forall|j: int| 0 <= j < 32 ==> r.ppu.frame_palette_memory[j] == 0,
            r.controllers[0] == 0 && r.controllers[1] == 0,
            r.controllers_copy[0] == 0 && r.controllers_copy[1] == 0,
            forall|j: int| 0 <= j < 0x800 ==> r.prg_ram@[j] == 0,
    {
        let cpu_pins = CpuPinout {
            irq: false,
            nmi: false,
            reset: false,
            phi: false,
            ready: false,
            data_bus: 0,
            address_bus: 0,
            address_rw: true,
            sync: false,
        };
        let ppu = Ppu::new();
        let ppu_pins = PpuPinout {
            nmi: false,
            cpu_rw: false,
            cpu_data: 0,
            ppu_address_data_low: 0,
            ppu_address_high: 0,
            ppu_r: false,
            ppu_w: false,
            ppu_sync: false,
            ppu_ale: false,
            cpu_control: false,
            cpu_addr: 0,
            finished_frame: false,
        };
        let mut prg_ram: Vec<u8> = Vec::new();
        while prg_ram.len() < 0x800
            invariant
                prg_ram@.len() <= 0x800,
                forall|j: int| 0 <= j < prg_ram@.len() ==> prg_ram@[j] == 0,
            decreases 0x800 - prg_ram@.len(),
        {
            prg_ram.push(0);
        }
        NESBoard {
            cpu,
            cpu_pins,
            ppu,
            ppu_pins,
            ppu_address_latch: 0,
            ram: internal_ram,
            vram: internal_vram,
            mirroring,
            prg_rom,
            chr_rom,
            chr_writable,
            prg_ram,
            controllers: [0; 2],
            controllers_copy: [0; 2],
            dma_active: false,
            dma_write_cycle: false,
            dma_address: 0,
            dma_address_lo: 0,
        }
    }

    /// Install the 64-entry RGB system palette.
    pub fn set_palette(&mut self, data: &[u8; 192])
        ensures
            *final(self) == (NESBoard { ppu: final(self).ppu, ..*old(self) }),
            final(self).ppu == (Ppu { system_palette_memory: *data, ..old(self).ppu }),
    {
        self.ppu.set_palette(data);
    }

    /// Resolve the CPU address for a read and place the byte on the
    /// data bus; a PPU register address raises the PPU control strobe
    /// instead, a controller port shifts its register.
    fn cpu_mem_read(&mut self)
        requires
            old(self).wf(),
        ensures
            final(self).wf(),
            final(self).cpu == old(self).cpu,
            final(self).controllers == old(self).controllers,
            final(self).dma_active == old(self).dma_active,
            final(self).dma_write_cycle == old(self).dma_write_cycle,
            final(self).dma_address == old(self).dma_address,
            final(self).dma_address_lo == old(self).dma_address_lo,
            final(self).cpu_pins.address_bus == old(self).cpu_pins.address_bus,
            final(self).ppu == old(self).ppu,
            spec_cpu_bus_read(*old(self), old(self).cpu_pins.address_bus) is Some ==> *final(self) == (NESBoard { cpu_pins: final(self).cpu_pins, ..*old(self) }) && final(self).cpu_pins == (CpuPinout {
                data_bus: spec_cpu_bus_read(*old(self), old(self).cpu_pins.address_bus)->Some_0,
                ..old(self).cpu_pins
            }),
            // A PPU register address raises the control strobe with the
            // register index; the data moves when the PPU is clocked.
            0x2000 <= old(self).cpu_pins.address_bus < 0x4000 ==> *final(self) == (NESBoard {
                ppu_pins: final(self).ppu_pins,
                ..*old(self)
            }) && final(self).ppu_pins == (PpuPinout {
                cpu_rw: old(self).cpu_pins.address_rw,
                cpu_addr: ((old(self).cpu_pins.address_bus - 0x2000) % 8) as u8,
                cpu_control: true,
                ..old(self).ppu_pins
            }),
            // A controller port returns the top bit of its shift
            // register and shifts it left.
            0x4016 <= old(self).cpu_pins.address_bus < 0x4018 ==> ({
                let which = (old(self).cpu_pins.address_bus % 2) as int;
                final(self).cpu_pins.data_bus == (old(self).controllers_copy[which] & 0x80)
                    >> 7u8 && final(self).controllers_copy[which] == old(self).controllers_copy[which] << 1u8
            }),
    {
        let addr = self.cpu_pins.address_bus;
        if addr < 0x2000 {
            let index = (addr as usize) % 0x800;
            self.cpu_pins.data_bus = self.ram[index];
        } else if addr < 0x4000 {
            let index = ((addr - 0x2000) % 8) as u8;
            self.ppu_pins.cpu_rw = self.cpu_pins.address_rw;
            self.ppu_pins.cpu_addr = index;
            self.ppu_pins.cpu_control = true;
            // The data bus is filled when the PPU is clocked.
        } else if addr < 0x4020 {
            if addr == 0x4016 || addr == 0x4017 {
                let controller = (addr % 2) as usize;
                self.cpu_pins.data_bus = (self.controllers_copy[controller] & 0x80) >> 7u8;
                self.controllers_copy[controller] = self.controllers_copy[controller] << 1u8;
            }
            // The APU is not modelled; other addresses read back nothing.
        } else if addr < 0x6000 {
            // Unmapped expansion area: reads return 0 silently.
            self.cpu_pins.data_bus = 0;
        } else if addr < 0x8000 {
            let index = ((addr - 0x6000) as usize) % 0x800;
            self.cpu_pins.data_bus = self.prg_ram[index];
        } else {
            let index = ((addr - 0x8000) as usize) % self.prg_rom.len();
            self.cpu_pins.data_bus = self.prg_rom[index];
        }
    }

    /// Resolve the CPU address for a write; 0x4014 begins OAM DMA and
    /// the controller ports latch the raw inputs.
    fn cpu_mem_write(&mut self)
        requires
            old(self).wf(),
        ensures
            final(self).wf(),
            final(self).cpu == old(self).cpu,
            final(self).controllers == old(self).controllers,
            final(self).cpu_pins == old(self).cpu_pins,
            final(self).ppu == old(self).ppu,
            old(self).cpu_pins.address_bus < 0x2000 ==> final(self).ram@ == old(self).ram@.update(
                old(self).cpu_pins.address_bus as int % 0x800,
                old(self).cpu_pins.data_bus,
            ) && *final(self) == (NESBoard { ram: final(self).ram, ..*old(self) }),
            0x2000 <= old(self).cpu_pins.address_bus < 0x4000 ==> *final(self) == (NESBoard {
                ppu_pins: final(self).ppu_pins,
                ..*old(self)
            }) && final(self).ppu_pins == (PpuPinout {
                cpu_rw: old(self).cpu_pins.address_rw,
                cpu_addr: ((old(self).cpu_pins.address_bus - 0x2000) % 8) as u8,
                cpu_control: true,
                cpu_data: old(self).cpu_pins.data_bus,
                ..old(self).ppu_pins
            }),
            // Writing the DMA port suspends the CPU and begins the
            // 512-cycle OAM transfer from the written page.
            old(self).cpu_pins.address_bus == 0x4014 ==> *final(self) == (NESBoard {
                dma_active: true,
                dma_address: old(self).cpu_pins.data_bus,
                dma_address_lo: 0,
                ..*old(self)
            }),
            0x4016 <= old(self).cpu_pins.address_bus < 0x4018 ==> ({
                let which = (old(self).cpu_pins.address_bus % 2) as int;
                final(self).controllers_copy[which] == old(self).controllers[which]
            }),
            0x6000 <= old(self).cpu_pins.address_bus < 0x8000 ==> final(self).prg_ram@ == old(self).prg_ram@.update(
                (old(self).cpu_pins.address_bus - 0x6000) as int % 0x800,
                old(self).cpu_pins.data_bus,
            ) && *final(self) == (NESBoard { prg_ram: final(self).prg_ram, ..*old(self) }),
            // PRG-ROM ignores writes.
            old(self).cpu_pins.address_bus >= 0x8000 ==> *final(self) == *old(self),
    {
        let addr = self.cpu_pins.address_bus;
        if addr < 0x2000 {
            let index = (addr as usize) % 0x800;
            self.ram[index] = self.cpu_pins.data_bus;
        } else if addr < 0x4000 {
            let index = ((addr - 0x2000) % 8) as u8;
            self.ppu_pins.cpu_rw = self.cpu_pins.address_rw;
            self.ppu_pins.cpu_addr = index;
            self.ppu_pins.cpu_control = true;
            // Hand the data from the CPU to the PPU.
            self.ppu_pins.cpu_data = self.cpu_pins.data_bus;
        } else if addr < 0x4020 {
            if addr == 0x4014 {
                // OAM DMA
                self.dma_active = true;
                self.dma_address = self.cpu_pins.data_bus;
                self.dma_address_lo = 0;
            } else if addr == 0x4016 || addr == 0x4017 {
                let controller = (addr % 2) as usize;
                self.controllers_copy[controller] = self.controllers[controller];
            }
        } else if addr < 0x6000 {
            // Unmapped expansion area: writes vanish silently.
        } else if addr < 0x8000 {
            let index = ((addr - 0x6000) as usize) % 0x800;
            self.prg_ram[index] = self.cpu_pins.data_bus;
        } else {
            // PRG-ROM: no writes.
        }
    }

    /// One CPU half-cycle.  During DMA the CPU is completely suspended:
    /// alternating half-cycles read the source byte and write it to the
    /// PPU OAM-data port.
    fn cpu_clock(&mut self, phi: bool)
        requires
            old(self).wf(),
        ensures
            final(self).wf(),
            final(self).controllers == old(self).controllers,
            // The first half-cycle can neither start nor stop DMA.
            !phi ==> final(self).dma_active == old(self).dma_active,
            final(self).ppu == old(self).ppu,
            // While DMA runs, the CPU is not clocked at all.
            old(self).dma_active ==> final(self).cpu == old(self).cpu,
            // The first half-cycle of a DMA cycle does nothing: each
            // read or write takes a whole CPU cycle, so the transfer
            // lasts 512 cycles.
            old(self).dma_active && !phi ==> *final(self) == *old(self),
            // DMA write cycle: the byte on the data bus goes to OAM and
            // the low counter advances; DMA ends when it wraps to zero.
            old(self).dma_active && phi && old(self).dma_write_cycle ==> final(self).dma_address_lo == old(self).dma_address_lo.wrapping_add(1)
                && final(self).dma_active == (old(self).dma_address_lo.wrapping_add(1) != 0)
                && !final(self).dma_write_cycle && final(self).ppu_pins == (PpuPinout {
                cpu_addr: 4,
                cpu_data: old(self).cpu_pins.data_bus,
                cpu_rw: false,
                cpu_control: true,
                ..old(self).ppu_pins
            }),
            // DMA read cycle: the source byte is fetched.
            old(self).dma_active && phi && !old(self).dma_write_cycle ==> final(self).dma_write_cycle && final(self).dma_active && final(self).cpu_pins.address_bus == (((old(self).dma_address as u16) << 8u16) | (old(self).dma_address_lo as u16)),
            // Otherwise the CPU is clocked against the bus.
            !old(self).dma_active ==> final(self).cpu == clock_step(
                old(self).cpu,
                CpuPinout { phi, ..old(self).cpu_pins },
            ).0,
    {
        // The CPU is completely suspended during DMA; not even the
        // READY pin is involved.  One source read or one OAM write
        // happens per CPU cycle, on its second half-cycle: 256 bytes
        // take 512 cycles.
        if self.dma_active {
            if !phi {
                return ;
            }
            if self.dma_write_cycle {
                // write cycle
                self.ppu_pins.cpu_addr = 0x4;
                self.ppu_pins.cpu_data = self.cpu_pins.data_bus;
                self.ppu_pins.cpu_rw = false;
                self.ppu_pins.cpu_control = true;

                self.dma_address_lo = self.dma_address_lo.wrapping_add(1);
                self.dma_active = self.dma_address_lo > 0;
            } else {
                // read cycle
                self.cpu_pins.address_bus = ((self.dma_address as u16) << 8u16) | (
                self.dma_address_lo as u16);
                self.cpu_mem_read();
            }
            self.dma_write_cycle = !self.dma_write_cycle;
            return ;
        }
        self.cpu_pins.phi = phi;
        let mut pins = self.cpu_pins;
        let _cycle_occured = self.cpu.clock(&mut pins);
        self.cpu_pins = pins;
        if self.cpu_pins.address_rw && !phi {
            self.cpu_mem_read();
        } else if !self.cpu_pins.address_rw && phi {
            self.cpu_mem_write();
        }
    }

    /// Resolve one video-memory access: a raised read or write strobe
    /// hits CHR below the nametable window and the internal VRAM above
    /// it, where the cartridge's arrangement picks the physical page
    /// for each logical nametable.
    fn resolve_video_bus(&mut self, addr: usize)
        requires
            old(self).wf(),
        ensures
            final(self).wf(),
            *final(self) == (NESBoard {
                chr_rom: final(self).chr_rom,
                vram: final(self).vram,
                ppu_pins: final(self).ppu_pins,
                ..*old(self)
            }),
            final(self).chr_rom@.len() == old(self).chr_rom@.len(),
            final(self).ppu_pins == (PpuPinout {
                ppu_address_data_low: final(self).ppu_pins.ppu_address_data_low,
                ..old(self).ppu_pins
            }),
    {
        if self.ppu_pins.ppu_r || self.ppu_pins.ppu_w {
            if addr < 0x2000 {
                if self.ppu_pins.ppu_r {
                    self.ppu_pins.ppu_address_data_low = self.chr_rom[addr];
                } else if self.chr_writable {
                    // CHR-RAM boards take the write; CHR-ROM ignores it.
                    self.chr_rom[addr] = self.ppu_pins.ppu_address_data_low;
                }
            } else {
                let index = vram_index(self.mirroring, addr - 0x2000);
                if self.ppu_pins.ppu_r {
                    self.ppu_pins.ppu_address_data_low = self.vram[index];
                } else {
                    self.vram[index] = self.ppu_pins.ppu_address_data_low;
                }
            }
        }
    }

    /// One PPU dot: clock the PPU, resolve its video-memory access
    /// against CHR and VRAM, and bridge a register access back to the
    /// CPU data bus.  Returns true when a frame was completed.
    #[verifier::rlimit(100)]
    fn ppu_clock(&mut self) -> (r: bool)
        requires
            old(self).wf(),
        ensures
            final(self).wf(),
            final(self).controllers == old(self).controllers,
            final(self).cpu == old(self).cpu,
            final(self).dma_active == old(self).dma_active,
            r == final(self).ppu_pins.finished_frame,
            // The PPU advances exactly one dot per call.
            old(self).ppu.scanline == 261 && old(self).ppu.cycle == 339 && old(self).ppu.is_odd_frame && crate::ppu::spec_bg_rendering(final(self).ppu.mask_register)
                ==> final(self).ppu.cycle == 0 && final(self).ppu.scanline == 0,
            !(old(self).ppu.scanline == 261 && old(self).ppu.cycle == 339 && old(self).ppu.is_odd_frame && crate::ppu::spec_bg_rendering(final(self).ppu.mask_register))
                ==> final(self).ppu.cycle == (old(self).ppu.cycle + 1) % 341 && final(self).ppu.scanline == (if (old(self).ppu.cycle + 1) % 341 == 0 {
                (old(self).ppu.scanline + 1) % 262
            } else {
                old(self).ppu.scanline as int
            }),
            final(self).ppu.is_odd_frame == (if old(self).ppu.scanline == 261 && old(self).ppu.cycle == 1 {
                !old(self).ppu.is_odd_frame
            } else {
                old(self).ppu.is_odd_frame
            }),
            // The frame-completed flag rises exactly on the last dot of
            // the frame (the skipped dot included).
            r == (old(self).ppu.scanline == 261 && (old(self).ppu.cycle == 340 || (old(self).ppu.cycle == 339 && old(self).ppu.is_odd_frame && crate::ppu::spec_bg_rendering(
                final(self).ppu.mask_register,
            )))),
    {
        let mut pins = self.ppu_pins;
        self.ppu.clock(&mut pins);
        self.ppu_pins = pins;
        self.cpu_pins.nmi = self.cpu_pins.nmi && self.ppu_pins.nmi;
        if self.ppu_pins.ppu_ale {
            self.ppu_address_latch = self.ppu_pins.ppu_address_data_low;
        }
        let addr = ((self.ppu_pins.ppu_address_high as usize) << 8usize) | (
        self.ppu_address_latch as usize);
        self.resolve_video_bus(addr);
        // Pass buffered data back to the CPU during a register read;
        // this happens between the two CPU half-cycles.
        if self.ppu_pins.cpu_control && self.ppu_pins.cpu_rw {
            self.cpu_pins.data_bus = self.ppu_pins.cpu_data;
        }
        // Do not keep the PPU in a state of manipulating registers.
        self.ppu_pins.cpu_control = false;

        self.ppu_pins.finished_frame
    }

    /// One master clock cycle: three PPU dots interleaved with the two
    /// CPU half-cycles, then the interrupt request lines are re-armed.
    /// Returns true when a frame was completed during these three dots;
    /// at the one dot index where the answer depends on the odd-frame
    /// skip the contract leaves it open.
    pub fn clock(&mut self, _ready: bool) -> (r: bool)
        requires
            old(self).wf(),
        ensures
            final(self).wf(),
            final(self).cpu_pins.reset && final(self).cpu_pins.irq && final(self).cpu_pins.nmi,
            final(self).controllers == old(self).controllers,
            // While DMA runs the CPU is completely suspended.
            old(self).dma_active ==> final(self).cpu == old(self).cpu,
            // Otherwise the CPU is stepped through exactly one first
            // and one second half-cycle against the bus.
            !old(self).dma_active ==> exists|p1: CpuPinout, p2: CpuPinout|
                !p1.phi && p2.phi && final(self).cpu == #[trigger] clock_step(
                    clock_step(old(self).cpu, p1).0,
                    p2,
                ).0,
            // The frame-completed return tracks the dot position.
            crate::ppu::spec_dot_index(old(self).ppu) + 5 <= 341 * 262 ==> r == false,
            crate::ppu::spec_dot_index(old(self).ppu) + 3 >= 341 * 262 ==> r == true,
    {
        proof {
            let sl = old(self).ppu.scanline;
            assert(sl * 341 <= 261 * 341) by (nonlinear_arith)
                requires
                    sl <= 261,
            ;
        }
        let ff_1 = self.ppu_clock();
        let ghost q1 = self.ppu;
        let ff_2 = self.ppu_clock();
        let ghost q2 = self.ppu;

        let ghost pins1 = self.cpu_pins;
        self.cpu_clock(false);

        // One PPU dot between the half-cycles handles reading from the
        // PPU registers.
        let ff_3 = self.ppu_clock();

        proof {
            let s0 = old(self).ppu.scanline;
            let c0 = old(self).ppu.cycle;
            assert(s0 <= 260 ==> s0 * 341 <= 260 * 341) by (nonlinear_arith);
            let s1 = q1.scanline;
            assert(s1 <= 260 ==> s1 * 341 <= 260 * 341) by (nonlinear_arith);
            let s2 = q2.scanline;
            assert(s2 <= 260 ==> s2 * 341 <= 260 * 341) by (nonlinear_arith);
        }

        let ghost pins2 = self.cpu_pins;
        self.cpu_clock(true);
        proof {
            if !old(self).dma_active {
                let w1 = CpuPinout { phi: false, ..pins1 };
                let w2 = CpuPinout { phi: true, ..pins2 };
                assert(!w1.phi && w2.phi && self.cpu == clock_step(
                    clock_step(old(self).cpu, w1).0,
                    w2,
                ).0);
            }
        }

        // Re-arm the interrupt request lines.
        self.cpu_pins.reset = true;
        self.cpu_pins.irq = true;
        self.cpu_pins.nmi = true;
        ff_1 || ff_2 || ff_3
    }

    /// The CPU, for inspection.
    pub fn cpu(&self) -> (r: &Cpu)
        ensures
            r == &self.cpu,
    {
        &self.cpu
    }

    /// The internal RAM, for inspection.
    pub fn ram(&self) -> (r: &Vec<u8>)
        ensures
            r@ == self.ram@,
    {
        &self.ram
    }

    /// The frame buffer, for the host shell to upload.
    pub fn video_memory(&self) -> (r: &Vec<u8>)
        ensures
            r@ == self.ppu.video_data@,
    {
        self.ppu.video_data()
    }

    /// Assert the reset line for the current master cycle.
    pub fn reset(&mut self)
        ensures
            *final(self) == (NESBoard { cpu_pins: final(self).cpu_pins, ..*old(self) }),
            final(self).cpu_pins == (CpuPinout { reset: false, ..old(self).cpu_pins }),
    {
        self.cpu_pins.reset = false;
    }

    /// Assert the IRQ line for the current master cycle.
    pub fn irq(&mut self)
        ensures
            *final(self) == (NESBoard { cpu_pins: final(self).cpu_pins, ..*old(self) }),
            final(self).cpu_pins == (CpuPinout { irq: false, ..old(self).cpu_pins }),
    {
        self.cpu_pins.irq = false;
    }

    /// Assert the NMI line for the current master cycle.
    pub fn nmi(&mut self)
        ensures
            *final(self) == (NESBoard { cpu_pins: final(self).cpu_pins, ..*old(self) }),
            final(self).cpu_pins == (CpuPinout { nmi: false, ..old(self).cpu_pins }),
    {
        self.cpu_pins.nmi = false;
    }

    /// Overwrite one controller's raw input byte.
    pub fn set_controller(&mut self, controller: usize, inputs: u8)
        requires
            controller < 2,
        ensures
            final(self).controllers@ == old(self).controllers@.update(controller as int, inputs),
            *final(self) == (NESBoard { controllers: final(self).controllers, ..*old(self) }),
    {
        self.controllers[controller] = inputs;
    }

    /// Set or clear one button bit of a controller.
    pub fn set_controller_button(&mut self, controller: usize, button: u8, state: bool)
        requires
            controller < 2,
            button < 8,
        ensures
            final(self).controllers@ == old(self).controllers@.update(
                controller as int,
                (old(self).controllers[controller as int] & !(1u8 << button)) | ((if state {
                    1u8
                } else {
                    0u8
                }) << button),
            ),
            *final(self) == (NESBoard { controllers: final(self).controllers, ..*old(self) }),
    {
        let button_mask = 1u8 << button;
        let state_mask: u8 = (if state {
            1u8
        } else {
            0u8
        }) << button;
        self.controllers[controller] = (self.controllers[controller] & !button_mask) | state_mask;
    }
}

} // verus!
