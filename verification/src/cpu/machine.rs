//! State and micro-step machinery of the 6502.
//!
//! The CPU is a state machine over a micro-step counter: each instruction
//! decomposes into an addressing phase, an execution phase and an
//! instruction-fetch step.  `clock` advances the machine by one half-cycle
//! (phi false = first half, reads; phi true = second half, writes).

use vstd::prelude::*;

verus! {

use crate::cpu::instructions::{OP_NOP, OP_LDA, OP_LDX, OP_LDY, OP_ADC, OP_AND, OP_ASL, OP_BCC,
    OP_BCS, OP_BEQ, OP_BIT, OP_BMI, OP_BNE, OP_BPL, OP_BRK, OP_BVC, OP_BVS, OP_CLC, OP_CLD,
    OP_CLI, OP_CLV, OP_CMP, OP_CPX, OP_CPY, OP_DEC, OP_DEX, OP_DEY, OP_EOR, OP_INC, OP_INX,
    OP_INY, OP_JMP, OP_JSR, OP_LSR, OP_ORA, OP_PHA, OP_PHP, OP_PLA, OP_PLP, OP_ROL, OP_ROR,
    OP_RTI, OP_RTS, OP_SBC, OP_SEC, OP_SED, OP_SEI, OP_STA, OP_STX, OP_STY, OP_TAX, OP_TAY,
    OP_TSX, OP_TXA, OP_TXS, OP_TYA, OP_SLO, OP_RLA, OP_SRE, OP_RRA, OP_SAX, OP_LAX, OP_DCP,
    OP_ISC, OP_ANC, OP_ALR, OP_ARR, OP_SBX, OP_SHA, OP_SHY, OP_SHX, OP_TAS, OP_LAS, OP_ANE,
    OP_ANX, OP_JAM, MODE_IMP, MODE_ACC, MODE_IMM, MODE_ZP, MODE_ZP_X, MODE_ZP_Y, MODE_REL,
    MODE_ABS, MODE_ABS_X, MODE_ABS_Y, MODE_IND, MODE_IND_X, MODE_IND_Y, lookup, spec_decode};

// Status flag bit masks.
pub const FLAG_C: u8 = 0x01;
pub const FLAG_Z: u8 = 0x02;
pub const FLAG_I: u8 = 0x04;
pub const FLAG_D: u8 = 0x08;
pub const FLAG_B: u8 = 0x10;
pub const FLAG_U: u8 = 0x20;
pub const FLAG_V: u8 = 0x40;
pub const FLAG_N: u8 = 0x80;

/// The CPU side of the bus: wires held between half-cycle ticks.
/// The interrupt lines `irq`, `nmi`, `reset` and `ready` are active-low:
/// `false` means asserted.
#[derive(Clone, Copy)]
pub struct CpuPinout {
    pub irq: bool,
    pub nmi: bool,
    pub reset: bool,
    pub phi: bool,
    pub ready: bool,
    pub data_bus: u8,
    pub address_bus: u16,
    pub address_rw: bool,
    pub sync: bool,
}

/// Micro-step pointer: addressing steps, execution steps, then the
/// instruction-fetch step.
#[derive(Clone, Copy, PartialEq, Eq, Structural, Debug)]
pub enum PipelineStatus {
    Addr0,
    Addr1,
    Addr2,
    Addr3,
    Addr4,
    Addr5,
    Exec0,
    Exec1,
    Exec2,
    Exec3,
    Exec4,
    Exec5,
    Exec6,
    IR,
}

/// Which interrupt sequence, if any, the current pseudo-BRK services.
#[derive(Clone, Copy, PartialEq, Eq, Structural, Debug)]
pub enum ServicedInterrupt {
    NoInterrupt,
    Irq,
    Nmi,
    Reset,
}

pub open spec fn advance_spec(p: PipelineStatus) -> PipelineStatus {
    match p {
        PipelineStatus::Addr0 => PipelineStatus::Addr1,
        PipelineStatus::Addr1 => PipelineStatus::Addr2,
        PipelineStatus::Addr2 => PipelineStatus::Addr3,
        PipelineStatus::Addr3 => PipelineStatus::Addr4,
        PipelineStatus::Addr4 => PipelineStatus::Addr5,
        PipelineStatus::Addr5 => PipelineStatus::Exec0,
        PipelineStatus::Exec0 => PipelineStatus::Exec1,
        PipelineStatus::Exec1 => PipelineStatus::Exec2,
        PipelineStatus::Exec2 => PipelineStatus::Exec3,
        PipelineStatus::Exec3 => PipelineStatus::Exec4,
        PipelineStatus::Exec4 => PipelineStatus::Exec5,
        PipelineStatus::Exec5 => PipelineStatus::Exec6,
        PipelineStatus::Exec6 => PipelineStatus::IR,
        PipelineStatus::IR => PipelineStatus::Addr0,
    }
}

impl PipelineStatus {
    pub fn advance(&mut self)
        ensures
            *final(self) == advance_spec(*old(self)),
    {
        *self = match *self {
            PipelineStatus::Addr0 => PipelineStatus::Addr1,
            PipelineStatus::Addr1 => PipelineStatus::Addr2,
            PipelineStatus::Addr2 => PipelineStatus::Addr3,
            PipelineStatus::Addr3 => PipelineStatus::Addr4,
            PipelineStatus::Addr4 => PipelineStatus::Addr5,
            PipelineStatus::Addr5 => PipelineStatus::Exec0,
            PipelineStatus::Exec0 => PipelineStatus::Exec1,
            PipelineStatus::Exec1 => PipelineStatus::Exec2,
            PipelineStatus::Exec2 => PipelineStatus::Exec3,
            PipelineStatus::Exec3 => PipelineStatus::Exec4,
            PipelineStatus::Exec4 => PipelineStatus::Exec5,
            PipelineStatus::Exec5 => PipelineStatus::Exec6,
            PipelineStatus::Exec6 => PipelineStatus::IR,
            PipelineStatus::IR => PipelineStatus::Addr0,
        };
    }
}

pub open spec fn spec_lo_byte(word: u16) -> u8 {
    (word & 0x00FF) as u8
}

pub open spec fn spec_hi_byte(word: u16) -> u8 {
    (word >> 8) as u8
}

pub open spec fn spec_with_lo_byte(word: u16, byte: u8) -> u16 {
    (word & 0xFF00) | (byte as u16)
}

pub open spec fn spec_with_hi_byte(word: u16, byte: u8) -> u16 {
    (word & 0x00FF) | ((byte as u16) << 8)
}

/// Low byte of a 16-bit word.
pub fn lo_byte(word: u16) -> (r: u8)
    ensures
        r == spec_lo_byte(word),
{
    (word & 0x00FF) as u8
}

/// High byte of a 16-bit word.
pub fn hi_byte(word: u16) -> (r: u8)
    ensures
        r == spec_hi_byte(word),
{
    (word >> 8) as u8
}

fn set_lo_byte(word: &mut u16, byte: u8)
    ensures
        *final(word) == spec_with_lo_byte(*old(word), byte),
{
    *word = (*word & 0xFF00) | (byte as u16);
}

fn set_hi_byte(word: &mut u16, byte: u8)
    ensures
        *final(word) == spec_with_hi_byte(*old(word), byte),
{
    *word = (*word & 0x00FF) | ((byte as u16) << 8);
}

/// Splitting a word into bytes and putting the bytes back yields the word.
pub proof fn lemma_byte_split_roundtrip(word: u16)
    ensures
        spec_with_hi_byte(spec_with_lo_byte(0, spec_lo_byte(word)), spec_hi_byte(word)) == word,
        spec_with_lo_byte(spec_with_hi_byte(0, spec_hi_byte(word)), spec_lo_byte(word)) == word,
{
    assert(((0u16 & 0xFF00) | (((word & 0x00FF) as u8) as u16)) & 0x00FF
            | ((((word >> 8) as u8) as u16) << 8) == word) by (bit_vector);
    assert(((0u16 & 0x00FF) | ((((word >> 8) as u8) as u16) << 8)) & 0xFF00
            | (((word & 0x00FF) as u8) as u16) == word) by (bit_vector);
}

pub open spec fn flag_set(status: u8, flag: u8) -> bool {
    status & flag != 0
}

pub open spec fn spec_set_flag(status: u8, flag: u8, v: bool) -> u8 {
    if v {
        status | flag
    } else {
        status & !flag
    }
}

/// Status after updating N from a value's sign bit.
pub open spec fn spec_n_flag(status: u8, value: u8) -> u8 {
    spec_set_flag(status, FLAG_N, value & 0x80 != 0)
}

/// Status after updating Z from a value being zero.
pub open spec fn spec_z_flag(status: u8, value: u8) -> u8 {
    spec_set_flag(status, FLAG_Z, value == 0)
}

/// Status after updating both N and Z from a value.
pub open spec fn spec_nz_flags(status: u8, value: u8) -> u8 {
    spec_z_flag(spec_n_flag(status, value), value)
}

/// Status after updating N, Z from the low byte and C from bit 8 of a
/// 9-bit intermediate result.
pub open spec fn spec_nzc_flags(status: u8, value: u16) -> u8 {
    spec_set_flag(spec_nz_flags(status, value as u8), FLAG_C, value > 255)
}

/// The 6502 CPU: registers, micro-step latches and interrupt bookkeeping.
pub struct Cpu {
    pub a: u8,
    pub x: u8,
    pub y: u8,
    pub stkpt: u8,
    pub pc: u16,
    pub status: u8,

    pub pipeline_status: PipelineStatus,
    pub page_boundary_crossed: bool,
    pub did_page_break_this_instruction: bool,
    pub internal_carry: bool,

    pub fetched: u8,
    pub temp: u8,

    pub addr_data: u16,

    pub opcode: u8,
    pub serviced_interrupt: ServicedInterrupt,

    // Interrupt lines latched from the pinout each half-cycle and
    // consumed at the next instruction-fetch boundary.
    pub pending_reset: bool,
    pub pending_nmi: bool,
    pub pending_irq: bool,

    pub cycles: usize,
}

impl Cpu {
    /// A zeroed CPU, waiting at the start of the addressing phase of
    /// opcode 0 (BRK).
    pub fn new() -> (r: Cpu)
        ensures
            r.a == 0 && r.x == 0 && r.y == 0 && r.stkpt == 0 && r.pc == 0,
            r.status == 0,
            r.pipeline_status == PipelineStatus::Addr0,
            !r.page_boundary_crossed,
            !r.did_page_break_this_instruction,
            !r.internal_carry,
            r.fetched == 0 && r.temp == 0 && r.addr_data == 0 && r.opcode == 0,
            r.serviced_interrupt == ServicedInterrupt::NoInterrupt,
            !r.pending_reset && !r.pending_nmi && !r.pending_irq,
            r.cycles == 0,
    {
        Cpu {
            a: 0,
            x: 0,
            y: 0,
            stkpt: 0,
            pc: 0,
            status: 0,
            pipeline_status: PipelineStatus::Addr0,
            page_boundary_crossed: false,
            did_page_break_this_instruction: false,
            internal_carry: false,
            fetched: 0,
            temp: 0,
            addr_data: 0,
            opcode: 0,
            serviced_interrupt: ServicedInterrupt::NoInterrupt,
            pending_reset: false,
            pending_nmi: false,
            pending_irq: false,
            cycles: 0,
        }
    }

    /// True if the given flag bit is set in the status register.
    pub fn get_flag(&self, flag: u8) -> (r: bool)
        ensures
            r == flag_set(self.status, flag),
    {
        self.status & flag != 0
    }

    /// The whole status register.
    pub fn get_status(&self) -> (r: u8)
        ensures
            r == self.status,
    {
        self.status
    }

    /// Set or clear one flag bit.
    pub fn set_flag(&mut self, flag: u8, v: bool)
        ensures
            *final(self) == (Cpu { status: spec_set_flag(old(self).status, flag, v), ..*old(self) }),
    {
        if v {
            self.status = self.status | flag;
        } else {
            self.status = self.status & !flag;
        }
    }

    /// Replace the whole status register.
    pub fn set_flags(&mut self, flags: u8)
        ensures
            *final(self) == (Cpu { status: flags, ..*old(self) }),
    {
        self.status = flags;
    }

    /// Update N from the sign bit of `value`.
    pub fn check_n_flag(&mut self, value: u8)
        ensures
            *final(self) == (Cpu { status: spec_n_flag(old(self).status, value), ..*old(self) }),
    {
        self.set_flag(FLAG_N, (value & 0x80) > 0);
    }

    /// Update Z from `value` being zero.
    pub fn check_z_flag(&mut self, value: u8)
        ensures
            *final(self) == (Cpu { status: spec_z_flag(old(self).status, value), ..*old(self) }),
    {
        self.set_flag(FLAG_Z, value == 0);
    }

    /// Update C from bit 8 of a 9-bit intermediate result.
    pub fn check_c_flag(&mut self, value: u16)
        ensures
            *final(self) == (Cpu {
                status: spec_set_flag(old(self).status, FLAG_C, value > 255),
                ..*old(self)
            }),
    {
        self.set_flag(FLAG_C, value > 255);
    }

    /// Update N and Z from `value`.
    pub fn check_nz_flags(&mut self, value: u8)
        ensures
            *final(self) == (Cpu { status: spec_nz_flags(old(self).status, value), ..*old(self) }),
    {
        self.check_n_flag(value);
        self.check_z_flag(value);
    }

    /// Update N and Z from the low byte of `value` and C from bit 8.
    pub fn check_nzc_flags(&mut self, value: u16)
        ensures
            *final(self) == (Cpu { status: spec_nzc_flags(old(self).status, value), ..*old(self) }),
    {
        self.check_n_flag(value as u8);
        self.check_z_flag(value as u8);
        self.check_c_flag(value);
    }

    /// 1 if the two addresses lie in different pages, else 0.
    pub fn page_boundary_crossed(addr_old: u16, addr_new: u16) -> (r: u16)
        ensures
            r == ((addr_old ^ addr_new) >> 8) & 0x01,
    {
        ((addr_old ^ addr_new) >> 8) & 0x01
    }
}

// Classification of operations, shared by the addressing machinery.

/// Read-modify-write memory operations.
pub open spec fn is_rmw_op(op: u8) -> bool {
    op == OP_DEC || op == OP_INC || op == OP_LSR || op == OP_ROL || op == OP_ROR || op == OP_ASL
}

/// Plain store operations.
pub open spec fn is_store_op(op: u8) -> bool {
    op == OP_STA || op == OP_STX || op == OP_STY || op == OP_SAX
}

/// Operations that always take the page-boundary fixup cycle on an
/// indexed access, whether or not the low-byte addition carried.
pub open spec fn forces_page_fix(op: u8) -> bool {
    op == OP_STA || is_rmw_op(op)
}

// Value-level semantics of the arithmetic helpers.

/// The 9-bit intermediate sum of the shared ADC/SBC adder.
pub open spec fn spec_adc_sum(a: u8, b: u8, carry: bool) -> u16 {
    (a as u16 + b as u16 + (if carry { 1u16 } else { 0u16 })) as u16
}

/// Two's-complement overflow of the adder: the addends' signs agree and
/// differ from the result's sign.
pub open spec fn spec_adc_overflow(a: u8, b: u8, sum: u16) -> bool {
    ((!(a as u16 ^ b as u16) & (a as u16 ^ sum)) & 0x0080) > 0
}

/// CPU state after the shared ADC/SBC adder has run on operand `b`.
pub open spec fn spec_add_carry(c: Cpu, b: u8) -> Cpu {
    let sum = spec_adc_sum(c.a, b, flag_set(c.status, FLAG_C));
    Cpu {
        a: spec_lo_byte(sum),
        status: spec_set_flag(spec_nzc_flags(c.status, sum), FLAG_V, spec_adc_overflow(c.a, b, sum)),
        ..c
    }
}

/// CPU state after a branch predicate has been evaluated: on a taken
/// branch the low byte of PC moves by the fetched offset and the carry
/// out of that addition is latched.
pub open spec fn spec_branch(c: Cpu, taken: bool) -> Cpu {
    if taken {
        let old_lo = spec_lo_byte(c.pc);
        let new_lo = old_lo.wrapping_add(c.fetched);
        Cpu {
            pc: spec_with_lo_byte(c.pc, new_lo),
            internal_carry: new_lo < old_lo,
            ..c
        }
    } else {
        c
    }
}

/// Value driven instead of a quirky store's data when the indexed
/// address crossed a page: the value ANDed with the incremented high
/// byte of the address.
pub open spec fn spec_instable_store_value(c: Cpu, value: u8, address: u16) -> u8 {
    spec_hi_byte(address).wrapping_add(1u8.wrapping_sub(if c.did_page_break_this_instruction {
        1u8
    } else {
        0u8
    })) & value
}

/// Address driven by a quirky store: on a page crossing the high byte is
/// ANDed with the stored value.
pub open spec fn spec_instable_store_address(c: Cpu, value: u8, address: u16) -> u16 {
    if c.did_page_break_this_instruction {
        spec_with_hi_byte(address, spec_hi_byte(address) & value)
    } else {
        spec_with_hi_byte(address, spec_hi_byte(address))
    }
}

impl Cpu {
    /// Generalized branch: on a taken branch, add the fetched offset to
    /// the low byte of PC and remember the carry.  Returns true when the
    /// instruction is finished (branch not taken).
    fn branch(&mut self, flag: bool) -> (r: bool)
        ensures
            *final(self) == spec_branch(*old(self), flag),
            r == !flag,
    {
        if flag {
            let old_lo = lo_byte(self.pc);
            let new_lo = old_lo.wrapping_add(self.fetched);
            set_lo_byte(&mut self.pc, new_lo);
            self.internal_carry = new_lo < old_lo;
        }
        !flag
    }

    /// Decrement with N and Z update.
    fn decrement(&mut self, value: u8) -> (r: u8)
        ensures
            r == value.wrapping_sub(1),
            *final(self) == (Cpu {
                status: spec_nz_flags(old(self).status, value.wrapping_sub(1)),
                ..*old(self)
            }),
    {
        let temp = value.wrapping_sub(1);
        self.check_nz_flags(temp);
        temp
    }

    /// Increment with N and Z update.
    fn increment(&mut self, value: u8) -> (r: u8)
        ensures
            r == value.wrapping_add(1),
            *final(self) == (Cpu {
                status: spec_nz_flags(old(self).status, value.wrapping_add(1)),
                ..*old(self)
            }),
    {
        let temp = value.wrapping_add(1);
        self.check_nz_flags(temp);
        temp
    }

    /// Compare `a` against `b`: N and Z from the difference, C iff no
    /// borrow.  The difference is latched in `temp`.
    fn compare(&mut self, a: u8, b: u8)
        ensures
            *final(self) == (Cpu {
                temp: a.wrapping_sub(b),
                status: spec_set_flag(
                    spec_nz_flags(old(self).status, a.wrapping_sub(b)),
                    FLAG_C,
                    a >= b,
                ),
                ..*old(self)
            }),
    {
        self.temp = a.wrapping_sub(b);
        self.check_nz_flags(self.temp);
        self.set_flag(FLAG_C, a >= b);
    }

    /// The shared ADC/SBC adder: A := A + b + C with N, Z, C and V
    /// updated.  SBC passes the operand bitwise-complemented.
    fn add_carry(&mut self, b: u8)
        ensures
            *final(self) == spec_add_carry(*old(self), b),
    {
        let carry: u16 = if self.get_flag(FLAG_C) { 1 } else { 0 };
        let temp: u16 = self.a as u16 + b as u16 + carry;
        self.check_nzc_flags(temp);
        self.set_flag(FLAG_V, ((!(self.a as u16 ^ b as u16) & (self.a as u16 ^ temp)) & 0x0080) > 0);
        self.a = lo_byte(temp);
    }

    fn instable_store_value(&self, value: u8, address: u16) -> (r: u8)
        ensures
            r == spec_instable_store_value(*self, value, address),
    {
        let page_breaked: u8 = if self.did_page_break_this_instruction {
            1
        } else {
            0
        };
        hi_byte(address).wrapping_add(1u8.wrapping_sub(page_breaked)) & value
    }

    fn instable_store_address(&self, value: u8, address: u16) -> (r: u16)
        ensures
            r == spec_instable_store_address(*self, value, address),
    {
        let mut address = address;
        let hi = hi_byte(address);
        let hi = if self.did_page_break_this_instruction {
            hi & value
        } else {
            hi
        };
        set_hi_byte(&mut address, hi);
        address
    }
}

/// Index register added during effective-address formation for a mode.
pub open spec fn spec_index_offset(c: Cpu, addrmode: u8) -> u8 {
    if addrmode == MODE_ABS_X || addrmode == MODE_ZP_X {
        c.x
    } else if addrmode == MODE_ABS_Y || addrmode == MODE_ZP_Y {
        c.y
    } else {
        0u8
    }
}

/// One half-cycle of the addressing phase, as a mathematical transition:
/// the CPU state and pinout afterwards, and whether the addressing phase
/// is finished so that execution starts at once.
#[verifier::opaque]
pub open spec fn addrmode_step(c: Cpu, p: CpuPinout, opcode: u8, addrmode: u8) -> (
    Cpu,
    CpuPinout,
    bool,
) {
    let skip_read = is_store_op(opcode);
    let offset = spec_index_offset(c, addrmode);
    let do_pagebreak_anyways = forces_page_fix(opcode);
    if addrmode == MODE_IMP {
        match (c.pipeline_status, p.phi) {
            (PipelineStatus::Addr0, false) => (c, p, false),
            _ => (c, p, true),
        }
    } else if addrmode == MODE_ACC {
        match (c.pipeline_status, p.phi) {
            (PipelineStatus::Addr0, false) => (Cpu { fetched: c.a, ..c }, p, false),
            _ => (c, p, true),
        }
    } else if addrmode == MODE_IMM || addrmode == MODE_REL {
        match (c.pipeline_status, p.phi) {
            (PipelineStatus::Addr0, false) => (
                c,
                CpuPinout { address_bus: c.pc, address_rw: true, ..p },
                false,
            ),
            (PipelineStatus::Addr0, true) => (
                Cpu {
                    fetched: p.data_bus,
                    addr_data: p.data_bus as u16,
                    pc: c.pc.wrapping_add(1),
                    ..c
                },
                p,
                false,
            ),
            _ => (c, p, true),
        }
    } else if addrmode == MODE_ZP {
        match (c.pipeline_status, p.phi) {
            (PipelineStatus::Addr0, false) => (
                c,
                CpuPinout { address_bus: c.pc, address_rw: true, ..p },
                false,
            ),
            (PipelineStatus::Addr0, true) => (
                Cpu {
                    fetched: p.data_bus,
                    addr_data: p.data_bus as u16,
                    pc: c.pc.wrapping_add(1),
                    ..c
                },
                p,
                skip_read,
            ),
            (PipelineStatus::Addr1, false) => (
                c,
                CpuPinout { address_bus: c.addr_data, address_rw: true, ..p },
                false,
            ),
            (PipelineStatus::Addr1, true) => (Cpu { fetched: p.data_bus, ..c }, p, true),
            _ => (c, p, true),
        }
    } else if c.pipeline_status == PipelineStatus::Addr0 {
        // Operand fetch common to every mode with a 2-byte-or-longer encoding.
        if !p.phi {
            (c, CpuPinout { address_bus: c.pc, address_rw: true, ..p }, false)
        } else {
            (
                Cpu {
                    fetched: p.data_bus,
                    addr_data: p.data_bus as u16,
                    pc: c.pc.wrapping_add(1),
                    ..c
                },
                p,
                false,
            )
        }
    } else if addrmode == MODE_ZP_X || addrmode == MODE_ZP_Y {
        let index = if addrmode == MODE_ZP_X {
            c.x
        } else {
            c.y
        };
        match (c.pipeline_status, p.phi) {
            (PipelineStatus::Addr1, false) => (
                Cpu { addr_data: spec_lo_byte(c.addr_data).wrapping_add(index) as u16, ..c },
                p,
                false,
            ),
            (PipelineStatus::Addr1, true) => (c, p, skip_read),
            (PipelineStatus::Addr2, false) => (
                c,
                CpuPinout { address_bus: c.addr_data, address_rw: true, ..p },
                false,
            ),
            (PipelineStatus::Addr2, true) => (Cpu { fetched: p.data_bus, ..c }, p, false),
            _ => (c, p, true),
        }
    } else if addrmode == MODE_ABS {
        match (c.pipeline_status, p.phi) {
            (PipelineStatus::Addr1, false) => (
                Cpu { pc: c.pc.wrapping_add(1), ..c },
                CpuPinout { address_bus: c.pc, address_rw: true, ..p },
                false,
            ),
            (PipelineStatus::Addr1, true) => (
                Cpu { addr_data: spec_with_hi_byte(c.addr_data, p.data_bus), ..c },
                p,
                skip_read,
            ),
            (PipelineStatus::Addr2, false) => if opcode == OP_JMP {
                (Cpu { pc: c.addr_data, ..c }, p, true)
            } else {
                (c, CpuPinout { address_bus: c.addr_data, address_rw: true, ..p }, false)
            },
            (PipelineStatus::Addr2, true) => (Cpu { fetched: p.data_bus, ..c }, p, false),
            _ => (c, p, true),
        }
    } else if addrmode == MODE_ABS_X || addrmode == MODE_ABS_Y {
        match (c.pipeline_status, p.phi) {
            (PipelineStatus::Addr1, false) => (
                Cpu { pc: c.pc.wrapping_add(1), ..c },
                CpuPinout { address_bus: c.pc, address_rw: true, ..p },
                false,
            ),
            (PipelineStatus::Addr1, true) => {
                let with_hi = spec_with_hi_byte(c.addr_data, p.data_bus);
                let old_lo = spec_lo_byte(with_hi);
                let new_lo = old_lo.wrapping_add(offset);
                let carry = new_lo < old_lo;
                (
                    Cpu {
                        addr_data: spec_with_lo_byte(with_hi, new_lo),
                        internal_carry: carry,
                        page_boundary_crossed: do_pagebreak_anyways || carry,
                        ..c
                    },
                    p,
                    skip_read,
                )
            },
            (PipelineStatus::Addr2, false) => (
                c,
                CpuPinout { address_bus: c.addr_data, address_rw: true, ..p },
                false,
            ),
            (PipelineStatus::Addr2, true) => (Cpu { fetched: p.data_bus, ..c }, p, false),
            _ => (c, p, true),
        }
    } else if addrmode == MODE_IND {
        match (c.pipeline_status, p.phi) {
            (PipelineStatus::Addr1, false) => (
                Cpu { pc: c.pc.wrapping_add(1), ..c },
                CpuPinout { address_bus: c.pc, address_rw: true, ..p },
                false,
            ),
            (PipelineStatus::Addr1, true) => (
                Cpu { addr_data: spec_with_hi_byte(c.addr_data, p.data_bus), ..c },
                p,
                false,
            ),
            (PipelineStatus::Addr2, false) => (
                // The pointer's low byte wraps within its page: the
                // 6502 indirect-jump page-boundary quirk.
                Cpu {
                    addr_data: spec_with_lo_byte(
                        c.addr_data,
                        spec_lo_byte(c.addr_data).wrapping_add(1),
                    ),
                    ..c
                },
                CpuPinout { address_bus: c.addr_data, address_rw: true, ..p },
                false,
            ),
            (PipelineStatus::Addr2, true) => (
                Cpu { pc: spec_with_lo_byte(c.pc, p.data_bus), ..c },
                p,
                false,
            ),
            (PipelineStatus::Addr3, false) => (
                c,
                CpuPinout { address_bus: c.addr_data, address_rw: true, ..p },
                false,
            ),
            (PipelineStatus::Addr3, true) => (
                Cpu { pc: spec_with_hi_byte(c.pc, p.data_bus), ..c },
                p,
                false,
            ),
            _ => (c, p, true),
        }
    } else if addrmode == MODE_IND_X {
        match (c.pipeline_status, p.phi) {
            (PipelineStatus::Addr1, false) => {
                let f = spec_lo_byte(c.addr_data).wrapping_add(c.x);
                (
                    Cpu { fetched: f, ..c },
                    CpuPinout { address_bus: f as u16, address_rw: true, ..p },
                    false,
                )
            },
            (PipelineStatus::Addr1, true) => (c, p, false),
            (PipelineStatus::Addr2, false) => (
                c,
                CpuPinout { address_bus: c.fetched as u16, address_rw: true, ..p },
                false,
            ),
            (PipelineStatus::Addr2, true) => (
                Cpu { addr_data: spec_with_lo_byte(c.addr_data, p.data_bus), ..c },
                p,
                false,
            ),
            (PipelineStatus::Addr3, false) => {
                let f = c.fetched.wrapping_add(1);
                (
                    Cpu { fetched: f, ..c },
                    CpuPinout { address_bus: f as u16, address_rw: true, ..p },
                    false,
                )
            },
            (PipelineStatus::Addr3, true) => (
                Cpu { addr_data: spec_with_hi_byte(c.addr_data, p.data_bus), ..c },
                p,
                skip_read,
            ),
            (PipelineStatus::Addr4, false) => (
                c,
                CpuPinout { address_bus: c.addr_data, address_rw: true, ..p },
                false,
            ),
            (PipelineStatus::Addr4, true) => (Cpu { fetched: p.data_bus, ..c }, p, false),
            _ => (c, p, true),
        }
    } else if addrmode == MODE_IND_Y {
        match (c.pipeline_status, p.phi) {
            (PipelineStatus::Addr1, false) => (
                Cpu { addr_data: c.addr_data.wrapping_add(1), ..c },
                CpuPinout { address_bus: c.addr_data, address_rw: true, ..p },
                false,
            ),
            (PipelineStatus::Addr1, true) => (Cpu { fetched: p.data_bus, ..c }, p, false),
            (PipelineStatus::Addr2, false) => (
                c,
                CpuPinout { address_bus: spec_lo_byte(c.addr_data) as u16, address_rw: true, ..p },
                false,
            ),
            (PipelineStatus::Addr2, true) => {
                let with_hi = spec_with_hi_byte(c.addr_data, p.data_bus);
                let old_lo = c.fetched;
                let new_lo = c.fetched.wrapping_add(c.y);
                let carry = new_lo < old_lo;
                (
                    Cpu {
                        addr_data: spec_with_lo_byte(with_hi, new_lo),
                        internal_carry: carry,
                        page_boundary_crossed: do_pagebreak_anyways || carry,
                        ..c
                    },
                    p,
                    skip_read,
                )
            },
            (PipelineStatus::Addr3, false) => if do_pagebreak_anyways {
                (c, p, true)
            } else {
                (c, CpuPinout { address_bus: c.addr_data, address_rw: true, ..p }, false)
            },
            (PipelineStatus::Addr3, true) => (Cpu { fetched: p.data_bus, ..c }, p, false),
            _ => (c, p, true),
        }
    } else {
        (c, p, true)
    }
}

impl Cpu {
    /// Run one half-cycle of the addressing phase.  Returns true when
    /// the effective address is settled and execution should begin in
    /// this same half-cycle.
    #[verifier::rlimit(60)]
    fn execute_addrmode(&mut self, opcode: u8, addrmode: u8, pins: &mut CpuPinout) -> (r: bool)
        ensures
            *final(self) == addrmode_step(*old(self), *old(pins), opcode, addrmode).0,
            *final(pins) == addrmode_step(*old(self), *old(pins), opcode, addrmode).1,
            r == addrmode_step(*old(self), *old(pins), opcode, addrmode).2,
    {
        proof {
            reveal(addrmode_step);
        }
        let is_mw = opcode == OP_STA || opcode == OP_STX || opcode == OP_STY || opcode == OP_SAX;
        let is_rwm = opcode == OP_DEC || opcode == OP_INC || opcode == OP_LSR || opcode == OP_ROL
            || opcode == OP_ROR || opcode == OP_ASL;
        let do_pagebreak_anyways = opcode == OP_STA || is_rwm;
        let skip_read = is_mw;
        let phi = pins.phi;

        if addrmode == MODE_IMP {
            match (self.pipeline_status, phi) {
                (PipelineStatus::Addr0, false) => false,
                _ => true,
            }
        } else if addrmode == MODE_ACC {
            match (self.pipeline_status, phi) {
                (PipelineStatus::Addr0, false) => {
                    self.fetched = self.a;
                    false
                },
                _ => true,
            }
        } else if addrmode == MODE_IMM || addrmode == MODE_REL {
            match (self.pipeline_status, phi) {
                (PipelineStatus::Addr0, false) => {
                    pins.address_bus = self.pc;
                    pins.address_rw = true;
                    false
                },
                (PipelineStatus::Addr0, true) => {
                    self.fetched = pins.data_bus;
                    self.addr_data = pins.data_bus as u16;
                    self.pc = self.pc.wrapping_add(1);
                    false
                },
                _ => true,
            }
        } else if addrmode == MODE_ZP {
            match (self.pipeline_status, phi) {
                (PipelineStatus::Addr0, false) => {
                    pins.address_bus = self.pc;
                    pins.address_rw = true;
                    false
                },
                (PipelineStatus::Addr0, true) => {
                    self.fetched = pins.data_bus;
                    self.addr_data = pins.data_bus as u16;
                    self.pc = self.pc.wrapping_add(1);
                    skip_read
                },
                (PipelineStatus::Addr1, false) => {
                    pins.address_bus = self.addr_data;
                    pins.address_rw = true;
                    false
                },
                (PipelineStatus::Addr1, true) => {
                    self.fetched = pins.data_bus;
                    true
                },
                _ => true,
            }
        } else if matches!(self.pipeline_status, PipelineStatus::Addr0) {
            // Operand fetch common to every mode with a longer encoding.
            if !phi {
                pins.address_bus = self.pc;
                pins.address_rw = true;
                false
            } else {
                self.fetched = pins.data_bus;
                self.addr_data = pins.data_bus as u16;
                self.pc = self.pc.wrapping_add(1);
                false
            }
        } else if addrmode == MODE_ZP_X || addrmode == MODE_ZP_Y {
            let index = if addrmode == MODE_ZP_X {
                self.x
            } else {
                self.y
            };
            match (self.pipeline_status, phi) {
                (PipelineStatus::Addr1, false) => {
                    // Stays in page zero: no page boundary to cross.
                    self.addr_data = lo_byte(self.addr_data).wrapping_add(index) as u16;
                    false
                },
                (PipelineStatus::Addr1, true) => skip_read,
                (PipelineStatus::Addr2, false) => {
                    pins.address_bus = self.addr_data;
                    pins.address_rw = true;
                    false
                },
                (PipelineStatus::Addr2, true) => {
                    self.fetched = pins.data_bus;
                    false
                },
                _ => true,
            }
        } else if addrmode == MODE_ABS {
            match (self.pipeline_status, phi) {
                (PipelineStatus::Addr1, false) => {
                    pins.address_bus = self.pc;
                    pins.address_rw = true;
                    self.pc = self.pc.wrapping_add(1);
                    false
                },
                (PipelineStatus::Addr1, true) => {
                    set_hi_byte(&mut self.addr_data, pins.data_bus);
                    skip_read
                },
                (PipelineStatus::Addr2, false) => {
                    if opcode == OP_JMP {
                        self.pc = self.addr_data;
                        true
                    } else {
                        pins.address_bus = self.addr_data;
                        pins.address_rw = true;
                        false
                    }
                },
                (PipelineStatus::Addr2, true) => {
                    self.fetched = pins.data_bus;
                    false
                },
                _ => true,
            }
        } else if addrmode == MODE_ABS_X || addrmode == MODE_ABS_Y {
            let offset = if addrmode == MODE_ABS_X {
                self.x
            } else {
                self.y
            };
            match (self.pipeline_status, phi) {
                (PipelineStatus::Addr1, false) => {
                    pins.address_bus = self.pc;
                    pins.address_rw = true;
                    self.pc = self.pc.wrapping_add(1);
                    false
                },
                (PipelineStatus::Addr1, true) => {
                    set_hi_byte(&mut self.addr_data, pins.data_bus);
                    let old_lo = lo_byte(self.addr_data);
                    let new_lo = old_lo.wrapping_add(offset);
                    set_lo_byte(&mut self.addr_data, new_lo);
                    self.internal_carry = new_lo < old_lo;
                    self.page_boundary_crossed = do_pagebreak_anyways || self.internal_carry;
                    skip_read
                },
                (PipelineStatus::Addr2, false) => {
                    pins.address_bus = self.addr_data;
                    pins.address_rw = true;
                    false
                },
                (PipelineStatus::Addr2, true) => {
                    self.fetched = pins.data_bus;
                    false
                },
                _ => true,
            }
        } else if addrmode == MODE_IND {
            match (self.pipeline_status, phi) {
                (PipelineStatus::Addr1, false) => {
                    pins.address_bus = self.pc;
                    pins.address_rw = true;
                    self.pc = self.pc.wrapping_add(1);
                    false
                },
                (PipelineStatus::Addr1, true) => {
                    set_hi_byte(&mut self.addr_data, pins.data_bus);
                    false
                },
                (PipelineStatus::Addr2, false) => {
                    pins.address_bus = self.addr_data;
                    pins.address_rw = true;
                    // The pointer's low byte wraps within its page: the
                    // 6502 indirect-jump page-boundary quirk.
                    let new_lo_byte = lo_byte(self.addr_data).wrapping_add(1);
                    set_lo_byte(&mut self.addr_data, new_lo_byte);
                    false
                },
                (PipelineStatus::Addr2, true) => {
                    set_lo_byte(&mut self.pc, pins.data_bus);
                    false
                },
                (PipelineStatus::Addr3, false) => {
                    pins.address_bus = self.addr_data;
                    pins.address_rw = true;
                    false
                },
                (PipelineStatus::Addr3, true) => {
                    set_hi_byte(&mut self.pc, pins.data_bus);
                    false
                },
                _ => true,
            }
        } else if addrmode == MODE_IND_X {
            match (self.pipeline_status, phi) {
                (PipelineStatus::Addr1, false) => {
                    self.fetched = lo_byte(self.addr_data).wrapping_add(self.x);
                    pins.address_bus = self.fetched as u16;
                    pins.address_rw = true;
                    false
                },
                (PipelineStatus::Addr1, true) => false,  // dummy read
                (PipelineStatus::Addr2, false) => {
                    pins.address_bus = self.fetched as u16;
                    pins.address_rw = true;
                    false
                },
                (PipelineStatus::Addr2, true) => {
                    set_lo_byte(&mut self.addr_data, pins.data_bus);
                    false
                },
                (PipelineStatus::Addr3, false) => {
                    self.fetched = self.fetched.wrapping_add(1);
                    pins.address_bus = self.fetched as u16;
                    pins.address_rw = true;
                    false
                },
                (PipelineStatus::Addr3, true) => {
                    set_hi_byte(&mut self.addr_data, pins.data_bus);
                    skip_read
                },
                (PipelineStatus::Addr4, false) => {
                    pins.address_bus = self.addr_data;
                    pins.address_rw = true;
                    false
                },
                (PipelineStatus::Addr4, true) => {
                    self.fetched = pins.data_bus;
                    false
                },
                _ => true,
            }
        } else if addrmode == MODE_IND_Y {
            match (self.pipeline_status, phi) {
                (PipelineStatus::Addr1, false) => {
                    pins.address_bus = self.addr_data;
                    pins.address_rw = true;
                    self.addr_data = self.addr_data.wrapping_add(1);
                    false
                },
                (PipelineStatus::Addr1, true) => {
                    self.fetched = pins.data_bus;
                    false
                },
                (PipelineStatus::Addr2, false) => {
                    pins.address_bus = lo_byte(self.addr_data) as u16;
                    pins.address_rw = true;
                    false
                },
                (PipelineStatus::Addr2, true) => {
                    set_hi_byte(&mut self.addr_data, pins.data_bus);
                    let old_lo = self.fetched;
                    let new_lo = self.fetched.wrapping_add(self.y);
                    set_lo_byte(&mut self.addr_data, new_lo);
                    self.internal_carry = new_lo < old_lo;
                    self.page_boundary_crossed = do_pagebreak_anyways || self.internal_carry;
                    skip_read
                },
                (PipelineStatus::Addr3, false) => {
                    if do_pagebreak_anyways {
                        // The page fixup already took this cycle.
                        true
                    } else {
                        pins.address_bus = self.addr_data;
                        pins.address_rw = true;
                        false
                    }
                },
                (PipelineStatus::Addr3, true) => {
                    self.fetched = pins.data_bus;
                    false
                },
                _ => true,
            }
        } else {
            true
        }
    }
}

/// Address of the current top-of-stack slot.
pub open spec fn spec_stack_addr(s: u8) -> u16 {
    (0x0100 + s as u16) as u16
}

/// The status byte as pushed on the stack: U is always set; B is set in
/// PHP and BRK pushes and clear in IRQ and NMI pushes.
pub open spec fn spec_pushed_status(status: u8, set_b: bool) -> u8 {
    if set_b {
        status | FLAG_B | FLAG_U
    } else {
        (status | FLAG_U) & !FLAG_B
    }
}

/// The status register after PLP or RTI pulls `data`: bits B and U keep
/// their current values, all other bits come from the pulled byte.
pub open spec fn spec_pulled_status(status: u8, data: u8) -> u8 {
    (data & 0xCF) | (status & 0x30)
}

/// Low address of the service vector for an interrupt kind.
pub open spec fn spec_interrupt_vector(kind: ServicedInterrupt) -> u16 {
    match kind {
        ServicedInterrupt::Reset => 0xFFFC,
        ServicedInterrupt::Nmi => 0xFFFA,
        _ => 0xFFFE,
    }
}

/// Branch predicate for each branch operation, over the status register.
pub open spec fn spec_branch_taken(op: u8, status: u8) -> bool {
    if op == OP_BCC {
        !flag_set(status, FLAG_C)
    } else if op == OP_BCS {
        flag_set(status, FLAG_C)
    } else if op == OP_BEQ {
        flag_set(status, FLAG_Z)
    } else if op == OP_BMI {
        flag_set(status, FLAG_N)
    } else if op == OP_BNE {
        !flag_set(status, FLAG_Z)
    } else if op == OP_BPL {
        !flag_set(status, FLAG_N)
    } else if op == OP_BVC {
        !flag_set(status, FLAG_V)
    } else {
        flag_set(status, FLAG_V)
    }
}

pub open spec fn is_branch_op(op: u8) -> bool {
    op == OP_BCC || op == OP_BCS || op == OP_BEQ || op == OP_BMI || op == OP_BNE || op == OP_BPL
        || op == OP_BVC || op == OP_BVS
}

/// One half-cycle of the execution phase, as a mathematical transition:
/// the CPU state and pinout afterwards, and whether the instruction is
/// finished so that the next opcode fetch begins in this same half-cycle.
pub open spec fn is_single_step_op(op: u8) -> bool {
    op == OP_NOP || op == OP_ADC || op == OP_SBC || op == OP_AND || op == OP_EOR
        || op == OP_ORA || op == OP_LDA || op == OP_LDX || op == OP_LDY || op == OP_LAX
        || op == OP_BIT || op == OP_CLC || op == OP_CLD || op == OP_CLI || op == OP_CLV
        || op == OP_SEC || op == OP_SED || op == OP_SEI || op == OP_CMP || op == OP_CPX
        || op == OP_CPY || op == OP_DEX || op == OP_DEY || op == OP_INX || op == OP_INY
        || op == OP_JMP || op == OP_TAX || op == OP_TAY || op == OP_TSX || op == OP_TXA
        || op == OP_TYA || op == OP_TXS || op == OP_ANC || op == OP_ALR || op == OP_ARR
        || op == OP_SBX || op == OP_LAS || op == OP_ANE || op == OP_ANX
}

pub open spec fn is_rmw_step_op(op: u8) -> bool {
    op == OP_ASL || op == OP_LSR || op == OP_ROL || op == OP_ROR || op == OP_DEC
        || op == OP_INC || op == OP_SLO || op == OP_RLA || op == OP_SRE || op == OP_RRA
        || op == OP_DCP || op == OP_ISC
}

pub open spec fn is_flow_step_op(op: u8) -> bool {
    op == OP_BRK || op == OP_JSR || op == OP_PHA || op == OP_PHP || op == OP_PLA
        || op == OP_PLP || op == OP_RTI || op == OP_RTS
}

pub open spec fn is_store_step_op(op: u8) -> bool {
    op == OP_STA || op == OP_STX || op == OP_STY || op == OP_SAX || op == OP_SHA
        || op == OP_SHX || op == OP_SHY || op == OP_TAS
}

#[verifier::opaque]
pub open spec fn step_single(c: Cpu, p: CpuPinout, opcode: u8, addrmode: u8) -> (
    Cpu,
    CpuPinout,
    bool,
) {
    let step = c.pipeline_status;
    let phi = p.phi;
    if opcode == OP_NOP {
        (c, p, true)
    
    } else if opcode == OP_ADC || opcode == OP_SBC {
        let operand = if opcode == OP_ADC {
            c.fetched
        } else {
            !c.fetched
        };
        match (step, phi) {
            (PipelineStatus::Exec0, false) => (spec_add_carry(c, operand), p, true),
            (PipelineStatus::Exec0, true) => (c, p, true),
            _ => (c, p, false),
        }
    
    } else if opcode == OP_AND || opcode == OP_EOR || opcode == OP_ORA {
        let a = if opcode == OP_AND {
            c.a & c.fetched
        } else if opcode == OP_EOR {
            c.a ^ c.fetched
        } else {
            c.a | c.fetched
        };
        match (step, phi) {
            (PipelineStatus::Exec0, false) => (
                Cpu { a, status: spec_nz_flags(c.status, a), ..c },
                p,
                true,
            ),
            (PipelineStatus::Exec0, true) => (c, p, true),
            _ => (c, p, false),
        }
    
    } else if opcode == OP_LDA || opcode == OP_LDX || opcode == OP_LDY || opcode == OP_LAX {
        let s = spec_nz_flags(c.status, c.fetched);
        match (step, phi) {
            (PipelineStatus::Exec0, false) => if opcode == OP_LDA {
                (Cpu { a: c.fetched, status: s, ..c }, p, true)
            } else if opcode == OP_LDX {
                (Cpu { x: c.fetched, status: s, ..c }, p, true)
            } else if opcode == OP_LDY {
                (Cpu { y: c.fetched, status: s, ..c }, p, true)
            } else {
                (Cpu { a: c.fetched, x: c.fetched, status: s, ..c }, p, true)
            },
            (PipelineStatus::Exec0, true) => (c, p, true),
            _ => (c, p, false),
        }
    
    } else if opcode == OP_BIT {
        match (step, phi) {
            (PipelineStatus::Exec0, false) => (
                Cpu {
                    status: spec_set_flag(
                        spec_set_flag(
                            spec_z_flag(c.status, c.a & c.fetched),
                            FLAG_N,
                            (c.fetched & 0x80) > 0,
                        ),
                        FLAG_V,
                        (c.fetched & 0x40) > 0,
                    ),
                    ..c
                },
                p,
                true,
            ),
            (PipelineStatus::Exec0, true) => (c, p, true),
            _ => (c, p, false),
        }
    
    } else if opcode == OP_CLC || opcode == OP_CLD || opcode == OP_CLI || opcode == OP_CLV
        || opcode == OP_SEC || opcode == OP_SED || opcode == OP_SEI {
        let flag = if opcode == OP_CLC || opcode == OP_SEC {
            FLAG_C
        } else if opcode == OP_CLD || opcode == OP_SED {
            FLAG_D
        } else if opcode == OP_CLI || opcode == OP_SEI {
            FLAG_I
        } else {
            FLAG_V
        };
        let v = opcode == OP_SEC || opcode == OP_SED || opcode == OP_SEI;
        match (step, phi) {
            (PipelineStatus::Exec0, _) => (
                Cpu { status: spec_set_flag(c.status, flag, v), ..c },
                p,
                true,
            ),
            _ => (c, p, false),
        }
    
    } else if opcode == OP_CMP || opcode == OP_CPX || opcode == OP_CPY {
        let reg = if opcode == OP_CMP {
            c.a
        } else if opcode == OP_CPX {
            c.x
        } else {
            c.y
        };
        match (step, phi) {
            (PipelineStatus::Exec0, _) => (
                Cpu {
                    temp: reg.wrapping_sub(c.fetched),
                    status: spec_set_flag(
                        spec_nz_flags(c.status, reg.wrapping_sub(c.fetched)),
                        FLAG_C,
                        reg >= c.fetched,
                    ),
                    ..c
                },
                p,
                true,
            ),
            _ => (c, p, false),
        }
    
    } else if opcode == OP_DEX || opcode == OP_DEY || opcode == OP_INX || opcode == OP_INY {
        let v = if opcode == OP_DEX || opcode == OP_INX {
            c.x
        } else {
            c.y
        };
        let r = if opcode == OP_DEX || opcode == OP_DEY {
            v.wrapping_sub(1)
        } else {
            v.wrapping_add(1)
        };
        let s = spec_nz_flags(c.status, r);
        match (step, phi) {
            (PipelineStatus::Exec0, false) => if opcode == OP_DEX || opcode == OP_INX {
                (Cpu { x: r, status: s, ..c }, p, true)
            } else {
                (Cpu { y: r, status: s, ..c }, p, true)
            },
            (PipelineStatus::Exec0, true) => (c, p, true),
            _ => (c, p, false),
        }
    
    } else if opcode == OP_JMP {
        match (step, phi) {
            // The addressing phase already loaded PC.
            (PipelineStatus::Exec0, _) => (c, p, true),
            _ => (c, p, false),
        }
    
    } else if opcode == OP_TAX || opcode == OP_TAY || opcode == OP_TSX || opcode == OP_TXA
        || opcode == OP_TYA {
        let v = if opcode == OP_TAX || opcode == OP_TAY {
            c.a
        } else if opcode == OP_TSX {
            c.stkpt
        } else if opcode == OP_TXA {
            c.x
        } else {
            c.y
        };
        let s = spec_nz_flags(c.status, v);
        match (step, phi) {
            (PipelineStatus::Exec0, false) => if opcode == OP_TAX || opcode == OP_TSX {
                (Cpu { x: v, status: s, ..c }, p, true)
            } else if opcode == OP_TAY {
                (Cpu { y: v, status: s, ..c }, p, true)
            } else {
                (Cpu { a: v, status: s, ..c }, p, true)
            },
            (PipelineStatus::Exec0, true) => (c, p, true),
            _ => (c, p, false),
        }
    
    } else if opcode == OP_TXS {
        match (step, phi) {
            // TXS alters no flags.
            (PipelineStatus::Exec0, false) => (Cpu { stkpt: c.x, ..c }, p, true),
            (PipelineStatus::Exec0, true) => (c, p, true),
            _ => (c, p, false),
        }
    
    } else if opcode == OP_ANC {
        match (step, phi) {
            (PipelineStatus::Exec0, false) => {
                let a = c.a & c.fetched;
                let s1 = spec_nz_flags(c.status, a);
                (
                    Cpu { a, status: spec_set_flag(s1, FLAG_C, flag_set(s1, FLAG_N)), ..c },
                    p,
                    true,
                )
            },
            (PipelineStatus::Exec0, true) => (c, p, true),
            _ => (c, p, false),
        }
    
    } else if opcode == OP_ALR {
        match (step, phi) {
            (PipelineStatus::Exec0, false) => {
                let t = c.a & c.fetched;
                let a = t >> 1;
                (
                    Cpu {
                        temp: t,
                        a,
                        status: spec_nz_flags(
                            spec_set_flag(c.status, FLAG_C, (t & 0x01) > 0),
                            a,
                        ),
                        ..c
                    },
                    p,
                    true,
                )
            },
            (PipelineStatus::Exec0, true) => (c, p, true),
            _ => (c, p, false),
        }
    
    } else if opcode == OP_ARR {
        match (step, phi) {
            (PipelineStatus::Exec0, false) => {
                let carry_in: u8 = if flag_set(c.status, FLAG_C) {
                    1
                } else {
                    0
                };
                let t = c.a & c.fetched;
                let b7 = (t & 0x80) >> 1;
                let b6 = t & 0x40;
                let a = (t >> 1) | (carry_in << 7);
                (
                    Cpu {
                        temp: t,
                        a,
                        status: spec_nz_flags(
                            spec_set_flag(
                                spec_set_flag(c.status, FLAG_C, b7 > 0),
                                FLAG_V,
                                (b7 ^ b6) > 0,
                            ),
                            a,
                        ),
                        ..c
                    },
                    p,
                    true,
                )
            },
            (PipelineStatus::Exec0, true) => (c, p, true),
            _ => (c, p, false),
        }
    
    } else if opcode == OP_SBX {
        match (step, phi) {
            (PipelineStatus::Exec0, false) => {
                let t = (c.a & c.x).wrapping_sub(c.fetched);
                (
                    Cpu {
                        temp: t,
                        x: t,
                        status: spec_set_flag(
                            spec_nz_flags(c.status, t),
                            FLAG_C,
                            (c.a & c.x) >= c.fetched,
                        ),
                        ..c
                    },
                    p,
                    true,
                )
            },
            (PipelineStatus::Exec0, true) => (c, p, true),
            _ => (c, p, false),
        }
    
    } else if opcode == OP_LAS {
        match (step, phi) {
            (PipelineStatus::Exec0, false) => {
                let t = c.fetched & c.stkpt;
                (
                    Cpu {
                        temp: t,
                        a: t,
                        x: t,
                        stkpt: t,
                        status: spec_nz_flags(c.status, t),
                        ..c
                    },
                    p,
                    true,
                )
            },
            (PipelineStatus::Exec0, true) => (c, p, true),
            _ => (c, p, false),
        }
    
    } else if opcode == OP_ANE || opcode == OP_ANX {
        // The "magic constant" of the unstable immediate opcodes is
        // fixed at 0xEE.
        match (step, phi) {
            (PipelineStatus::Exec0, false) => if opcode == OP_ANE {
                let a = (c.a | 0xEE) & c.x & c.fetched;
                (Cpu { a, status: spec_nz_flags(c.status, a), ..c }, p, true)
            } else {
                let t = (c.a | 0xEE) & c.fetched;
                (
                    Cpu { temp: t, a: t, x: t, status: spec_nz_flags(c.status, t), ..c },
                    p,
                    true,
                )
            },
            _ => (c, p, false),
        }
    
    } else {
        (c, p, false)
        }
}

#[verifier::opaque]
pub open spec fn step_rmw(c: Cpu, p: CpuPinout, opcode: u8, addrmode: u8) -> (
    Cpu,
    CpuPinout,
    bool,
) {
    let step = c.pipeline_status;
    let phi = p.phi;
    if opcode == OP_ASL || opcode == OP_LSR || opcode == OP_ROL || opcode == OP_ROR {
        let carry_in: u8 = if flag_set(c.status, FLAG_C) {
            1
        } else {
            0
        };
        let temp = if opcode == OP_ASL {
            c.fetched << 1
        } else if opcode == OP_LSR {
            c.fetched >> 1
        } else if opcode == OP_ROL {
            (c.fetched << 1) | carry_in
        } else {
            (carry_in << 7) | (c.fetched >> 1)
        };
        let carry_out = if opcode == OP_LSR || opcode == OP_ROR {
            c.fetched & 0x01 > 0
        } else {
            c.fetched & 0x80 > 0
        };
        // ASL and ROL/ROR update N and Z before C; LSR updates C first.
        // Both orders leave the same status byte.
        let s = if opcode == OP_LSR {
            spec_nz_flags(spec_set_flag(c.status, FLAG_C, carry_out), temp)
        } else {
            spec_set_flag(spec_nz_flags(c.status, temp), FLAG_C, carry_out)
        };
        match (step, phi) {
            (PipelineStatus::Exec0, false) => if addrmode == MODE_ACC {
                (Cpu { a: temp, status: s, ..c }, p, true)
            } else {
                // The dummy write of the original value starts here.
                (c, CpuPinout { address_bus: c.addr_data, address_rw: false, ..p }, false)
            },
            (PipelineStatus::Exec0, true) => if addrmode == MODE_ACC {
                (c, p, false)
            } else {
                (
                    Cpu { fetched: temp, status: s, ..c },
                    CpuPinout { data_bus: c.fetched, address_rw: false, ..p },
                    false,
                )
            },
            (PipelineStatus::Exec1, false) => (
                c,
                CpuPinout { address_bus: c.addr_data, address_rw: false, ..p },
                false,
            ),
            (PipelineStatus::Exec1, true) => (
                c,
                CpuPinout { data_bus: c.fetched, address_rw: false, ..p },
                opcode == OP_LSR,
            ),
            (PipelineStatus::Exec2, _) => (c, p, true),
            _ => (c, p, false),
        }
    
    } else if opcode == OP_DEC || opcode == OP_INC {
        let next = if opcode == OP_DEC {
            c.fetched.wrapping_sub(1)
        } else {
            c.fetched.wrapping_add(1)
        };
        match (step, phi) {
            // The dummy write of the original value takes the first
            // cycle of the execution phase.
            (PipelineStatus::Exec0, false) => (
                c,
                CpuPinout { address_bus: c.addr_data, address_rw: false, ..p },
                false,
            ),
            (PipelineStatus::Exec0, true) => (
                Cpu { fetched: next, status: spec_nz_flags(c.status, next), ..c },
                CpuPinout { data_bus: c.fetched, address_rw: false, ..p },
                false,
            ),
            (PipelineStatus::Exec1, false) => (
                c,
                CpuPinout { address_bus: c.addr_data, address_rw: false, ..p },
                false,
            ),
            (PipelineStatus::Exec1, true) => (
                c,
                CpuPinout { data_bus: c.fetched, address_rw: false, ..p },
                false,
            ),
            (PipelineStatus::Exec2, _) => (c, p, true),
            _ => (c, p, false),
        }
    
    } else if opcode == OP_SLO || opcode == OP_RLA || opcode == OP_SRE || opcode == OP_RRA
        || opcode == OP_DCP || opcode == OP_ISC {
        let carry_in: u8 = if flag_set(c.status, FLAG_C) {
            1
        } else {
            0
        };
        match (step, phi) {
            (PipelineStatus::Exec0, false) => (c, p, false),
            (PipelineStatus::Exec0, true) => {
                if opcode == OP_SLO {
                    let t = c.fetched << 1;
                    (
                        Cpu {
                            temp: t,
                            status: spec_nz_flags(
                                spec_set_flag(c.status, FLAG_C, (c.fetched & 0x80) > 0),
                                t,
                            ),
                            ..c
                        },
                        p,
                        false,
                    )
                } else if opcode == OP_RLA {
                    let t = (c.fetched << 1) | carry_in;
                    (
                        Cpu {
                            temp: t,
                            status: spec_nz_flags(
                                spec_set_flag(c.status, FLAG_C, (c.fetched & 0x80) > 0),
                                t,
                            ),
                            ..c
                        },
                        p,
                        false,
                    )
                } else if opcode == OP_SRE {
                    let t = c.fetched >> 1;
                    (
                        Cpu {
                            temp: t,
                            status: spec_nz_flags(
                                spec_set_flag(c.status, FLAG_C, (c.fetched & 0x01) > 0),
                                t,
                            ),
                            ..c
                        },
                        p,
                        false,
                    )
                } else if opcode == OP_RRA {
                    let t = (c.fetched >> 1) | (carry_in << 7);
                    (
                        Cpu {
                            temp: t,
                            status: spec_nz_flags(
                                spec_set_flag(c.status, FLAG_C, (c.fetched & 0x01) > 0),
                                t,
                            ),
                            ..c
                        },
                        p,
                        false,
                    )
                } else if opcode == OP_DCP {
                    let t = c.fetched.wrapping_sub(1);
                    (Cpu { temp: t, status: spec_nz_flags(c.status, t), ..c }, p, false)
                } else {
                    let t = c.fetched.wrapping_add(1);
                    (Cpu { temp: t, status: spec_nz_flags(c.status, t), ..c }, p, false)
                }
            },
            (PipelineStatus::Exec1, false) => (
                c,
                CpuPinout { address_bus: c.addr_data, address_rw: false, ..p },
                false,
            ),
            (PipelineStatus::Exec1, true) => (
                c,
                CpuPinout { data_bus: c.temp, address_rw: false, ..p },
                false,
            ),
            (PipelineStatus::Exec2, false) => if opcode == OP_SLO {
                (
                    Cpu { a: c.a | c.temp, status: spec_nz_flags(c.status, c.a | c.temp), ..c },
                    p,
                    true,
                )
            } else if opcode == OP_RLA {
                (
                    Cpu { a: c.a & c.temp, status: spec_nz_flags(c.status, c.a & c.temp), ..c },
                    p,
                    true,
                )
            } else if opcode == OP_SRE {
                (
                    Cpu { a: c.a ^ c.temp, status: spec_nz_flags(c.status, c.a ^ c.temp), ..c },
                    p,
                    true,
                )
            } else if opcode == OP_RRA {
                (spec_add_carry(c, c.temp), p, true)
            } else if opcode == OP_DCP {
                (
                    Cpu {
                        temp: c.a.wrapping_sub(c.temp),
                        status: spec_set_flag(
                            spec_nz_flags(c.status, c.a.wrapping_sub(c.temp)),
                            FLAG_C,
                            c.a >= c.temp,
                        ),
                        ..c
                    },
                    p,
                    true,
                )
            } else {
                (spec_add_carry(c, !c.temp), p, true)
            },
            (PipelineStatus::Exec2, true) => (c, p, true),
            _ => (c, p, false),
        }
    
    } else {
        (c, p, false)
        }
}

#[verifier::opaque]
pub open spec fn step_branch(c: Cpu, p: CpuPinout, opcode: u8, addrmode: u8) -> (
    Cpu,
    CpuPinout,
    bool,
) {
    let step = c.pipeline_status;
    let phi = p.phi;
    if is_branch_op(opcode) {
        match (step, phi) {
            (PipelineStatus::Exec0, false) => {
                let taken = spec_branch_taken(opcode, c.status);
                (spec_branch(c, taken), p, !taken)
            },
            (PipelineStatus::Exec0, true) => (c, p, false),
            (PipelineStatus::Exec1, false) => {
                let sign_extended = spec_hi_byte(c.fetched as i8 as i16 as u16);
                let overflowed = c.internal_carry;
                let underflowed = sign_extended > 0;
                if (overflowed || underflowed) && !(overflowed && underflowed) {
                    let new_hi = spec_hi_byte(c.pc).wrapping_add(sign_extended).wrapping_add(
                        if c.internal_carry {
                            1u8
                        } else {
                            0u8
                        },
                    );
                    (
                        Cpu {
                            pc: spec_with_hi_byte(c.pc, new_hi),
                            internal_carry: false,
                            ..c
                        },
                        p,
                        false,
                    )
                } else {
                    (c, p, true)
                }
            },
            (PipelineStatus::Exec1, true) => (c, p, true),
            (PipelineStatus::Exec2, _) => (c, p, true),
            _ => (c, p, false),
        }
    
    } else {
        (c, p, false)
        }
}

#[verifier::opaque]
pub open spec fn step_flow(c: Cpu, p: CpuPinout, opcode: u8, addrmode: u8) -> (
    Cpu,
    CpuPinout,
    bool,
) {
    let step = c.pipeline_status;
    let phi = p.phi;
    if opcode == OP_BRK {
        let kind = c.serviced_interrupt;
        let push_rw = kind == ServicedInterrupt::Reset;
        match (step, phi) {
            (PipelineStatus::Exec0, false) => (
                c,
                CpuPinout { address_bus: c.addr_data, address_rw: true, ..p },
                false,
            ),
            (PipelineStatus::Exec0, true) => (
                Cpu {
                    pc: if kind == ServicedInterrupt::NoInterrupt {
                        c.pc.wrapping_add(1)
                    } else {
                        c.pc
                    },
                    ..c
                },
                p,
                false,
            ),
            (PipelineStatus::Exec1, false) => (
                Cpu { fetched: spec_hi_byte(c.pc), stkpt: c.stkpt.wrapping_sub(1), ..c },
                CpuPinout { address_bus: spec_stack_addr(c.stkpt), address_rw: push_rw, ..p },
                false,
            ),
            (PipelineStatus::Exec1, true) => if kind == ServicedInterrupt::Reset {
                (c, p, false)
            } else {
                (c, CpuPinout { data_bus: c.fetched, address_rw: false, ..p }, false)
            },
            (PipelineStatus::Exec2, false) => (
                Cpu { fetched: spec_lo_byte(c.pc), stkpt: c.stkpt.wrapping_sub(1), ..c },
                CpuPinout { address_bus: spec_stack_addr(c.stkpt), address_rw: push_rw, ..p },
                false,
            ),
            (PipelineStatus::Exec2, true) => if kind == ServicedInterrupt::Reset {
                (c, p, false)
            } else {
                (c, CpuPinout { data_bus: c.fetched, address_rw: false, ..p }, false)
            },
            (PipelineStatus::Exec3, false) => (
                Cpu {
                    fetched: spec_pushed_status(c.status, kind == ServicedInterrupt::NoInterrupt),
                    stkpt: c.stkpt.wrapping_sub(1),
                    status: spec_set_flag(c.status, FLAG_I, true),
                    ..c
                },
                CpuPinout { address_bus: spec_stack_addr(c.stkpt), address_rw: push_rw, ..p },
                false,
            ),
            (PipelineStatus::Exec3, true) => if kind == ServicedInterrupt::Reset {
                (c, p, false)
            } else {
                (c, CpuPinout { data_bus: c.fetched, address_rw: false, ..p }, false)
            },
            (PipelineStatus::Exec4, false) => (
                c,
                CpuPinout {
                    address_bus: spec_interrupt_vector(kind),
                    address_rw: true,
                    ..p
                },
                false,
            ),
            (PipelineStatus::Exec4, true) => (
                Cpu { pc: spec_with_lo_byte(c.pc, p.data_bus), ..c },
                p,
                false,
            ),
            (PipelineStatus::Exec5, false) => (
                c,
                CpuPinout {
                    address_bus: (spec_interrupt_vector(kind) + 1) as u16,
                    address_rw: true,
                    ..p
                },
                false,
            ),
            (PipelineStatus::Exec5, true) => (
                Cpu { pc: spec_with_hi_byte(c.pc, p.data_bus), ..c },
                p,
                false,
            ),
            (PipelineStatus::Exec6, _) => (
                Cpu { serviced_interrupt: ServicedInterrupt::NoInterrupt, ..c },
                p,
                true,
            ),
            _ => (c, p, false),
        }
    
    } else if opcode == OP_JSR {
        match (step, phi) {
            (PipelineStatus::Exec0, false) => (
                Cpu {
                    pc: c.pc.wrapping_sub(1),
                    fetched: spec_hi_byte(c.pc.wrapping_sub(1)),
                    stkpt: c.stkpt.wrapping_sub(1),
                    ..c
                },
                CpuPinout { address_bus: spec_stack_addr(c.stkpt), address_rw: false, ..p },
                false,
            ),
            (PipelineStatus::Exec0, true) => (
                c,
                CpuPinout { data_bus: c.fetched, address_rw: false, ..p },
                false,
            ),
            (PipelineStatus::Exec1, false) => (
                Cpu {
                    fetched: spec_lo_byte(c.pc),
                    stkpt: c.stkpt.wrapping_sub(1),
                    pc: c.addr_data,
                    ..c
                },
                CpuPinout { address_bus: spec_stack_addr(c.stkpt), address_rw: false, ..p },
                false,
            ),
            (PipelineStatus::Exec1, true) => (
                c,
                CpuPinout { data_bus: c.fetched, address_rw: false, ..p },
                false,
            ),
            (PipelineStatus::Exec2, _) => (c, p, true),
            _ => (c, p, false),
        }
    
    } else if opcode == OP_PHA || opcode == OP_PHP {
        let pushed = if opcode == OP_PHA {
            c.a
        } else {
            spec_pushed_status(c.status, true)
        };
        match (step, phi) {
            (PipelineStatus::Exec0, false) => (
                Cpu { fetched: pushed, stkpt: c.stkpt.wrapping_sub(1), ..c },
                CpuPinout { address_bus: spec_stack_addr(c.stkpt), address_rw: false, ..p },
                false,
            ),
            (PipelineStatus::Exec0, true) => (
                c,
                CpuPinout { data_bus: c.fetched, address_rw: false, ..p },
                true,
            ),
            _ => (c, p, false),
        }
    
    } else if opcode == OP_PLA || opcode == OP_PLP {
        match (step, phi) {
            (PipelineStatus::Exec0, false) => (
                c,
                CpuPinout { address_bus: spec_stack_addr(c.stkpt), address_rw: true, ..p },
                false,
            ),
            (PipelineStatus::Exec0, true) => (
                Cpu {
                    status: spec_nz_flags(c.status, c.a),
                    stkpt: c.stkpt.wrapping_add(1),
                    ..c
                },
                p,
                false,
            ),
            (PipelineStatus::Exec1, false) => (
                c,
                CpuPinout { address_bus: spec_stack_addr(c.stkpt), address_rw: true, ..p },
                false,
            ),
            (PipelineStatus::Exec1, true) => if opcode == OP_PLA {
                (
                    Cpu {
                        a: p.data_bus,
                        status: spec_nz_flags(c.status, p.data_bus),
                        ..c
                    },
                    p,
                    true,
                )
            } else {
                (Cpu { status: spec_pulled_status(c.status, p.data_bus), ..c }, p, true)
            },
            _ => (c, p, false),
        }
    
    } else if opcode == OP_RTI {
        match (step, phi) {
            (PipelineStatus::Exec0, false) | (PipelineStatus::Exec1, false)
                | (PipelineStatus::Exec2, false) => (
                Cpu { stkpt: c.stkpt.wrapping_add(1), ..c },
                CpuPinout { address_bus: spec_stack_addr(c.stkpt), address_rw: true, ..p },
                false,
            ),
            (PipelineStatus::Exec0, true) => (Cpu { fetched: p.data_bus, ..c }, p, false),
            (PipelineStatus::Exec1, true) => (
                Cpu { status: spec_pulled_status(c.status, p.data_bus), ..c },
                p,
                false,
            ),
            (PipelineStatus::Exec2, true) => (
                Cpu { pc: spec_with_lo_byte(c.pc, p.data_bus), ..c },
                p,
                false,
            ),
            (PipelineStatus::Exec3, false) => (
                c,
                CpuPinout { address_bus: spec_stack_addr(c.stkpt), address_rw: true, ..p },
                false,
            ),
            (PipelineStatus::Exec3, true) => (
                Cpu { pc: spec_with_hi_byte(c.pc, p.data_bus), ..c },
                p,
                false,
            ),
            (PipelineStatus::Exec4, _) => (c, p, true),
            _ => (c, p, false),
        }
    
    } else if opcode == OP_RTS {
        match (step, phi) {
            (PipelineStatus::Exec0, false) => (
                Cpu { stkpt: c.stkpt.wrapping_add(1), ..c },
                CpuPinout {
                    address_bus: spec_stack_addr(c.stkpt.wrapping_add(1)),
                    address_rw: true,
                    ..p
                },
                false,
            ),
            (PipelineStatus::Exec0, true) => (c, p, false),
            (PipelineStatus::Exec1, false) => (
                Cpu { stkpt: c.stkpt.wrapping_add(1), ..c },
                CpuPinout { address_bus: spec_stack_addr(c.stkpt), address_rw: true, ..p },
                false,
            ),
            (PipelineStatus::Exec1, true) => (
                Cpu { pc: spec_with_lo_byte(c.pc, p.data_bus), ..c },
                p,
                false,
            ),
            (PipelineStatus::Exec2, false) => (
                c,
                CpuPinout { address_bus: spec_stack_addr(c.stkpt), address_rw: true, ..p },
                false,
            ),
            (PipelineStatus::Exec2, true) => (
                Cpu { pc: spec_with_hi_byte(c.pc, p.data_bus), ..c },
                p,
                false,
            ),
            (PipelineStatus::Exec3, false) => (
                c,
                CpuPinout { address_bus: c.pc, address_rw: true, ..p },
                false,
            ),
            (PipelineStatus::Exec3, true) => (Cpu { pc: c.pc.wrapping_add(1), ..c }, p, false),
            (PipelineStatus::Exec4, _) => (c, p, true),
            _ => (c, p, false),
        }
    
    } else {
        (c, p, false)
        }
}

#[verifier::opaque]
pub open spec fn step_store(c: Cpu, p: CpuPinout, opcode: u8, addrmode: u8) -> (
    Cpu,
    CpuPinout,
    bool,
) {
    let step = c.pipeline_status;
    let phi = p.phi;
    if opcode == OP_STA || opcode == OP_STX || opcode == OP_STY {
        let v = if opcode == OP_STA {
            c.a
        } else if opcode == OP_STX {
            c.x
        } else {
            c.y
        };
        match (step, phi) {
            (PipelineStatus::Exec0, false) => (
                Cpu { fetched: v, ..c },
                CpuPinout { address_bus: c.addr_data, address_rw: false, ..p },
                false,
            ),
            (PipelineStatus::Exec0, true) => (
                c,
                CpuPinout { data_bus: c.fetched, address_rw: false, ..p },
                opcode == OP_STA,
            ),
            (PipelineStatus::Exec1, _) => (c, p, true),
            _ => (c, p, false),
        }
    
    } else if opcode == OP_SAX {
        match (step, phi) {
            (PipelineStatus::Exec0, false) => (
                c,
                CpuPinout { address_bus: c.addr_data, address_rw: false, ..p },
                false,
            ),
            (PipelineStatus::Exec0, true) => (
                c,
                CpuPinout { data_bus: c.a & c.x, address_rw: false, ..p },
                true,
            ),
            (PipelineStatus::Exec1, _) => (c, p, true),
            _ => (c, p, false),
        }
    
    } else if opcode == OP_SHA || opcode == OP_SHX || opcode == OP_SHY {
        let v = if opcode == OP_SHA {
            c.a & c.x
        } else if opcode == OP_SHX {
            c.x
        } else {
            c.y
        };
        match (step, phi) {
            (PipelineStatus::Exec0, false) => (
                Cpu { temp: v, ..c },
                CpuPinout {
                    address_bus: spec_instable_store_address(c, v, c.addr_data),
                    address_rw: false,
                    ..p
                },
                false,
            ),
            (PipelineStatus::Exec0, true) => (
                c,
                CpuPinout {
                    data_bus: spec_instable_store_value(c, c.temp, c.addr_data),
                    address_rw: false,
                    ..p
                },
                true,
            ),
            (PipelineStatus::Exec1, _) => (c, p, true),
            _ => (c, p, false),
        }
    
    } else if opcode == OP_TAS {
        match (step, phi) {
            (PipelineStatus::Exec0, false) => (c, p, false),
            (PipelineStatus::Exec0, true) => (Cpu { stkpt: c.a & c.x, ..c }, p, false),
            (PipelineStatus::Exec1, false) => (
                c,
                CpuPinout {
                    address_bus: spec_instable_store_address(c, c.stkpt, c.addr_data),
                    address_rw: false,
                    ..p
                },
                false,
            ),
            (PipelineStatus::Exec1, true) => (
                c,
                CpuPinout {
                    data_bus: spec_instable_store_value(c, c.stkpt, c.addr_data),
                    address_rw: false,
                    ..p
                },
                true,
            ),
            (PipelineStatus::Exec2, _) => (c, p, true),
            _ => (c, p, false),
        }
    
    } else {
        (c, p, false)
        }
}

/// One half-cycle of the execution phase, as a mathematical transition:
/// the CPU state and pinout afterwards, and whether the instruction is
/// finished so that the next opcode fetch begins in this same half-cycle.
pub open spec fn instruction_step(c: Cpu, p: CpuPinout, opcode: u8, addrmode: u8) -> (
    Cpu,
    CpuPinout,
    bool,
) {
    if is_single_step_op(opcode) {
        step_single(c, p, opcode, addrmode)
    } else if is_rmw_step_op(opcode) {
        step_rmw(c, p, opcode, addrmode)
    } else if is_branch_op(opcode) {
        step_branch(c, p, opcode, addrmode)
    } else if is_flow_step_op(opcode) {
        step_flow(c, p, opcode, addrmode)
    } else if is_store_step_op(opcode) {
        step_store(c, p, opcode, addrmode)
    } else if opcode == OP_JAM {
        // Frozen until a reset is latched: the second half-cycle backs
        // the micro-step pointer up one place so that the advance at the
        // end of the half-cycle lands on the start of the execution
        // phase again, forever.  A latched reset lets the pointer run
        // out to the fetch stage, where the reset sequence begins.
        if !p.phi {
            if c.pending_reset {
                (Cpu { pipeline_status: PipelineStatus::Exec6, ..c }, p, false)
            } else {
                (c, p, false)
            }
        } else {
            if c.pending_reset {
                (c, p, false)
            } else {
                (Cpu { pipeline_status: PipelineStatus::Addr5, ..c }, p, false)
            }
        }
    } else {
        (c, p, false)
    }
}


/// Low address of the service vector for an interrupt kind.
fn interrupt_vector(kind: ServicedInterrupt) -> (r: u16)
    ensures
        r == spec_interrupt_vector(kind),
        r <= 0xFFFE,
{
    match kind {
        ServicedInterrupt::Reset => 0xFFFC,
        ServicedInterrupt::Nmi => 0xFFFA,
        _ => 0xFFFE,
    }
}

impl Cpu {
    /// Run one half-cycle of the execution phase.  Returns true when the
    /// instruction is finished and the next opcode fetch should begin in
    /// this same half-cycle.
    #[verifier::rlimit(100)]
    #[verifier::rlimit(100)]
    fn run_single_step(&mut self, opcode: u8, addrmode: u8, pins: &mut CpuPinout) -> (r: bool)
        requires
            is_single_step_op(opcode),
        ensures
            *final(self) == step_single(*old(self), *old(pins), opcode, addrmode).0,
            *final(pins) == step_single(*old(self), *old(pins), opcode, addrmode).1,
            r == step_single(*old(self), *old(pins), opcode, addrmode).2,
    {
        proof {
            reveal(step_single);
        }
        let phi = pins.phi;
        if opcode == OP_NOP {
            true
        
    } else if opcode == OP_ADC || opcode == OP_SBC {
            let operand = if opcode == OP_ADC {
                self.fetched
            } else {
                !self.fetched
            };
            match (self.pipeline_status, phi) {
                (PipelineStatus::Exec0, false) => {
                    self.add_carry(operand);
                    true
                },
                (PipelineStatus::Exec0, true) => true,
                _ => false,
            }
        
    } else if opcode == OP_AND || opcode == OP_EOR || opcode == OP_ORA {
            match (self.pipeline_status, phi) {
                (PipelineStatus::Exec0, false) => {
                    self.a = if opcode == OP_AND {
                        self.a & self.fetched
                    } else if opcode == OP_EOR {
                        self.a ^ self.fetched
                    } else {
                        self.a | self.fetched
                    };
                    self.check_nz_flags(self.a);
                    true
                },
                (PipelineStatus::Exec0, true) => true,
                _ => false,
            }
        
    } else if opcode == OP_LDA || opcode == OP_LDX || opcode == OP_LDY || opcode == OP_LAX {
            match (self.pipeline_status, phi) {
                (PipelineStatus::Exec0, false) => {
                    if opcode == OP_LDA {
                        self.a = self.fetched;
                    } else if opcode == OP_LDX {
                        self.x = self.fetched;
                    } else if opcode == OP_LDY {
                        self.y = self.fetched;
                    } else {
                        self.a = self.fetched;
                        self.x = self.fetched;
                    }
                    self.check_nz_flags(self.fetched);
                    true
                },
                (PipelineStatus::Exec0, true) => true,
                _ => false,
            }
        
    } else if opcode == OP_BIT {
            match (self.pipeline_status, phi) {
                (PipelineStatus::Exec0, false) => {
                    let temp = self.a & self.fetched;
                    self.check_z_flag(temp);
                    self.set_flag(FLAG_N, (self.fetched & 0x80) > 0);
                    self.set_flag(FLAG_V, (self.fetched & 0x40) > 0);
                    true
                },
                (PipelineStatus::Exec0, true) => true,
                _ => false,
            }
        
    } else if opcode == OP_CLC || opcode == OP_CLD || opcode == OP_CLI || opcode == OP_CLV
            || opcode == OP_SEC || opcode == OP_SED || opcode == OP_SEI {
            let flag = if opcode == OP_CLC || opcode == OP_SEC {
                FLAG_C
            } else if opcode == OP_CLD || opcode == OP_SED {
                FLAG_D
            } else if opcode == OP_CLI || opcode == OP_SEI {
                FLAG_I
            } else {
                FLAG_V
            };
            let v = opcode == OP_SEC || opcode == OP_SED || opcode == OP_SEI;
            match (self.pipeline_status, phi) {
                (PipelineStatus::Exec0, _) => {
                    self.set_flag(flag, v);
                    true
                },
                _ => false,
            }
        
    } else if opcode == OP_CMP || opcode == OP_CPX || opcode == OP_CPY {
            let reg = if opcode == OP_CMP {
                self.a
            } else if opcode == OP_CPX {
                self.x
            } else {
                self.y
            };
            match (self.pipeline_status, phi) {
                (PipelineStatus::Exec0, _) => {
                    self.compare(reg, self.fetched);
                    true
                },
                _ => false,
            }
        
    } else if opcode == OP_DEX || opcode == OP_DEY || opcode == OP_INX || opcode == OP_INY {
            match (self.pipeline_status, phi) {
                (PipelineStatus::Exec0, false) => {
                    if opcode == OP_DEX {
                        self.x = self.decrement(self.x);
                    } else if opcode == OP_DEY {
                        self.y = self.decrement(self.y);
                    } else if opcode == OP_INX {
                        self.x = self.increment(self.x);
                    } else {
                        self.y = self.increment(self.y);
                    }
                    true
                },
                (PipelineStatus::Exec0, true) => true,
                _ => false,
            }
        
    } else if opcode == OP_JMP {
            match (self.pipeline_status, phi) {
                // The addressing phase already loaded PC.
                (PipelineStatus::Exec0, _) => true,
                _ => false,
            }
        
    } else if opcode == OP_TAX || opcode == OP_TAY || opcode == OP_TSX || opcode == OP_TXA
            || opcode == OP_TYA {
            match (self.pipeline_status, phi) {
                (PipelineStatus::Exec0, false) => {
                    let v = if opcode == OP_TAX || opcode == OP_TAY {
                        self.a
                    } else if opcode == OP_TSX {
                        self.stkpt
                    } else if opcode == OP_TXA {
                        self.x
                    } else {
                        self.y
                    };
                    if opcode == OP_TAX || opcode == OP_TSX {
                        self.x = v;
                    } else if opcode == OP_TAY {
                        self.y = v;
                    } else {
                        self.a = v;
                    }
                    self.check_nz_flags(v);
                    true
                },
                (PipelineStatus::Exec0, true) => true,
                _ => false,
            }
        
    } else if opcode == OP_TXS {
            match (self.pipeline_status, phi) {
                // TXS alters no flags.
                (PipelineStatus::Exec0, false) => {
                    self.stkpt = self.x;
                    true
                },
                (PipelineStatus::Exec0, true) => true,
                _ => false,
            }
        
    } else if opcode == OP_ANC {
            match (self.pipeline_status, phi) {
                (PipelineStatus::Exec0, false) => {
                    self.a = self.a & self.fetched;
                    self.check_nz_flags(self.a);
                    let n = self.get_flag(FLAG_N);
                    self.set_flag(FLAG_C, n);
                    true
                },
                (PipelineStatus::Exec0, true) => true,
                _ => false,
            }
        
    } else if opcode == OP_ALR {
            match (self.pipeline_status, phi) {
                (PipelineStatus::Exec0, false) => {
                    self.temp = self.a & self.fetched;
                    self.a = self.temp >> 1u8;
                    self.set_flag(FLAG_C, (self.temp & 0x01) > 0);
                    self.check_nz_flags(self.a);
                    true
                },
                (PipelineStatus::Exec0, true) => true,
                _ => false,
            }
        
    } else if opcode == OP_ARR {
            match (self.pipeline_status, phi) {
                (PipelineStatus::Exec0, false) => {
                    let carry_in: u8 = if self.get_flag(FLAG_C) {
                        1
                    } else {
                        0
                    };
                    self.temp = self.a & self.fetched;
                    let b7 = (self.temp & 0x80) >> 1u8;
                    let b6 = self.temp & 0x40;
                    self.set_flag(FLAG_C, b7 > 0);
                    self.set_flag(FLAG_V, (b7 ^ b6) > 0);
                    self.a = (self.temp >> 1u8) | (carry_in << 7u8);
                    self.check_nz_flags(self.a);
                    true
                },
                (PipelineStatus::Exec0, true) => true,
                _ => false,
            }
        
    } else if opcode == OP_SBX {
            match (self.pipeline_status, phi) {
                (PipelineStatus::Exec0, false) => {
                    self.compare(self.a & self.x, self.fetched);
                    self.x = self.temp;
                    true
                },
                (PipelineStatus::Exec0, true) => true,
                _ => false,
            }
        
    } else if opcode == OP_LAS {
            match (self.pipeline_status, phi) {
                (PipelineStatus::Exec0, false) => {
                    self.temp = self.fetched & self.stkpt;
                    self.check_nz_flags(self.temp);
                    self.a = self.temp;
                    self.x = self.temp;
                    self.stkpt = self.temp;
                    true
                },
                (PipelineStatus::Exec0, true) => true,
                _ => false,
            }
        
    } else if opcode == OP_ANE || opcode == OP_ANX {
            match (self.pipeline_status, phi) {
                (PipelineStatus::Exec0, false) => {
                    // The "magic constant" of the unstable immediate
                    // opcodes is fixed at 0xEE.
                    if opcode == OP_ANE {
                        self.a = (self.a | 0xEE) & self.x & self.fetched;
                        self.check_nz_flags(self.a);
                    } else {
                        self.temp = (self.a | 0xEE) & self.fetched;
                        self.a = self.temp;
                        self.x = self.temp;
                        self.check_nz_flags(self.a);
                    }
                    true
                },
                _ => false,
            }
        
    } else {
            false
            }
    }

    #[verifier::rlimit(100)]
    fn run_rmw_step(&mut self, opcode: u8, addrmode: u8, pins: &mut CpuPinout) -> (r: bool)
        requires
            is_rmw_step_op(opcode),
        ensures
            *final(self) == step_rmw(*old(self), *old(pins), opcode, addrmode).0,
            *final(pins) == step_rmw(*old(self), *old(pins), opcode, addrmode).1,
            r == step_rmw(*old(self), *old(pins), opcode, addrmode).2,
    {
        proof {
            reveal(step_rmw);
        }
        let phi = pins.phi;
        if opcode == OP_ASL || opcode == OP_LSR || opcode == OP_ROL || opcode == OP_ROR {
            match (self.pipeline_status, phi) {
                (PipelineStatus::Exec0, false) => {
                    if addrmode == MODE_ACC {
                        let carry_in: u8 = if self.get_flag(FLAG_C) {
                            1
                        } else {
                            0
                        };
                        let temp = if opcode == OP_ASL {
                            self.fetched << 1u8
                        } else if opcode == OP_LSR {
                            self.fetched >> 1u8
                        } else if opcode == OP_ROL {
                            (self.fetched << 1u8) | carry_in
                        } else {
                            (carry_in << 7u8) | (self.fetched >> 1u8)
                        };
                        let carry_out = if opcode == OP_LSR || opcode == OP_ROR {
                            self.fetched & 0x01 > 0
                        } else {
                            self.fetched & 0x80 > 0
                        };
                        if opcode == OP_LSR {
                            self.set_flag(FLAG_C, carry_out);
                            self.check_nz_flags(temp);
                        } else {
                            self.check_nz_flags(temp);
                            self.set_flag(FLAG_C, carry_out);
                        }
                        self.a = temp;
                        true
                    } else {
                        // The dummy write of the original value starts
                        // here.
                        pins.address_bus = self.addr_data;
                        pins.address_rw = false;
                        false
                    }
                },
                (PipelineStatus::Exec0, true) => {
                    if addrmode != MODE_ACC {
                        pins.data_bus = self.fetched;
                        pins.address_rw = false;
                        let carry_in: u8 = if self.get_flag(FLAG_C) {
                            1
                        } else {
                            0
                        };
                        let temp = if opcode == OP_ASL {
                            self.fetched << 1u8
                        } else if opcode == OP_LSR {
                            self.fetched >> 1u8
                        } else if opcode == OP_ROL {
                            (self.fetched << 1u8) | carry_in
                        } else {
                            (carry_in << 7u8) | (self.fetched >> 1u8)
                        };
                        let carry_out = if opcode == OP_LSR || opcode == OP_ROR {
                            self.fetched & 0x01 > 0
                        } else {
                            self.fetched & 0x80 > 0
                        };
                        if opcode == OP_LSR {
                            self.set_flag(FLAG_C, carry_out);
                            self.check_nz_flags(temp);
                        } else {
                            self.check_nz_flags(temp);
                            self.set_flag(FLAG_C, carry_out);
                        }
                        self.fetched = temp;
                    }
                    false
                },
                (PipelineStatus::Exec1, false) => {
                    pins.address_bus = self.addr_data;
                    pins.address_rw = false;
                    false
                },
                (PipelineStatus::Exec1, true) => {
                    pins.data_bus = self.fetched;
                    pins.address_rw = false;
                    opcode == OP_LSR
                },
                (PipelineStatus::Exec2, _) => true,
                _ => false,
            }
        
    } else if opcode == OP_DEC || opcode == OP_INC {
            match (self.pipeline_status, phi) {
                // The dummy write of the original value takes the
                // first cycle of the execution phase.
                (PipelineStatus::Exec0, false) => {
                    pins.address_bus = self.addr_data;
                    pins.address_rw = false;
                    false
                },
                (PipelineStatus::Exec0, true) => {
                    pins.data_bus = self.fetched;
                    pins.address_rw = false;
                    if opcode == OP_DEC {
                        self.fetched = self.decrement(self.fetched);
                    } else {
                        self.fetched = self.increment(self.fetched);
                    }
                    false
                },
                (PipelineStatus::Exec1, false) => {
                    pins.address_bus = self.addr_data;
                    pins.address_rw = false;
                    false
                },
                (PipelineStatus::Exec1, true) => {
                    pins.data_bus = self.fetched;
                    pins.address_rw = false;
                    false
                },
                (PipelineStatus::Exec2, _) => true,
                _ => false,
            }
        
    } else if opcode == OP_SLO || opcode == OP_RLA || opcode == OP_SRE || opcode == OP_RRA
            || opcode == OP_DCP || opcode == OP_ISC {
            match (self.pipeline_status, phi) {
                (PipelineStatus::Exec0, false) => false,
                (PipelineStatus::Exec0, true) => {
                    if opcode == OP_SLO {
                        self.temp = self.fetched << 1u8;
                        self.set_flag(FLAG_C, (self.fetched & 0x80) > 0);
                        self.check_nz_flags(self.temp);
                    } else if opcode == OP_RLA {
                        let carry_in: u8 = if self.get_flag(FLAG_C) {
                            1
                        } else {
                            0
                        };
                        self.temp = (self.fetched << 1u8) | carry_in;
                        self.set_flag(FLAG_C, (self.fetched & 0x80) > 0);
                        self.check_nz_flags(self.temp);
                    } else if opcode == OP_SRE {
                        self.temp = self.fetched >> 1u8;
                        self.set_flag(FLAG_C, (self.fetched & 0x01) > 0);
                        self.check_nz_flags(self.temp);
                    } else if opcode == OP_RRA {
                        let carry_in: u8 = if self.get_flag(FLAG_C) {
                            1
                        } else {
                            0
                        };
                        self.temp = (self.fetched >> 1u8) | (carry_in << 7u8);
                        self.set_flag(FLAG_C, (self.fetched & 0x01) > 0);
                        self.check_nz_flags(self.temp);
                    } else if opcode == OP_DCP {
                        self.temp = self.decrement(self.fetched);
                    } else {
                        self.temp = self.increment(self.fetched);
                    }
                    false
                },
                (PipelineStatus::Exec1, false) => {
                    pins.address_bus = self.addr_data;
                    pins.address_rw = false;
                    false
                },
                (PipelineStatus::Exec1, true) => {
                    pins.data_bus = self.temp;
                    pins.address_rw = false;
                    false
                },
                (PipelineStatus::Exec2, false) => {
                    if opcode == OP_SLO {
                        self.a = self.a | self.temp;
                        self.check_nz_flags(self.a);
                    } else if opcode == OP_RLA {
                        self.a = self.a & self.temp;
                        self.check_nz_flags(self.a);
                    } else if opcode == OP_SRE {
                        self.a = self.a ^ self.temp;
                        self.check_nz_flags(self.a);
                    } else if opcode == OP_RRA {
                        self.add_carry(self.temp);
                    } else if opcode == OP_DCP {
                        self.compare(self.a, self.temp);
                    } else {
                        self.add_carry(!self.temp);
                    }
                    true
                },
                (PipelineStatus::Exec2, true) => true,
                _ => false,
            }
        
    } else {
            false
            }
    }

    #[verifier::rlimit(100)]
    fn run_branch_step(&mut self, opcode: u8, addrmode: u8, pins: &mut CpuPinout) -> (r: bool)
        requires
            is_branch_op(opcode),
        ensures
            *final(self) == step_branch(*old(self), *old(pins), opcode, addrmode).0,
            *final(pins) == step_branch(*old(self), *old(pins), opcode, addrmode).1,
            r == step_branch(*old(self), *old(pins), opcode, addrmode).2,
    {
        proof {
            reveal(step_branch);
        }
        let phi = pins.phi;
        if opcode == OP_BCC || opcode == OP_BCS || opcode == OP_BEQ || opcode == OP_BMI
            || opcode == OP_BNE || opcode == OP_BPL || opcode == OP_BVC || opcode == OP_BVS {
            match (self.pipeline_status, phi) {
                (PipelineStatus::Exec0, false) => {
                    let taken = if opcode == OP_BCC {
                        !self.get_flag(FLAG_C)
                    } else if opcode == OP_BCS {
                        self.get_flag(FLAG_C)
                    } else if opcode == OP_BEQ {
                        self.get_flag(FLAG_Z)
                    } else if opcode == OP_BMI {
                        self.get_flag(FLAG_N)
                    } else if opcode == OP_BNE {
                        !self.get_flag(FLAG_Z)
                    } else if opcode == OP_BPL {
                        !self.get_flag(FLAG_N)
                    } else if opcode == OP_BVC {
                        !self.get_flag(FLAG_V)
                    } else {
                        self.get_flag(FLAG_V)
                    };
                    self.branch(taken)
                },
                (PipelineStatus::Exec0, true) => false,
                (PipelineStatus::Exec1, false) => {
                    let sign_extended = hi_byte(self.fetched as i8 as i16 as u16);
                    let overflowed = self.internal_carry;
                    let underflowed = sign_extended > 0;
                    // The high byte of PC needs a fixup when the low-byte
                    // addition carried or the offset was negative, but not
                    // when the two cancel out.
                    if (overflowed || underflowed) && !(overflowed && underflowed) {
                        let carry: u8 = if self.internal_carry {
                            1
                        } else {
                            0
                        };
                        let new_hi = hi_byte(self.pc).wrapping_add(sign_extended).wrapping_add(
                            carry,
                        );
                        set_hi_byte(&mut self.pc, new_hi);
                        self.internal_carry = false;
                        false
                    } else {
                        true
                    }
                },
                (PipelineStatus::Exec1, true) => true,
                (PipelineStatus::Exec2, _) => true,
                _ => false,
            }
        
    } else {
            false
            }
    }

    #[verifier::rlimit(100)]
    fn run_flow_step(&mut self, opcode: u8, addrmode: u8, pins: &mut CpuPinout) -> (r: bool)
        requires
            is_flow_step_op(opcode),
        ensures
            *final(self) == step_flow(*old(self), *old(pins), opcode, addrmode).0,
            *final(pins) == step_flow(*old(self), *old(pins), opcode, addrmode).1,
            r == step_flow(*old(self), *old(pins), opcode, addrmode).2,
    {
        proof {
            reveal(step_flow);
        }
        let phi = pins.phi;
        if opcode == OP_BRK {
            let kind = self.serviced_interrupt;
            let push_rw = kind == ServicedInterrupt::Reset;
            match (self.pipeline_status, phi) {
                (PipelineStatus::Exec0, false) => {
                    pins.address_bus = self.addr_data;
                    pins.address_rw = true;
                    false
                },
                (PipelineStatus::Exec0, true) => {
                    if kind == ServicedInterrupt::NoInterrupt {
                        // BRK skips its padding byte; a serviced
                        // interrupt leaves PC on the interrupted opcode.
                        self.pc = self.pc.wrapping_add(1);
                    }
                    false
                },
                (PipelineStatus::Exec1, false) => {
                    self.fetched = hi_byte(self.pc);
                    pins.address_bus = 0x0100 + self.stkpt as u16;
                    pins.address_rw = push_rw;
                    self.stkpt = self.stkpt.wrapping_sub(1);
                    false
                },
                (PipelineStatus::Exec1, true) => {
                    if kind != ServicedInterrupt::Reset {
                        pins.data_bus = self.fetched;
                        pins.address_rw = false;
                    }
                    false
                },
                (PipelineStatus::Exec2, false) => {
                    self.fetched = lo_byte(self.pc);
                    pins.address_bus = 0x0100 + self.stkpt as u16;
                    pins.address_rw = push_rw;
                    self.stkpt = self.stkpt.wrapping_sub(1);
                    false
                },
                (PipelineStatus::Exec2, true) => {
                    if kind != ServicedInterrupt::Reset {
                        pins.data_bus = self.fetched;
                        pins.address_rw = false;
                    }
                    false
                },
                (PipelineStatus::Exec3, false) => {
                    // B is pushed set by BRK itself, clear by IRQ and
                    // NMI; U is pushed set always.
                    self.fetched = if kind == ServicedInterrupt::NoInterrupt {
                        self.status | FLAG_B | FLAG_U
                    } else {
                        (self.status | FLAG_U) & !FLAG_B
                    };
                    pins.address_bus = 0x0100 + self.stkpt as u16;
                    pins.address_rw = push_rw;
                    self.stkpt = self.stkpt.wrapping_sub(1);
                    self.set_flag(FLAG_I, true);
                    false
                },
                (PipelineStatus::Exec3, true) => {
                    if kind != ServicedInterrupt::Reset {
                        pins.data_bus = self.fetched;
                        pins.address_rw = false;
                    }
                    false
                },
                (PipelineStatus::Exec4, false) => {
                    pins.address_bus = interrupt_vector(kind);
                    pins.address_rw = true;
                    false
                },
                (PipelineStatus::Exec4, true) => {
                    set_lo_byte(&mut self.pc, pins.data_bus);
                    false
                },
                (PipelineStatus::Exec5, false) => {
                    pins.address_bus = interrupt_vector(kind) + 1;
                    pins.address_rw = true;
                    false
                },
                (PipelineStatus::Exec5, true) => {
                    set_hi_byte(&mut self.pc, pins.data_bus);
                    false
                },
                (PipelineStatus::Exec6, _) => {
                    self.serviced_interrupt = ServicedInterrupt::NoInterrupt;
                    true
                },
                _ => false,
            }
        
    } else if opcode == OP_JSR {
            match (self.pipeline_status, phi) {
                (PipelineStatus::Exec0, false) => {
                    self.pc = self.pc.wrapping_sub(1);
                    pins.address_bus = 0x0100 + self.stkpt as u16;
                    pins.address_rw = false;
                    self.fetched = hi_byte(self.pc);
                    self.stkpt = self.stkpt.wrapping_sub(1);
                    false
                },
                (PipelineStatus::Exec0, true) => {
                    pins.data_bus = self.fetched;
                    pins.address_rw = false;
                    false
                },
                (PipelineStatus::Exec1, false) => {
                    pins.address_bus = 0x0100 + self.stkpt as u16;
                    pins.address_rw = false;
                    self.fetched = lo_byte(self.pc);
                    self.stkpt = self.stkpt.wrapping_sub(1);
                    self.pc = self.addr_data;
                    false
                },
                (PipelineStatus::Exec1, true) => {
                    pins.data_bus = self.fetched;
                    pins.address_rw = false;
                    false
                },
                (PipelineStatus::Exec2, _) => true,
                _ => false,
            }
        
    } else if opcode == OP_PHA || opcode == OP_PHP {
            match (self.pipeline_status, phi) {
                (PipelineStatus::Exec0, false) => {
                    pins.address_bus = 0x0100 + self.stkpt as u16;
                    pins.address_rw = false;
                    self.fetched = if opcode == OP_PHA {
                        self.a
                    } else {
                        // B and U are pushed as set.
                        self.status | FLAG_B | FLAG_U
                    };
                    self.stkpt = self.stkpt.wrapping_sub(1);
                    false
                },
                (PipelineStatus::Exec0, true) => {
                    pins.data_bus = self.fetched;
                    pins.address_rw = false;
                    true
                },
                _ => false,
            }
        
    } else if opcode == OP_PLA || opcode == OP_PLP {
            match (self.pipeline_status, phi) {
                (PipelineStatus::Exec0, false) => {
                    pins.address_bus = 0x0100 + self.stkpt as u16;
                    pins.address_rw = true;
                    false
                },
                (PipelineStatus::Exec0, true) => {
                    self.check_nz_flags(self.a);
                    self.stkpt = self.stkpt.wrapping_add(1);
                    false
                },
                (PipelineStatus::Exec1, false) => {
                    pins.address_bus = 0x0100 + self.stkpt as u16;
                    pins.address_rw = true;
                    false
                },
                (PipelineStatus::Exec1, true) => {
                    if opcode == OP_PLA {
                        self.a = pins.data_bus;
                        self.check_nz_flags(self.a);
                    } else {
                        // The pulled B and U bits do not override the
                        // current ones.
                        self.status = (pins.data_bus & 0xCF) | (self.status & 0x30);
                    }
                    true
                },
                _ => false,
            }
        
    } else if opcode == OP_RTI {
            match (self.pipeline_status, phi) {
                (PipelineStatus::Exec0, false) | (PipelineStatus::Exec1, false)
                    | (PipelineStatus::Exec2, false) => {
                    pins.address_bus = 0x0100 + self.stkpt as u16;
                    pins.address_rw = true;
                    self.stkpt = self.stkpt.wrapping_add(1);
                    false
                },
                (PipelineStatus::Exec0, true) => {
                    self.fetched = pins.data_bus;
                    false
                },
                (PipelineStatus::Exec1, true) => {
                    self.status = (pins.data_bus & 0xCF) | (self.status & 0x30);
                    false
                },
                (PipelineStatus::Exec2, true) => {
                    set_lo_byte(&mut self.pc, pins.data_bus);
                    false
                },
                (PipelineStatus::Exec3, false) => {
                    pins.address_bus = 0x0100 + self.stkpt as u16;
                    pins.address_rw = true;
                    false
                },
                (PipelineStatus::Exec3, true) => {
                    set_hi_byte(&mut self.pc, pins.data_bus);
                    false
                },
                (PipelineStatus::Exec4, _) => true,
                _ => false,
            }
        
    } else if opcode == OP_RTS {
            match (self.pipeline_status, phi) {
                (PipelineStatus::Exec0, false) => {
                    self.stkpt = self.stkpt.wrapping_add(1);
                    pins.address_bus = 0x0100 + self.stkpt as u16;
                    pins.address_rw = true;
                    false
                },
                (PipelineStatus::Exec0, true) => false,  // dummy read
                (PipelineStatus::Exec1, false) => {
                    pins.address_bus = 0x0100 + self.stkpt as u16;
                    pins.address_rw = true;
                    self.stkpt = self.stkpt.wrapping_add(1);
                    false
                },
                (PipelineStatus::Exec1, true) => {
                    set_lo_byte(&mut self.pc, pins.data_bus);
                    false
                },
                (PipelineStatus::Exec2, false) => {
                    pins.address_bus = 0x0100 + self.stkpt as u16;
                    pins.address_rw = true;
                    false
                },
                (PipelineStatus::Exec2, true) => {
                    set_hi_byte(&mut self.pc, pins.data_bus);
                    false
                },
                (PipelineStatus::Exec3, false) => {
                    pins.address_bus = self.pc;
                    pins.address_rw = true;
                    false
                },
                (PipelineStatus::Exec3, true) => {
                    // The pushed value is the return address minus one.
                    self.pc = self.pc.wrapping_add(1);
                    false
                },
                (PipelineStatus::Exec4, _) => true,
                _ => false,
            }
        
    } else {
            false
            }
    }

    #[verifier::rlimit(100)]
    fn run_store_step(&mut self, opcode: u8, addrmode: u8, pins: &mut CpuPinout) -> (r: bool)
        requires
            is_store_step_op(opcode),
        ensures
            *final(self) == step_store(*old(self), *old(pins), opcode, addrmode).0,
            *final(pins) == step_store(*old(self), *old(pins), opcode, addrmode).1,
            r == step_store(*old(self), *old(pins), opcode, addrmode).2,
    {
        proof {
            reveal(step_store);
        }
        let phi = pins.phi;
        if opcode == OP_STA || opcode == OP_STX || opcode == OP_STY {
            match (self.pipeline_status, phi) {
                (PipelineStatus::Exec0, false) => {
                    pins.address_bus = self.addr_data;
                    pins.address_rw = false;
                    self.fetched = if opcode == OP_STA {
                        self.a
                    } else if opcode == OP_STX {
                        self.x
                    } else {
                        self.y
                    };
                    false
                },
                (PipelineStatus::Exec0, true) => {
                    pins.data_bus = self.fetched;
                    pins.address_rw = false;
                    opcode == OP_STA
                },
                (PipelineStatus::Exec1, _) => true,
                _ => false,
            }
        
    } else if opcode == OP_SAX {
            match (self.pipeline_status, phi) {
                (PipelineStatus::Exec0, false) => {
                    pins.address_bus = self.addr_data;
                    pins.address_rw = false;
                    false
                },
                (PipelineStatus::Exec0, true) => {
                    pins.data_bus = self.a & self.x;
                    pins.address_rw = false;
                    true
                },
                (PipelineStatus::Exec1, _) => true,
                _ => false,
            }
        
    } else if opcode == OP_SHA || opcode == OP_SHX || opcode == OP_SHY {
            match (self.pipeline_status, phi) {
                (PipelineStatus::Exec0, false) => {
                    self.temp = if opcode == OP_SHA {
                        self.a & self.x
                    } else if opcode == OP_SHX {
                        self.x
                    } else {
                        self.y
                    };
                    pins.address_bus = self.instable_store_address(self.temp, self.addr_data);
                    pins.address_rw = false;
                    false
                },
                (PipelineStatus::Exec0, true) => {
                    pins.data_bus = self.instable_store_value(self.temp, self.addr_data);
                    pins.address_rw = false;
                    true
                },
                (PipelineStatus::Exec1, _) => true,
                _ => false,
            }
        
    } else if opcode == OP_TAS {
            match (self.pipeline_status, phi) {
                (PipelineStatus::Exec0, false) => false,
                (PipelineStatus::Exec0, true) => {
                    self.stkpt = self.a & self.x;
                    false
                },
                (PipelineStatus::Exec1, false) => {
                    pins.address_bus = self.instable_store_address(self.stkpt, self.addr_data);
                    pins.address_rw = false;
                    false
                },
                (PipelineStatus::Exec1, true) => {
                    pins.data_bus = self.instable_store_value(self.stkpt, self.addr_data);
                    pins.address_rw = false;
                    true
                },
                (PipelineStatus::Exec2, _) => true,
                _ => false,
            }
        
    } else {
            false
            }
    }

    /// Run one half-cycle of the execution phase.  Returns true when the
    /// instruction is finished and the next opcode fetch should begin in
    /// this same half-cycle.
    fn execute_instruction(&mut self, opcode: u8, addrmode: u8, pins: &mut CpuPinout) -> (r: bool)
        ensures
            *final(self) == instruction_step(*old(self), *old(pins), opcode, addrmode).0,
            *final(pins) == instruction_step(*old(self), *old(pins), opcode, addrmode).1,
            r == instruction_step(*old(self), *old(pins), opcode, addrmode).2,
    {
        if opcode == OP_NOP || opcode == OP_ADC || opcode == OP_SBC || opcode == OP_AND
                || opcode == OP_EOR || opcode == OP_ORA || opcode == OP_LDA
                || opcode == OP_LDX || opcode == OP_LDY || opcode == OP_LAX
                || opcode == OP_BIT || opcode == OP_CLC || opcode == OP_CLD
                || opcode == OP_CLI || opcode == OP_CLV || opcode == OP_SEC
                || opcode == OP_SED || opcode == OP_SEI || opcode == OP_CMP
                || opcode == OP_CPX || opcode == OP_CPY || opcode == OP_DEX
                || opcode == OP_DEY || opcode == OP_INX || opcode == OP_INY
                || opcode == OP_JMP || opcode == OP_TAX || opcode == OP_TAY
                || opcode == OP_TSX || opcode == OP_TXA || opcode == OP_TYA
                || opcode == OP_TXS || opcode == OP_ANC || opcode == OP_ALR
                || opcode == OP_ARR || opcode == OP_SBX || opcode == OP_LAS
                || opcode == OP_ANE || opcode == OP_ANX {
            self.run_single_step(opcode, addrmode, pins)
        } else if opcode == OP_ASL || opcode == OP_LSR || opcode == OP_ROL || opcode == OP_ROR
                || opcode == OP_DEC || opcode == OP_INC || opcode == OP_SLO
                || opcode == OP_RLA || opcode == OP_SRE || opcode == OP_RRA
                || opcode == OP_DCP || opcode == OP_ISC {
            self.run_rmw_step(opcode, addrmode, pins)
        } else if opcode == OP_BCC || opcode == OP_BCS || opcode == OP_BEQ || opcode == OP_BMI
                || opcode == OP_BNE || opcode == OP_BPL || opcode == OP_BVC
                || opcode == OP_BVS {
            self.run_branch_step(opcode, addrmode, pins)
        } else if opcode == OP_BRK || opcode == OP_JSR || opcode == OP_PHA || opcode == OP_PHP
                || opcode == OP_PLA || opcode == OP_PLP || opcode == OP_RTI
                || opcode == OP_RTS {
            self.run_flow_step(opcode, addrmode, pins)
        } else if opcode == OP_STA || opcode == OP_STX || opcode == OP_STY || opcode == OP_SAX
                || opcode == OP_SHA || opcode == OP_SHX || opcode == OP_SHY
                || opcode == OP_TAS {
            self.run_store_step(opcode, addrmode, pins)
        } else if opcode == OP_JAM {
            // Frozen until a reset is latched: the second half-cycle
            // backs the micro-step pointer up one place so that the
            // advance at the end of the half-cycle lands on the start
            // of the execution phase again, forever.  A latched reset
            // lets the pointer run out to the fetch stage, where the
            // reset sequence begins.
            if !pins.phi {
                if self.pending_reset {
                    self.pipeline_status = PipelineStatus::Exec6;
                }
            } else {
                if !self.pending_reset {
                    self.pipeline_status = PipelineStatus::Addr5;
                }
            }
            false
        } else {
            false
        }
    }
}

/// The addressing machinery never drives the phi line.
pub proof fn lemma_addrmode_step_keeps_phi(c: Cpu, p: CpuPinout, opcode: u8, addrmode: u8)
    ensures
        addrmode_step(c, p, opcode, addrmode).1.phi == p.phi,
{
    reveal(addrmode_step);
}

/// The execution machinery never drives the phi line.
#[verifier::rlimit(60)]
pub proof fn lemma_instruction_step_keeps_phi(c: Cpu, p: CpuPinout, opcode: u8, addrmode: u8)
    ensures
        instruction_step(c, p, opcode, addrmode).1.phi == p.phi,
{
    reveal(step_single);
    reveal(step_rmw);
    reveal(step_branch);
    reveal(step_flow);
    reveal(step_store);
}

/// Bus discipline of the addressing machinery: the data bus is never
/// driven on the first half-cycle, the address lines are settled during
/// the second, and data is driven only on write cycles.
pub proof fn lemma_addrmode_step_bus(c: Cpu, p: CpuPinout, opcode: u8, addrmode: u8)
    ensures
        !p.phi ==> addrmode_step(c, p, opcode, addrmode).1.data_bus == p.data_bus,
        p.phi ==> addrmode_step(c, p, opcode, addrmode).1.address_bus == p.address_bus,
        p.phi && addrmode_step(c, p, opcode, addrmode).1.data_bus != p.data_bus
            ==> !addrmode_step(c, p, opcode, addrmode).1.address_rw,
{
    reveal(addrmode_step);
}

/// Bus discipline of the execution machinery, as for the addressing
/// machinery.
#[verifier::rlimit(60)]
pub proof fn lemma_instruction_step_bus(c: Cpu, p: CpuPinout, opcode: u8, addrmode: u8)
    ensures
        !p.phi ==> instruction_step(c, p, opcode, addrmode).1.data_bus == p.data_bus,
        p.phi ==> instruction_step(c, p, opcode, addrmode).1.address_bus == p.address_bus,
        p.phi && instruction_step(c, p, opcode, addrmode).1.data_bus != p.data_bus
            ==> !instruction_step(c, p, opcode, addrmode).1.address_rw,
{
    reveal(step_single);
    reveal(step_rmw);
    reveal(step_branch);
    reveal(step_flow);
    reveal(step_store);
}

/// Bus discipline of a whole CPU half-cycle: reads are issued on the
/// first half-cycle only, and the CPU drives the data bus only during
/// the second half-cycle of a write cycle.
#[verifier::rlimit(60)]
pub proof fn lemma_clock_step_bus(c: Cpu, p: CpuPinout)
    ensures
        !p.phi ==> clock_step(c, p).1.data_bus == p.data_bus,
        p.phi ==> clock_step(c, p).1.address_bus == p.address_bus,
        p.phi && clock_step(c, p).1.data_bus != p.data_bus ==> !clock_step(c, p).1.address_rw,
{
    let c1 = Cpu {
        cycles: if p.phi {
            c.cycles.wrapping_add(1)
        } else {
            c.cycles
        },
        pending_reset: c.pending_reset || !p.reset,
        pending_nmi: c.pending_nmi || !p.nmi,
        pending_irq: c.pending_irq || !p.irq,
        ..c
    };
    let opcode = spec_decode(c.opcode).0;
    let addrmode = spec_decode(c.opcode).1;
    let p1 = CpuPinout { sync: false, ..p };
    let ra = addrmode_step(c1, p1, opcode, addrmode);
    let ca = Cpu { pipeline_status: PipelineStatus::Exec0, ..ra.0 };
    lemma_addrmode_step_bus(c1, p1, opcode, addrmode);
    lemma_addrmode_step_keeps_phi(c1, p1, opcode, addrmode);
    lemma_instruction_step_bus(c1, p1, opcode, addrmode);
    lemma_instruction_step_keeps_phi(c1, p1, opcode, addrmode);
    lemma_instruction_step_bus(ca, ra.1, opcode, addrmode);
    lemma_instruction_step_keeps_phi(ca, ra.1, opcode, addrmode);
}

/// U is set in every pushed status byte; B distinguishes PHP and BRK
/// pushes from IRQ and NMI pushes; a pull through PLP or RTI keeps the
/// current B and U bits and takes every other bit from the pulled byte.
pub proof fn lemma_status_push_pull(status: u8, data: u8)
    ensures
        spec_pushed_status(status, true) & FLAG_U != 0,
        spec_pushed_status(status, false) & FLAG_U != 0,
        spec_pushed_status(status, true) & FLAG_B != 0,
        spec_pushed_status(status, false) & FLAG_B == 0,
        spec_pushed_status(status, true) & 0xCF == status & 0xCF,
        spec_pushed_status(status, false) & 0xCF == status & 0xCF,
        spec_pulled_status(status, data) & (FLAG_B | FLAG_U) == status & (FLAG_B | FLAG_U),
        spec_pulled_status(status, data) & 0xCF == data & 0xCF,
{
    assert((status | 0x10 | 0x20) & 0x20 != 0) by (bit_vector);
    assert(((status | 0x20) & !0x10) & 0x20 != 0) by (bit_vector);
    assert((status | 0x10 | 0x20) & 0x10 != 0) by (bit_vector);
    assert(((status | 0x20) & !0x10) & 0x10 == 0) by (bit_vector);
    assert((status | 0x10 | 0x20) & 0xCF == status & 0xCF) by (bit_vector);
    assert(((status | 0x20) & !0x10) & 0xCF == status & 0xCF) by (bit_vector);
    assert(((data & 0xCF) | (status & 0x30)) & (0x10u8 | 0x20u8) == status & (0x10u8 | 0x20u8))
        by (bit_vector);
    assert(((data & 0xCF) | (status & 0x30)) & 0xCF == data & 0xCF) by (bit_vector);
}

/// Any PHA then PLA is A-preserving: the stack slot PHA writes is the
/// slot PLA's real pull reads, and when the bus returns the pushed byte
/// the accumulator and the stack pointer come back to their old values.
///
/// `c` is the CPU about to run the first execution half-cycle of PHA;
/// PLA runs from the state PHA leaves, with the micro-step pointer back
/// at the start of the execution phase as the fetch boundary puts it,
/// and with the pointer advanced between half-cycle pairs as `execute`
/// advances it.
#[verifier::rlimit(60)]
pub proof fn lemma_pha_pla_roundtrip(c: Cpu, p: CpuPinout)
    requires
        c.pipeline_status == PipelineStatus::Exec0,
        !p.phi,
    ensures
        ({
            let s1 = instruction_step(c, p, OP_PHA, MODE_IMP);
            let s2 = instruction_step(s1.0, CpuPinout { phi: true, ..s1.1 }, OP_PHA, MODE_IMP);
            let d = Cpu { pipeline_status: PipelineStatus::Exec0, ..s2.0 };
            let t1 = instruction_step(d, CpuPinout { phi: false, ..s2.1 }, OP_PLA, MODE_IMP);
            let t2 = instruction_step(t1.0, CpuPinout { phi: true, ..t1.1 }, OP_PLA, MODE_IMP);
            let t3 = instruction_step(
                Cpu { pipeline_status: PipelineStatus::Exec1, ..t2.0 },
                CpuPinout { phi: false, ..t2.1 },
                OP_PLA,
                MODE_IMP,
            );
            let t4 = instruction_step(
                t3.0,
                CpuPinout { phi: true, data_bus: s2.1.data_bus, ..t3.1 },
                OP_PLA,
                MODE_IMP,
            );
            // PHA writes A to the top-of-stack slot...
            s1.1.address_bus == spec_stack_addr(c.stkpt) && s2.1.data_bus == c.a
            // ...PLA's real pull reads the very same slot...
             && t3.1.address_bus == spec_stack_addr(c.stkpt)
            // ...and A and the stack pointer are restored.
             && t4.0.a == c.a && t4.0.stkpt == c.stkpt && t4.2
        }),
{
    reveal(step_flow);
    let s = c.stkpt;
    assert(s.wrapping_sub(1).wrapping_add(1) == s) by (bit_vector);
}

/// Any PHP then PLP preserves the N, V, Z, C, D and I status bits: the
/// pushed copy carries them unchanged (with B and U forced on), and the
/// pull takes them back while keeping the then-current B and U bits.
#[verifier::rlimit(60)]
pub proof fn lemma_php_plp_roundtrip(c: Cpu, p: CpuPinout)
    requires
        c.pipeline_status == PipelineStatus::Exec0,
        !p.phi,
    ensures
        ({
            let s1 = instruction_step(c, p, OP_PHP, MODE_IMP);
            let s2 = instruction_step(s1.0, CpuPinout { phi: true, ..s1.1 }, OP_PHP, MODE_IMP);
            let d = Cpu { pipeline_status: PipelineStatus::Exec0, ..s2.0 };
            let t1 = instruction_step(d, CpuPinout { phi: false, ..s2.1 }, OP_PLP, MODE_IMP);
            let t2 = instruction_step(t1.0, CpuPinout { phi: true, ..t1.1 }, OP_PLP, MODE_IMP);
            let t3 = instruction_step(
                Cpu { pipeline_status: PipelineStatus::Exec1, ..t2.0 },
                CpuPinout { phi: false, ..t2.1 },
                OP_PLP,
                MODE_IMP,
            );
            let t4 = instruction_step(
                t3.0,
                CpuPinout { phi: true, data_bus: s2.1.data_bus, ..t3.1 },
                OP_PLP,
                MODE_IMP,
            );
            // The pushed copy has U and B set...
            s2.1.data_bus & FLAG_U != 0 && s2.1.data_bus & FLAG_B != 0
            // ...the pull reads the slot PHP wrote...
             && s1.1.address_bus == spec_stack_addr(c.stkpt) && t3.1.address_bus
                == spec_stack_addr(c.stkpt)
            // ...and N, V, Z, C, D, I survive the round trip.
             && t4.0.status & 0xCF == c.status & 0xCF && t4.0.stkpt == c.stkpt && t4.2
        }),
{
    reveal(step_flow);
    let s = c.stkpt;
    assert(s.wrapping_sub(1).wrapping_add(1) == s) by (bit_vector);
    let s1 = instruction_step(c, p, OP_PHP, MODE_IMP);
    let s2 = instruction_step(s1.0, CpuPinout { phi: true, ..s1.1 }, OP_PHP, MODE_IMP);
    let d = Cpu { pipeline_status: PipelineStatus::Exec0, ..s2.0 };
    let t1 = instruction_step(d, CpuPinout { phi: false, ..s2.1 }, OP_PLP, MODE_IMP);
    let t2 = instruction_step(t1.0, CpuPinout { phi: true, ..t1.1 }, OP_PLP, MODE_IMP);
    let stv = c.status;
    assert((stv | 0x10 | 0x20) & 0x20 != 0 && (stv | 0x10 | 0x20) & 0x10 != 0) by (bit_vector);
    let cur = t2.0.status;
    assert((((stv | 0x10 | 0x20) & 0xCF) | (cur & 0x30)) & 0xCF == stv & 0xCF) by (bit_vector);
}

/// After an RTS, PC is one past the return address that JSR pushed, and
/// the stack pointer is back to its value before the JSR.
///
/// `c` is the CPU about to run the first execution half-cycle of JSR,
/// with the subroutine target already latched in `addr_data`.  The RTS
/// runs from an arbitrary later state `d` whose stack pointer is the one
/// JSR left; the bus returns the two bytes JSR pushed, each from the
/// slot it was pushed to.  The identity (Exec0, second half-cycle) dummy
/// step of RTS is elided.
#[verifier::rlimit(100)]
pub proof fn lemma_jsr_rts_roundtrip(c: Cpu, p: CpuPinout, d: Cpu, q: CpuPinout)
    requires
        c.pipeline_status == PipelineStatus::Exec0,
        !p.phi,
        d.pipeline_status == PipelineStatus::Exec0,
        !q.phi,
        // RTS starts with the stack pointer JSR left behind.
        d.stkpt == c.stkpt.wrapping_sub(2),
    ensures
        ({
            let s1 = instruction_step(c, p, OP_JSR, MODE_ABS);
            let s2 = instruction_step(s1.0, CpuPinout { phi: true, ..s1.1 }, OP_JSR, MODE_ABS);
            let s3 = instruction_step(
                Cpu { pipeline_status: PipelineStatus::Exec1, ..s2.0 },
                CpuPinout { phi: false, ..s2.1 },
                OP_JSR,
                MODE_ABS,
            );
            let s4 = instruction_step(s3.0, CpuPinout { phi: true, ..s3.1 }, OP_JSR, MODE_ABS);
            // What JSR pushes: the high then the low byte of the return
            // address PC-1.
            let pushed_hi = s2.1.data_bus;
            let pushed_lo = s4.1.data_bus;
            let t1 = instruction_step(d, q, OP_RTS, MODE_IMP);
            let t2 = instruction_step(
                Cpu { pipeline_status: PipelineStatus::Exec1, ..t1.0 },
                CpuPinout { phi: false, ..t1.1 },
                OP_RTS,
                MODE_IMP,
            );
            let t3 = instruction_step(
                t2.0,
                CpuPinout { phi: true, data_bus: pushed_lo, ..t2.1 },
                OP_RTS,
                MODE_IMP,
            );
            let t4 = instruction_step(
                Cpu { pipeline_status: PipelineStatus::Exec2, ..t3.0 },
                CpuPinout { phi: false, ..t3.1 },
                OP_RTS,
                MODE_IMP,
            );
            let t5 = instruction_step(
                t4.0,
                CpuPinout { phi: true, data_bus: pushed_hi, ..t4.1 },
                OP_RTS,
                MODE_IMP,
            );
            let t6 = instruction_step(
                Cpu { pipeline_status: PipelineStatus::Exec3, ..t5.0 },
                CpuPinout { phi: false, ..t5.1 },
                OP_RTS,
                MODE_IMP,
            );
            let t7 = instruction_step(t6.0, CpuPinout { phi: true, ..t6.1 }, OP_RTS, MODE_IMP);
            // The two pulls read exactly the two slots JSR pushed to...
            s1.1.address_bus == spec_stack_addr(c.stkpt) && s3.1.address_bus == spec_stack_addr(
                c.stkpt.wrapping_sub(1),
            ) && t2.1.address_bus == spec_stack_addr(c.stkpt.wrapping_sub(1)) && t4.1.address_bus
                == spec_stack_addr(c.stkpt)
            // ...JSR jumped to the latched target...
             && s4.0.pc == c.addr_data
            // ...PC ends one past the pushed return address, which is
            // the byte after the JSR's operand...
             && t7.0.pc == c.pc
            // ...and the stack pointer is restored.
             && t7.0.stkpt == c.stkpt
        }),
{
    reveal(step_flow);
    let s = c.stkpt;
    assert(s.wrapping_sub(2).wrapping_add(1) == s.wrapping_sub(1)) by (bit_vector);
    assert(s.wrapping_sub(1).wrapping_add(1) == s) by (bit_vector);
    let pc = c.pc;
    let dpc = d.pc;
    assert(((((dpc & 0xFF00) | ((pc.wrapping_sub(1) & 0x00FF) as u8) as u16) & 0x00FF) | ((((
    pc.wrapping_sub(1) >> 8) as u8) as u16) << 8)).wrapping_add(1) == pc) by (bit_vector);
}

pub open spec fn is_exec_stage(s: PipelineStatus) -> bool {
    s == PipelineStatus::Exec0 || s == PipelineStatus::Exec1 || s == PipelineStatus::Exec2
        || s == PipelineStatus::Exec3 || s == PipelineStatus::Exec4 || s == PipelineStatus::Exec5
        || s == PipelineStatus::Exec6
}

/// Which interrupt, if any, the fetch boundary serves: reset first, then
/// NMI, then IRQ gated by the I flag.
pub open spec fn spec_pending_kind(c: Cpu) -> ServicedInterrupt {
    if c.pending_reset {
        ServicedInterrupt::Reset
    } else if c.pending_nmi {
        ServicedInterrupt::Nmi
    } else if c.pending_irq && !flag_set(c.status, FLAG_I) {
        ServicedInterrupt::Irq
    } else {
        ServicedInterrupt::NoInterrupt
    }
}

/// The instruction-fetch boundary on the second half-cycle: latch the
/// next opcode and advance PC, or begin an interrupt service sequence as
/// a pseudo-BRK without advancing PC.
pub open spec fn spec_ir_fetch(c: Cpu, p: CpuPinout) -> Cpu {
    let kind = spec_pending_kind(c);
    if kind == ServicedInterrupt::NoInterrupt {
        Cpu {
            opcode: p.data_bus,
            pc: c.pc.wrapping_add(1),
            pipeline_status: PipelineStatus::Addr0,
            did_page_break_this_instruction: false,
            serviced_interrupt: kind,
            ..c
        }
    } else {
        Cpu {
            opcode: 0,
            pipeline_status: PipelineStatus::Addr0,
            did_page_break_this_instruction: false,
            serviced_interrupt: kind,
            pending_reset: false,
            pending_nmi: if kind == ServicedInterrupt::Nmi || kind == ServicedInterrupt::Reset {
                false
            } else {
                c.pending_nmi
            },
            pending_irq: if kind == ServicedInterrupt::Irq || kind == ServicedInterrupt::Reset {
                false
            } else {
                c.pending_irq
            },
            ..c
        }
    }
}

/// The instruction-fetch stage: drive PC with sync asserted on the first
/// half-cycle; consume the data bus on the second.
pub open spec fn ir_step(c: Cpu, p: CpuPinout) -> (Cpu, CpuPinout, bool) {
    if !p.phi {
        (c, CpuPinout { address_bus: c.pc, address_rw: true, sync: true, ..p }, false)
    } else {
        (spec_ir_fetch(c, p), p, true)
    }
}

/// The execution stage and whatever follows it within the same
/// half-cycle.
pub open spec fn exec_stage_step(c: Cpu, p: CpuPinout, opcode: u8, addrmode: u8) -> (
    Cpu,
    CpuPinout,
    bool,
) {
    let r = instruction_step(c, p, opcode, addrmode);
    if r.2 {
        let c2 = Cpu { pipeline_status: PipelineStatus::IR, ..r.0 };
        if !p.phi {
            ir_step(c2, r.1)
        } else {
            (c2, r.1, false)
        }
    } else if p.phi {
        (Cpu { pipeline_status: advance_spec(r.0.pipeline_status), ..r.0 }, r.1, false)
    } else {
        (r.0, r.1, false)
    }
}

/// The addressing stage and whatever follows it within the same
/// half-cycle.
pub open spec fn addr_stage_step(c: Cpu, p: CpuPinout, opcode: u8, addrmode: u8) -> (
    Cpu,
    CpuPinout,
    bool,
) {
    let r = addrmode_step(c, p, opcode, addrmode);
    if r.2 {
        let c2 = Cpu { pipeline_status: PipelineStatus::Exec0, ..r.0 };
        if !p.phi {
            exec_stage_step(c2, r.1, opcode, addrmode)
        } else {
            (c2, r.1, false)
        }
    } else if p.phi {
        (Cpu { pipeline_status: advance_spec(r.0.pipeline_status), ..r.0 }, r.1, false)
    } else {
        (r.0, r.1, false)
    }
}

/// One half-cycle of the whole micro-step machine: the page-boundary
/// fixup cycle if one is pending, else the current stage.  `sync` is
/// driven low except on the opcode-fetch half-cycle.
pub open spec fn execute_step(c: Cpu, p0: CpuPinout, opcode: u8, addrmode: u8) -> (
    Cpu,
    CpuPinout,
    bool,
) {
    let p = CpuPinout { sync: false, ..p0 };
    if c.page_boundary_crossed {
        let c1 = Cpu { did_page_break_this_instruction: true, ..c };
        if !p.phi {
            (c1, CpuPinout { address_bus: c.addr_data, address_rw: true, ..p }, false)
        } else {
            let hi = spec_hi_byte(c.addr_data).wrapping_add(
                if c.internal_carry {
                    1u8
                } else {
                    0u8
                },
            );
            (
                Cpu {
                    addr_data: spec_with_hi_byte(c.addr_data, hi),
                    page_boundary_crossed: false,
                    internal_carry: false,
                    ..c1
                },
                p,
                false,
            )
        }
    } else if is_exec_stage(c.pipeline_status) {
        exec_stage_step(c, p, opcode, addrmode)
    } else if c.pipeline_status == PipelineStatus::IR {
        ir_step(c, p)
    } else {
        addr_stage_step(c, p, opcode, addrmode)
    }
}

/// One half-cycle of the CPU as seen from the bus: interrupt lines are
/// latched, the cycle counter advances on the second half-cycle, and the
/// micro-step machine runs on the decoded current opcode.
pub open spec fn clock_step(c: Cpu, p: CpuPinout) -> (Cpu, CpuPinout, bool) {
    let c1 = Cpu {
        cycles: if p.phi {
            c.cycles.wrapping_add(1)
        } else {
            c.cycles
        },
        pending_reset: c.pending_reset || !p.reset,
        pending_nmi: c.pending_nmi || !p.nmi,
        pending_irq: c.pending_irq || !p.irq,
        ..c
    };
    execute_step(c1, p, spec_decode(c.opcode).0, spec_decode(c.opcode).1)
}

impl Cpu {
    /// Run one half-cycle of the current stage.
    #[verifier::rlimit(100)]
    fn execute(&mut self, opcode: u8, addrmode: u8, pins: &mut CpuPinout) -> (r: bool)
        ensures
            *final(self) == execute_step(*old(self), *old(pins), opcode, addrmode).0,
            *final(pins) == execute_step(*old(self), *old(pins), opcode, addrmode).1,
            r == execute_step(*old(self), *old(pins), opcode, addrmode).2,
    {
        let phi = pins.phi;
        pins.sync = false;

        let mut is_executing_stage = match self.pipeline_status {
            PipelineStatus::Exec0 | PipelineStatus::Exec1 | PipelineStatus::Exec2
                | PipelineStatus::Exec3 | PipelineStatus::Exec4 | PipelineStatus::Exec5
                | PipelineStatus::Exec6 => true,
            _ => false,
        };
        let mut is_ir_stage = match self.pipeline_status {
            PipelineStatus::IR => true,
            _ => false,
        };
        let is_addr_stage = !is_executing_stage && !is_ir_stage;
        proof {
            // Name the intermediate transitions of every stage chain so
            // that the solver relates each exit to its path through
            // `execute_step`.
            let c0 = *old(self);
            let p0 = *old(pins);
            let p1 = CpuPinout { sync: false, ..p0 };
            let es = execute_step(c0, p0, opcode, addrmode);
            let ra = addrmode_step(c0, p1, opcode, addrmode);
            lemma_addrmode_step_keeps_phi(c0, p1, opcode, addrmode);
            lemma_instruction_step_keeps_phi(c0, p1, opcode, addrmode);
            lemma_instruction_step_keeps_phi(
                Cpu { pipeline_status: PipelineStatus::Exec0, ..ra.0 },
                ra.1,
                opcode,
                addrmode,
            );
            let ca = Cpu { pipeline_status: PipelineStatus::Exec0, ..ra.0 };
            let rea = instruction_step(ca, ra.1, opcode, addrmode);
            let cia = Cpu { pipeline_status: PipelineStatus::IR, ..rea.0 };
            let ia = ir_step(cia, rea.1);
            let re = instruction_step(c0, p1, opcode, addrmode);
            let cie = Cpu { pipeline_status: PipelineStatus::IR, ..re.0 };
            let ie = ir_step(cie, re.1);
            let i0 = ir_step(c0, p1);
            let xa = exec_stage_step(ca, ra.1, opcode, addrmode);
            let xe = exec_stage_step(c0, p1, opcode, addrmode);
            let aa = addr_stage_step(c0, p1, opcode, addrmode);
            assert(es == es && ia == ia && ie == ie && i0 == i0 && xa == xa && xe == xe && aa
                == aa);
        }

        // A pending page-boundary crossing costs one extra cycle that
        // fixes the high byte of the effective address.
        if self.page_boundary_crossed {
            self.did_page_break_this_instruction = true;
            if !phi {
                pins.address_bus = self.addr_data;
                pins.address_rw = true;
                return false;
            } else {
                let carry: u8 = if self.internal_carry {
                    1
                } else {
                    0
                };
                let hi = hi_byte(self.addr_data).wrapping_add(carry);
                set_hi_byte(&mut self.addr_data, hi);
                self.page_boundary_crossed = false;
                self.internal_carry = false;
                return false;
            }
        }

        if is_addr_stage {
            let finished_addressing = self.execute_addrmode(opcode, addrmode, pins);
            if finished_addressing {
                self.pipeline_status = PipelineStatus::Exec0;
                is_executing_stage = !phi;
            } else {
                if phi {
                    self.pipeline_status.advance();
                }
                return false;
            }
        }

        if is_executing_stage {
            let finished_executing = self.execute_instruction(opcode, addrmode, pins);
            if finished_executing {
                self.pipeline_status = PipelineStatus::IR;
                is_ir_stage = !phi;
            } else if phi {
                self.pipeline_status.advance();
                return false;
            }
        }

        if is_ir_stage && !phi {
            pins.address_bus = self.pc;
            pins.address_rw = true;
            pins.sync = true;
            return false;
        }

        if is_ir_stage && phi {
            let kind = if self.pending_reset {
                ServicedInterrupt::Reset
            } else if self.pending_nmi {
                ServicedInterrupt::Nmi
            } else if self.pending_irq && !self.get_flag(FLAG_I) {
                ServicedInterrupt::Irq
            } else {
                ServicedInterrupt::NoInterrupt
            };
            if kind == ServicedInterrupt::NoInterrupt {
                self.opcode = pins.data_bus;
                self.pc = self.pc.wrapping_add(1);
            } else {
                // An interrupt is serviced as a pseudo-BRK: the opcode
                // byte on the bus is discarded and PC stays put.
                self.opcode = 0;
                self.pending_reset = false;
                if kind == ServicedInterrupt::Nmi || kind == ServicedInterrupt::Reset {
                    self.pending_nmi = false;
                }
                if kind == ServicedInterrupt::Irq || kind == ServicedInterrupt::Reset {
                    self.pending_irq = false;
                }
            }
            self.serviced_interrupt = kind;
            self.pipeline_status = PipelineStatus::Addr0;
            self.did_page_break_this_instruction = false;
            return true;
        }

        false
    }

    /// Advance the CPU by one half-cycle against the bus pinout.
    /// Returns true exactly when a full instruction finished with the
    /// opcode fetch of the next one.
    pub fn clock(&mut self, pins: &mut CpuPinout) -> (r: bool)
        ensures
            *final(self) == clock_step(*old(self), *old(pins)).0,
            *final(pins) == clock_step(*old(self), *old(pins)).1,
            r == clock_step(*old(self), *old(pins)).2,
            // Bus discipline: reads are issued on the first half-cycle
            // only, and the CPU drives the data bus only during the
            // second half-cycle of a write cycle.
            !old(pins).phi ==> final(pins).data_bus == old(pins).data_bus,
            old(pins).phi ==> final(pins).address_bus == old(pins).address_bus,
            old(pins).phi && final(pins).data_bus != old(pins).data_bus
                ==> !final(pins).address_rw,
    {
        proof {
            lemma_clock_step_bus(*old(self), *old(pins));
        }
        if pins.phi {
            self.cycles = self.cycles.wrapping_add(1);
        }
        // Latch the active-low interrupt lines; they are consumed at the
        // next instruction-fetch boundary.
        if !pins.reset {
            self.pending_reset = true;
        }
        if !pins.nmi {
            self.pending_nmi = true;
        }
        if !pins.irq {
            self.pending_irq = true;
        }
        let instruction = lookup(self.opcode);
        self.execute(instruction.op(), instruction.addrmode(), pins)
    }

    /// Request a reset: the line is latched and serviced at the next
    /// instruction boundary by fetching the vector at 0xFFFC.
    pub fn reset(&mut self)
        ensures
            *final(self) == (Cpu { pending_reset: true, ..*old(self) }),
    {
        self.pending_reset = true;
    }

    /// Request a maskable interrupt, serviced at the next instruction
    /// boundary unless the I flag is set, through the vector at 0xFFFE.
    pub fn irq(&mut self)
        ensures
            *final(self) == (Cpu { pending_irq: true, ..*old(self) }),
    {
        self.pending_irq = true;
    }

    /// Request a non-maskable interrupt, serviced at the next
    /// instruction boundary through the vector at 0xFFFA.
    pub fn nmi(&mut self)
        ensures
            *final(self) == (Cpu { pending_nmi: true, ..*old(self) }),
    {
        self.pending_nmi = true;
    }
}

/// The two carry formulations used by the adder agree: carry out of the
/// 8-bit sum is exactly bit 8 of the 9-bit sum, and the overflow formula
/// is the two's-complement sign rule.
/// Branch timing: a branch instruction spends two cycles when not
/// taken, three when taken within the page, and four when the taken
/// branch crosses a page (one high-byte fixup cycle is inserted).
///
/// `c` is the CPU about to run the first execution half-cycle, which is
/// the first half of the instruction's third cycle (opcode fetch and
/// operand fetch took the first two).  A `true` step result starts the
/// next opcode fetch in that same cycle, so ending at the first,
/// second or third execution step below is exactly the 2-, 3- or
/// 4-cycle timing.  In every case the final PC is the operand-relative
/// target: PC plus the sign-extended offset.
#[verifier::rlimit(60)]
pub proof fn lemma_branch_timing(c: Cpu, p: CpuPinout, op: u8)
    requires
        c.pipeline_status == PipelineStatus::Exec0,
        is_branch_op(op),
        !p.phi,
    ensures
        ({
            let taken = spec_branch_taken(op, c.status);
            let sext = c.fetched as i8 as i16 as u16;
            let old_lo = spec_lo_byte(c.pc);
            let new_lo = old_lo.wrapping_add(c.fetched);
            let carry = new_lo < old_lo;
            let negative = spec_hi_byte(sext) > 0;
            let crossing = (carry || negative) && !(carry && negative);
            let s1 = instruction_step(c, p, op, MODE_REL);
            let s2 = instruction_step(s1.0, CpuPinout { phi: true, ..s1.1 }, op, MODE_REL);
            let s3 = instruction_step(
                Cpu { pipeline_status: PipelineStatus::Exec1, ..s2.0 },
                CpuPinout { phi: false, ..s2.1 },
                op,
                MODE_REL,
            );
            let s4 = instruction_step(s3.0, CpuPinout { phi: true, ..s3.1 }, op, MODE_REL);
            // Not taken: done at once, two cycles in all, PC untouched.
            (!taken ==> s1.2 && s1.0 == c)
            // Taken within the page: done on the third cycle, at the
            // target.
             && (taken && !crossing ==> !s1.2 && s3.2 && s3.0.pc == c.pc.wrapping_add(sext))
            // Taken across a page: the fixup takes the third cycle and
            // the instruction ends on the fourth, at the target.
             && (taken && crossing ==> !s1.2 && !s3.2 && s4.2 && s4.0.pc == c.pc.wrapping_add(
                sext,
            ))
        }),
{
    reveal(step_branch);
    let pc = c.pc;
    let off = c.fetched;
    assert({
        let sext = off as i8 as i16 as u16;
        let old_lo = (pc & 0x00FF) as u8;
        let new_lo = old_lo.wrapping_add(off);
        let carry = new_lo < old_lo;
        let negative = ((sext >> 8u16) as u8) > 0;
        let crossing = (carry || negative) && !(carry && negative);
        let moved = (pc & 0xFF00) | (new_lo as u16);
        let fixed_hi = ((moved >> 8u16) as u8).wrapping_add((sext >> 8u16) as u8).wrapping_add(
            if carry {
                1u8
            } else {
                0u8
            },
        );
        (!crossing ==> moved == pc.wrapping_add(sext)) && (crossing ==> ((moved & 0x00FF) | ((
        fixed_hi as u16) << 8u16)) == pc.wrapping_add(sext))
    }) by (bit_vector);
}

/// A jammed CPU halts productively: with no reset latched, a whole CPU
/// cycle on a JAM opcode completes no instruction, drives nothing new
/// onto the bus, and returns every register and the micro-step pointer
/// to their previous values, so the same holds for every following
/// cycle until a reset is latched.
pub proof fn lemma_jam_freezes(c: Cpu, p: CpuPinout)
    requires
        c.pipeline_status == PipelineStatus::Exec0,
        spec_decode(c.opcode).0 == OP_JAM,
        !c.pending_reset && !c.pending_nmi && !c.pending_irq,
        !c.page_boundary_crossed,
        !p.phi,
        !p.sync,
        p.reset && p.nmi && p.irq,
    ensures
        ({
            let r1 = clock_step(c, p);
            let r2 = clock_step(r1.0, CpuPinout { phi: true, ..r1.1 });
            !r1.2 && !r2.2 && r1.1 == p && r2.0 == (Cpu {
                cycles: c.cycles.wrapping_add(1),
                ..c
            })
        }),
{
    let r1 = clock_step(c, p);
    let r2 = clock_step(r1.0, CpuPinout { phi: true, ..r1.1 });
}

pub proof fn lemma_adc_carry_and_overflow(a: u8, b: u8, carry: bool)
    ensures
        (spec_adc_sum(a, b, carry) > 255) == ((spec_adc_sum(a, b, carry) >> 8) & 1 == 1),
        spec_adc_overflow(a, b, spec_adc_sum(a, b, carry)) == ((a < 0x80 && b < 0x80
            && spec_lo_byte(spec_adc_sum(a, b, carry)) >= 0x80) || (a >= 0x80 && b >= 0x80
            && spec_lo_byte(spec_adc_sum(a, b, carry)) < 0x80)),
{
    let cin: u16 = if carry { 1u16 } else { 0u16 };
    assert(((a as u16 + b as u16 + cin) as u16 > 255) == (((a as u16 + b as u16 + cin) as u16 >> 8)
        & 1 == 1)) by (bit_vector)
        requires
            cin <= 1,
    ;
    assert((((!(a as u16 ^ b as u16) & (a as u16 ^ ((a as u16 + b as u16 + cin) as u16))) & 0x0080)
        > 0) == ((a < 0x80 && b < 0x80 && ((((a as u16 + b as u16 + cin) as u16) & 0x00FF) as u8)
        >= 0x80) || (a >= 0x80 && b >= 0x80 && ((((a as u16 + b as u16 + cin) as u16)
        & 0x00FF) as u8) < 0x80))) by (bit_vector)
        requires
            cin <= 1,
    ;
}

} // verus!
