//! The opcode decode table: each opcode byte maps to an operation id and
//! an addressing-mode id.

use vstd::prelude::*;

verus! {

// Operation identifiers (decode-table ids, not opcode bytes).
pub const OP_NOP: u8 = 0x00;
pub const OP_LDA: u8 = 0x01;
pub const OP_LDX: u8 = 0x02;
pub const OP_LDY: u8 = 0x03;
pub const OP_ADC: u8 = 0x04;
pub const OP_AND: u8 = 0x05;
pub const OP_ASL: u8 = 0x06;
pub const OP_BCC: u8 = 0x07;
pub const OP_BCS: u8 = 0x08;
pub const OP_BEQ: u8 = 0x09;
pub const OP_BIT: u8 = 0x0A;
pub const OP_BMI: u8 = 0x0B;
pub const OP_BNE: u8 = 0x0C;
pub const OP_BPL: u8 = 0x0D;
pub const OP_BRK: u8 = 0x0E;
pub const OP_BVC: u8 = 0x0F;
pub const OP_BVS: u8 = 0x10;
pub const OP_CLC: u8 = 0x11;
pub const OP_CLD: u8 = 0x12;
pub const OP_CLI: u8 = 0x13;
pub const OP_CLV: u8 = 0x14;
pub const OP_CMP: u8 = 0x15;
pub const OP_CPX: u8 = 0x16;
pub const OP_CPY: u8 = 0x17;
pub const OP_DEC: u8 = 0x18;
pub const OP_DEX: u8 = 0x19;
pub const OP_DEY: u8 = 0x1A;
pub const OP_EOR: u8 = 0x1B;
pub const OP_INC: u8 = 0x1C;
pub const OP_INX: u8 = 0x1D;
pub const OP_INY: u8 = 0x1E;
pub const OP_JMP: u8 = 0x1F;
pub const OP_JSR: u8 = 0x20;
pub const OP_LSR: u8 = 0x21;
pub const OP_ORA: u8 = 0x22;
pub const OP_PHA: u8 = 0x23;
pub const OP_PHP: u8 = 0x24;
pub const OP_PLA: u8 = 0x25;
pub const OP_PLP: u8 = 0x26;
pub const OP_ROL: u8 = 0x27;
pub const OP_ROR: u8 = 0x28;
pub const OP_RTI: u8 = 0x29;
pub const OP_RTS: u8 = 0x2A;
pub const OP_SBC: u8 = 0x2B;
pub const OP_SEC: u8 = 0x2C;
pub const OP_SED: u8 = 0x2D;
pub const OP_SEI: u8 = 0x2E;
pub const OP_STA: u8 = 0x2F;
pub const OP_STX: u8 = 0x30;
pub const OP_STY: u8 = 0x31;
pub const OP_TAX: u8 = 0x32;
pub const OP_TAY: u8 = 0x33;
pub const OP_TSX: u8 = 0x34;
pub const OP_TXA: u8 = 0x35;
pub const OP_TXS: u8 = 0x36;
pub const OP_TYA: u8 = 0x37;
pub const OP_SLO: u8 = 0x38;
pub const OP_RLA: u8 = 0x39;
pub const OP_SRE: u8 = 0x3A;
pub const OP_RRA: u8 = 0x3B;
pub const OP_SAX: u8 = 0x3C;
pub const OP_LAX: u8 = 0x3D;
pub const OP_DCP: u8 = 0x3E;
pub const OP_ISC: u8 = 0x3F;
pub const OP_ANC: u8 = 0x40;
pub const OP_ALR: u8 = 0x41;
pub const OP_ARR: u8 = 0x42;
pub const OP_SBX: u8 = 0x43;
pub const OP_SHA: u8 = 0x44;
pub const OP_SHY: u8 = 0x45;
pub const OP_SHX: u8 = 0x46;
pub const OP_TAS: u8 = 0x47;
pub const OP_LAS: u8 = 0x48;
pub const OP_ANE: u8 = 0x49;
pub const OP_ANX: u8 = 0x50;
pub const OP_JAM: u8 = 0x51;

// Addressing-mode identifiers.
pub const MODE_IMP: u8 = 0x00;
pub const MODE_ACC: u8 = 0x01;
pub const MODE_IMM: u8 = 0x02;
pub const MODE_ZP: u8 = 0x03;
pub const MODE_ZP_X: u8 = 0x04;
pub const MODE_ZP_Y: u8 = 0x05;
pub const MODE_REL: u8 = 0x06;
pub const MODE_ABS: u8 = 0x07;
pub const MODE_ABS_X: u8 = 0x08;
pub const MODE_ABS_Y: u8 = 0x09;
pub const MODE_IND: u8 = 0x0A;
pub const MODE_IND_X: u8 = 0x0B;
pub const MODE_IND_Y: u8 = 0x0C;

/// One decoded table entry.
#[derive(Clone, Copy, PartialEq, Eq, Structural, Debug)]
pub struct Instruction {
    pub operate: u8,
    pub addrmode: u8,
}

impl Instruction {
    pub fn new(operate: u8, addrmode: u8) -> (r: Instruction)
        ensures
            r.operate == operate && r.addrmode == addrmode,
    {
        Instruction { operate, addrmode }
    }

    pub fn op(&self) -> (r: u8)
        ensures
            r == self.operate,
    {
        self.operate
    }

    pub fn addrmode(&self) -> (r: u8)
        ensures
            r == self.addrmode,
    {
        self.addrmode
    }
}

/// The decode table as a mathematical map: operation id and addressing
/// mode id for every opcode byte.
pub open spec fn spec_decode(opcode: u8) -> (u8, u8) {
    match opcode {
        0x00u8 => (OP_BRK, MODE_IMP),
        0x01u8 => (OP_ORA, MODE_IND_X),
        0x02u8 => (OP_JAM, MODE_IMP),
        0x03u8 => (OP_SLO, MODE_IND_X),
        0x04u8 => (OP_NOP, MODE_ZP),
        0x05u8 => (OP_ORA, MODE_ZP),
        0x06u8 => (OP_ASL, MODE_ZP),
        0x07u8 => (OP_SLO, MODE_ZP),
        0x08u8 => (OP_PHP, MODE_IMP),
        0x09u8 => (OP_ORA, MODE_IMM),
        0x0Au8 => (OP_ASL, MODE_ACC),
        0x0Bu8 => (OP_ANC, MODE_IMM),
        0x0Cu8 => (OP_NOP, MODE_ABS),
        0x0Du8 => (OP_ORA, MODE_ABS),
        0x0Eu8 => (OP_ASL, MODE_ABS),
        0x0Fu8 => (OP_SLO, MODE_ABS),
        0x10u8 => (OP_BPL, MODE_REL),
        0x11u8 => (OP_ORA, MODE_IND_Y),
        0x12u8 => (OP_JAM, MODE_REL),
        0x13u8 => (OP_SLO, MODE_IND_Y),
        0x14u8 => (OP_NOP, MODE_ZP_X),
        0x15u8 => (OP_ORA, MODE_ZP_X),
        0x16u8 => (OP_ASL, MODE_ZP_X),
        0x17u8 => (OP_SLO, MODE_ZP_X),
        0x18u8 => (OP_CLC, MODE_IMP),
        0x19u8 => (OP_ORA, MODE_ABS_Y),
        0x1Au8 => (OP_NOP, MODE_IMP),
        0x1Bu8 => (OP_SLO, MODE_ABS_Y),
        0x1Cu8 => (OP_NOP, MODE_ABS_X),
        0x1Du8 => (OP_ORA, MODE_ABS_X),
        0x1Eu8 => (OP_ASL, MODE_ABS_X),
        0x1Fu8 => (OP_SLO, MODE_ABS_X),
        0x20u8 => (OP_JSR, MODE_ABS),
        0x21u8 => (OP_AND, MODE_IND_X),
        0x22u8 => (OP_JAM, MODE_IMP),
        0x23u8 => (OP_RLA, MODE_IND_X),
        0x24u8 => (OP_BIT, MODE_ZP),
        0x25u8 => (OP_AND, MODE_ZP),
        0x26u8 => (OP_ROL, MODE_ZP),
        0x27u8 => (OP_RLA, MODE_ZP),
        0x28u8 => (OP_PLP, MODE_IMP),
        0x29u8 => (OP_AND, MODE_IMM),
        0x2Au8 => (OP_ROL, MODE_ACC),
        0x2Bu8 => (OP_ANC, MODE_IMM),
        0x2Cu8 => (OP_BIT, MODE_ABS),
        0x2Du8 => (OP_AND, MODE_ABS),
        0x2Eu8 => (OP_ROL, MODE_ABS),
        0x2Fu8 => (OP_RLA, MODE_ABS),
        0x30u8 => (OP_BMI, MODE_REL),
        0x31u8 => (OP_AND, MODE_IND_Y),
        0x32u8 => (OP_JAM, MODE_REL),
        0x33u8 => (OP_RLA, MODE_IND_Y),
        0x34u8 => (OP_NOP, MODE_ZP_X),
        0x35u8 => (OP_AND, MODE_ZP_X),
        0x36u8 => (OP_ROL, MODE_ZP_X),
        0x37u8 => (OP_RLA, MODE_ZP_X),
        0x38u8 => (OP_SEC, MODE_IMP),
        0x39u8 => (OP_AND, MODE_ABS_Y),
        0x3Au8 => (OP_NOP, MODE_IMP),
        0x3Bu8 => (OP_RLA, MODE_ABS_Y),
        0x3Cu8 => (OP_NOP, MODE_ABS_X),
        0x3Du8 => (OP_AND, MODE_ABS_X),
        0x3Eu8 => (OP_ROL, MODE_ABS_X),
        0x3Fu8 => (OP_RLA, MODE_ABS_X),
        0x40u8 => (OP_RTI, MODE_IMP),
        0x41u8 => (OP_EOR, MODE_IND_X),
        0x42u8 => (OP_JAM, MODE_IMP),
        0x43u8 => (OP_SRE, MODE_IND_X),
        0x44u8 => (OP_NOP, MODE_ZP),
        0x45u8 => (OP_EOR, MODE_ZP),
        0x46u8 => (OP_LSR, MODE_ZP),
        0x47u8 => (OP_SRE, MODE_ZP),
        0x48u8 => (OP_PHA, MODE_IMP),
        0x49u8 => (OP_EOR, MODE_IMM),
        0x4Au8 => (OP_LSR, MODE_ACC),
        0x4Bu8 => (OP_ALR, MODE_IMM),
        0x4Cu8 => (OP_JMP, MODE_ABS),
        0x4Du8 => (OP_EOR, MODE_ABS),
        0x4Eu8 => (OP_LSR, MODE_ABS),
        0x4Fu8 => (OP_SRE, MODE_ABS),
        0x50u8 => (OP_BVC, MODE_REL),
        0x51u8 => (OP_EOR, MODE_IND_Y),
        0x52u8 => (OP_JAM, MODE_REL),
        0x53u8 => (OP_SRE, MODE_IND_Y),
        0x54u8 => (OP_NOP, MODE_ZP_X),
        0x55u8 => (OP_EOR, MODE_ZP_X),
        0x56u8 => (OP_LSR, MODE_ZP_X),
        0x57u8 => (OP_SRE, MODE_ZP_X),
        0x58u8 => (OP_CLI, MODE_IMP),
        0x59u8 => (OP_EOR, MODE_ABS_Y),
        0x5Au8 => (OP_NOP, MODE_IMP),
        0x5Bu8 => (OP_SRE, MODE_ABS_Y),
        0x5Cu8 => (OP_NOP, MODE_ABS_X),
        0x5Du8 => (OP_EOR, MODE_ABS_X),
        0x5Eu8 => (OP_LSR, MODE_ABS_X),
        0x5Fu8 => (OP_SRE, MODE_ABS_X),
        0x60u8 => (OP_RTS, MODE_IMP),
        0x61u8 => (OP_ADC, MODE_IND_X),
        0x62u8 => (OP_JAM, MODE_IMP),
        0x63u8 => (OP_RRA, MODE_IND_X),
        0x64u8 => (OP_NOP, MODE_ZP),
        0x65u8 => (OP_ADC, MODE_ZP),
        0x66u8 => (OP_ROR, MODE_ZP),
        0x67u8 => (OP_RRA, MODE_ZP),
        0x68u8 => (OP_PLA, MODE_IMP),
        0x69u8 => (OP_ADC, MODE_IMM),
        0x6Au8 => (OP_ROR, MODE_ACC),
        0x6Bu8 => (OP_ARR, MODE_IMM),
        0x6Cu8 => (OP_JMP, MODE_IND),
        0x6Du8 => (OP_ADC, MODE_ABS),
        0x6Eu8 => (OP_ROR, MODE_ABS),
        0x6Fu8 => (OP_RRA, MODE_ABS),
        0x70u8 => (OP_BVS, MODE_REL),
        0x71u8 => (OP_ADC, MODE_IND_Y),
        0x72u8 => (OP_JAM, MODE_REL),
        0x73u8 => (OP_RRA, MODE_IND_Y),
        0x74u8 => (OP_NOP, MODE_ZP_X),
        0x75u8 => (OP_ADC, MODE_ZP_X),
        0x76u8 => (OP_ROR, MODE_ZP_X),
        0x77u8 => (OP_RRA, MODE_ZP_X),
        0x78u8 => (OP_SEI, MODE_IMP),
        0x79u8 => (OP_ADC, MODE_ABS_Y),
        0x7Au8 => (OP_NOP, MODE_IMP),
        0x7Bu8 => (OP_RRA, MODE_ABS_Y),
        0x7Cu8 => (OP_NOP, MODE_ABS_X),
        0x7Du8 => (OP_ADC, MODE_ABS_X),
        0x7Eu8 => (OP_ROR, MODE_ABS_X),
        0x7Fu8 => (OP_RRA, MODE_ABS_X),
        0x80u8 => (OP_NOP, MODE_IMM),
        0x81u8 => (OP_STA, MODE_IND_X),
        0x82u8 => (OP_NOP, MODE_IMM),
        0x83u8 => (OP_SAX, MODE_IND_X),
        0x84u8 => (OP_STY, MODE_ZP),
        0x85u8 => (OP_STA, MODE_ZP),
        0x86u8 => (OP_STX, MODE_ZP),
        0x87u8 => (OP_SAX, MODE_ZP),
        0x88u8 => (OP_DEY, MODE_IMP),
        0x89u8 => (OP_NOP, MODE_IMM),
        0x8Au8 => (OP_TXA, MODE_IMP),
        0x8Bu8 => (OP_ANE, MODE_IMM),
        0x8Cu8 => (OP_STY, MODE_ABS),
        0x8Du8 => (OP_STA, MODE_ABS),
        0x8Eu8 => (OP_STX, MODE_ABS),
        0x8Fu8 => (OP_SAX, MODE_ABS),
        0x90u8 => (OP_BCC, MODE_REL),
        0x91u8 => (OP_STA, MODE_IND_Y),
        0x92u8 => (OP_JAM, MODE_REL),
        0x93u8 => (OP_SHA, MODE_IND_Y),
        0x94u8 => (OP_STY, MODE_ZP_X),
        0x95u8 => (OP_STA, MODE_ZP_X),
        0x96u8 => (OP_STX, MODE_ZP_Y),
        0x97u8 => (OP_SAX, MODE_ZP_Y),
        0x98u8 => (OP_TYA, MODE_IMP),
        0x99u8 => (OP_STA, MODE_ABS_Y),
        0x9Au8 => (OP_TXS, MODE_IMP),
        0x9Bu8 => (OP_TAS, MODE_ABS_Y),
        0x9Cu8 => (OP_SHY, MODE_ABS_X),
        0x9Du8 => (OP_STA, MODE_ABS_X),
        0x9Eu8 => (OP_SHX, MODE_ABS_Y),
        0x9Fu8 => (OP_SHA, MODE_ABS_Y),
        0xA0u8 => (OP_LDY, MODE_IMM),
        0xA1u8 => (OP_LDA, MODE_IND_X),
        0xA2u8 => (OP_LDX, MODE_IMM),
        0xA3u8 => (OP_LAX, MODE_IND_X),
        0xA4u8 => (OP_LDY, MODE_ZP),
        0xA5u8 => (OP_LDA, MODE_ZP),
        0xA6u8 => (OP_LDX, MODE_ZP),
        0xA7u8 => (OP_LAX, MODE_ZP),
        0xA8u8 => (OP_TAY, MODE_IMP),
        0xA9u8 => (OP_LDA, MODE_IMM),
        0xAAu8 => (OP_TAX, MODE_IMP),
        0xABu8 => (OP_LAX, MODE_IMM),
        0xACu8 => (OP_LDY, MODE_ABS),
        0xADu8 => (OP_LDA, MODE_ABS),
        0xAEu8 => (OP_LDX, MODE_ABS),
        0xAFu8 => (OP_LAX, MODE_ABS),
        0xB0u8 => (OP_BCS, MODE_REL),
        0xB1u8 => (OP_LDA, MODE_IND_Y),
        0xB2u8 => (OP_JAM, MODE_REL),
        0xB3u8 => (OP_LAX, MODE_IND_Y),
        0xB4u8 => (OP_LDY, MODE_ZP_X),
        0xB5u8 => (OP_LDA, MODE_ZP_X),
        0xB6u8 => (OP_LDX, MODE_ZP_Y),
        0xB7u8 => (OP_LAX, MODE_ZP_Y),
        0xB8u8 => (OP_CLV, MODE_IMP),
        0xB9u8 => (OP_LDA, MODE_ABS_Y),
        0xBAu8 => (OP_TSX, MODE_IMP),
        0xBBu8 => (OP_LAS, MODE_ABS_Y),
        0xBCu8 => (OP_LDY, MODE_ABS_X),
        0xBDu8 => (OP_LDA, MODE_ABS_X),
        0xBEu8 => (OP_LDX, MODE_ABS_Y),
        0xBFu8 => (OP_LAX, MODE_ABS_Y),
        0xC0u8 => (OP_CPY, MODE_IMM),
        0xC1u8 => (OP_CMP, MODE_IND_X),
        0xC2u8 => (OP_NOP, MODE_IMM),
        0xC3u8 => (OP_DCP, MODE_IND_X),
        0xC4u8 => (OP_CPY, MODE_ZP),
        0xC5u8 => (OP_CMP, MODE_ZP),
        0xC6u8 => (OP_DEC, MODE_ZP),
        0xC7u8 => (OP_DCP, MODE_ZP),
        0xC8u8 => (OP_INY, MODE_IMP),
        0xC9u8 => (OP_CMP, MODE_IMM),
        0xCAu8 => (OP_DEX, MODE_IMP),
        0xCBu8 => (OP_SBX, MODE_IMM),
        0xCCu8 => (OP_CPY, MODE_ABS),
        0xCDu8 => (OP_CMP, MODE_ABS),
        0xCEu8 => (OP_DEC, MODE_ABS),
        0xCFu8 => (OP_DCP, MODE_ABS),
        0xD0u8 => (OP_BNE, MODE_REL),
        0xD1u8 => (OP_CMP, MODE_IND_Y),
        0xD2u8 => (OP_JAM, MODE_REL),
        0xD3u8 => (OP_DCP, MODE_IND_Y),
        0xD4u8 => (OP_NOP, MODE_ZP_X),
        0xD5u8 => (OP_CMP, MODE_ZP_X),
        0xD6u8 => (OP_DEC, MODE_ZP_X),
        0xD7u8 => (OP_DCP, MODE_ZP_X),
        0xD8u8 => (OP_CLD, MODE_IMP),
        0xD9u8 => (OP_CMP, MODE_ABS_Y),
        0xDAu8 => (OP_NOP, MODE_IMP),
        0xDBu8 => (OP_DCP, MODE_ABS_Y),
        0xDCu8 => (OP_NOP, MODE_ABS_X),
        0xDDu8 => (OP_CMP, MODE_ABS_X),
        0xDEu8 => (OP_DEC, MODE_ABS_X),
        0xDFu8 => (OP_DCP, MODE_ABS_X),
        0xE0u8 => (OP_CPX, MODE_IMM),
        0xE1u8 => (OP_SBC, MODE_IND_X),
        0xE2u8 => (OP_NOP, MODE_IMM),
        0xE3u8 => (OP_ISC, MODE_IND_X),
        0xE4u8 => (OP_CPX, MODE_ZP),
        0xE5u8 => (OP_SBC, MODE_ZP),
        0xE6u8 => (OP_INC, MODE_ZP),
        0xE7u8 => (OP_ISC, MODE_ZP),
        0xE8u8 => (OP_INX, MODE_IMP),
        0xE9u8 => (OP_SBC, MODE_IMM),
        0xEAu8 => (OP_NOP, MODE_IMP),
        0xEBu8 => (OP_SBC, MODE_IMM),
        0xECu8 => (OP_CPX, MODE_ABS),
        0xEDu8 => (OP_SBC, MODE_ABS),
        0xEEu8 => (OP_INC, MODE_ABS),
        0xEFu8 => (OP_ISC, MODE_ABS),
        0xF0u8 => (OP_BEQ, MODE_REL),
        0xF1u8 => (OP_SBC, MODE_IND_Y),
        0xF2u8 => (OP_JAM, MODE_REL),
        0xF3u8 => (OP_ISC, MODE_IND_Y),
        0xF4u8 => (OP_NOP, MODE_ZP_X),
        0xF5u8 => (OP_SBC, MODE_ZP_X),
        0xF6u8 => (OP_INC, MODE_ZP_X),
        0xF7u8 => (OP_ISC, MODE_ZP_X),
        0xF8u8 => (OP_SED, MODE_IMP),
        0xF9u8 => (OP_SBC, MODE_ABS_Y),
        0xFAu8 => (OP_NOP, MODE_IMP),
        0xFBu8 => (OP_ISC, MODE_ABS_Y),
        0xFCu8 => (OP_NOP, MODE_ABS_X),
        0xFDu8 => (OP_SBC, MODE_ABS_X),
        0xFEu8 => (OP_INC, MODE_ABS_X),
        _ => (OP_ISC, MODE_ABS_X),
    }
}

/// Decode one opcode byte into its operation and addressing mode.
pub fn lookup(opcode: u8) -> (r: Instruction)
    ensures
        r.operate == spec_decode(opcode).0,
        r.addrmode == spec_decode(opcode).1,
{
    match opcode {
        0x00 => Instruction { operate: OP_BRK, addrmode: MODE_IMP },
        0x01 => Instruction { operate: OP_ORA, addrmode: MODE_IND_X },
        0x02 => Instruction { operate: OP_JAM, addrmode: MODE_IMP },
        0x03 => Instruction { operate: OP_SLO, addrmode: MODE_IND_X },
        0x04 => Instruction { operate: OP_NOP, addrmode: MODE_ZP },
        0x05 => Instruction { operate: OP_ORA, addrmode: MODE_ZP },
        0x06 => Instruction { operate: OP_ASL, addrmode: MODE_ZP },
        0x07 => Instruction { operate: OP_SLO, addrmode: MODE_ZP },
        0x08 => Instruction { operate: OP_PHP, addrmode: MODE_IMP },
        0x09 => Instruction { operate: OP_ORA, addrmode: MODE_IMM },
        0x0A => Instruction { operate: OP_ASL, addrmode: MODE_ACC },
        0x0B => Instruction { operate: OP_ANC, addrmode: MODE_IMM },
        0x0C => Instruction { operate: OP_NOP, addrmode: MODE_ABS },
        0x0D => Instruction { operate: OP_ORA, addrmode: MODE_ABS },
        0x0E => Instruction { operate: OP_ASL, addrmode: MODE_ABS },
        0x0F => Instruction { operate: OP_SLO, addrmode: MODE_ABS },
        0x10 => Instruction { operate: OP_BPL, addrmode: MODE_REL },
        0x11 => Instruction { operate: OP_ORA, addrmode: MODE_IND_Y },
        0x12 => Instruction { operate: OP_JAM, addrmode: MODE_REL },
        0x13 => Instruction { operate: OP_SLO, addrmode: MODE_IND_Y },
        0x14 => Instruction { operate: OP_NOP, addrmode: MODE_ZP_X },
        0x15 => Instruction { operate: OP_ORA, addrmode: MODE_ZP_X },
        0x16 => Instruction { operate: OP_ASL, addrmode: MODE_ZP_X },
        0x17 => Instruction { operate: OP_SLO, addrmode: MODE_ZP_X },
        0x18 => Instruction { operate: OP_CLC, addrmode: MODE_IMP },
        0x19 => Instruction { operate: OP_ORA, addrmode: MODE_ABS_Y },
        0x1A => Instruction { operate: OP_NOP, addrmode: MODE_IMP },
        0x1B => Instruction { operate: OP_SLO, addrmode: MODE_ABS_Y },
        0x1C => Instruction { operate: OP_NOP, addrmode: MODE_ABS_X },
        0x1D => Instruction { operate: OP_ORA, addrmode: MODE_ABS_X },
        0x1E => Instruction { operate: OP_ASL, addrmode: MODE_ABS_X },
        0x1F => Instruction { operate: OP_SLO, addrmode: MODE_ABS_X },
        0x20 => Instruction { operate: OP_JSR, addrmode: MODE_ABS },
        0x21 => Instruction { operate: OP_AND, addrmode: MODE_IND_X },
        0x22 => Instruction { operate: OP_JAM, addrmode: MODE_IMP },
        0x23 => Instruction { operate: OP_RLA, addrmode: MODE_IND_X },
        0x24 => Instruction { operate: OP_BIT, addrmode: MODE_ZP },
        0x25 => Instruction { operate: OP_AND, addrmode: MODE_ZP },
        0x26 => Instruction { operate: OP_ROL, addrmode: MODE_ZP },
        0x27 => Instruction { operate: OP_RLA, addrmode: MODE_ZP },
        0x28 => Instruction { operate: OP_PLP, addrmode: MODE_IMP },
        0x29 => Instruction { operate: OP_AND, addrmode: MODE_IMM },
        0x2A => Instruction { operate: OP_ROL, addrmode: MODE_ACC },
        0x2B => Instruction { operate: OP_ANC, addrmode: MODE_IMM },
        0x2C => Instruction { operate: OP_BIT, addrmode: MODE_ABS },
        0x2D => Instruction { operate: OP_AND, addrmode: MODE_ABS },
        0x2E => Instruction { operate: OP_ROL, addrmode: MODE_ABS },
        0x2F => Instruction { operate: OP_RLA, addrmode: MODE_ABS },
        0x30 => Instruction { operate: OP_BMI, addrmode: MODE_REL },
        0x31 => Instruction { operate: OP_AND, addrmode: MODE_IND_Y },
        0x32 => Instruction { operate: OP_JAM, addrmode: MODE_REL },
        0x33 => Instruction { operate: OP_RLA, addrmode: MODE_IND_Y },
        0x34 => Instruction { operate: OP_NOP, addrmode: MODE_ZP_X },
        0x35 => Instruction { operate: OP_AND, addrmode: MODE_ZP_X },
        0x36 => Instruction { operate: OP_ROL, addrmode: MODE_ZP_X },
        0x37 => Instruction { operate: OP_RLA, addrmode: MODE_ZP_X },
        0x38 => Instruction { operate: OP_SEC, addrmode: MODE_IMP },
        0x39 => Instruction { operate: OP_AND, addrmode: MODE_ABS_Y },
        0x3A => Instruction { operate: OP_NOP, addrmode: MODE_IMP },
        0x3B => Instruction { operate: OP_RLA, addrmode: MODE_ABS_Y },
        0x3C => Instruction { operate: OP_NOP, addrmode: MODE_ABS_X },
        0x3D => Instruction { operate: OP_AND, addrmode: MODE_ABS_X },
        0x3E => Instruction { operate: OP_ROL, addrmode: MODE_ABS_X },
        0x3F => Instruction { operate: OP_RLA, addrmode: MODE_ABS_X },
        0x40 => Instruction { operate: OP_RTI, addrmode: MODE_IMP },
        0x41 => Instruction { operate: OP_EOR, addrmode: MODE_IND_X },
        0x42 => Instruction { operate: OP_JAM, addrmode: MODE_IMP },
        0x43 => Instruction { operate: OP_SRE, addrmode: MODE_IND_X },
        0x44 => Instruction { operate: OP_NOP, addrmode: MODE_ZP },
        0x45 => Instruction { operate: OP_EOR, addrmode: MODE_ZP },
        0x46 => Instruction { operate: OP_LSR, addrmode: MODE_ZP },
        0x47 => Instruction { operate: OP_SRE, addrmode: MODE_ZP },
        0x48 => Instruction { operate: OP_PHA, addrmode: MODE_IMP },
        0x49 => Instruction { operate: OP_EOR, addrmode: MODE_IMM },
        0x4A => Instruction { operate: OP_LSR, addrmode: MODE_ACC },
        0x4B => Instruction { operate: OP_ALR, addrmode: MODE_IMM },
        0x4C => Instruction { operate: OP_JMP, addrmode: MODE_ABS },
        0x4D => Instruction { operate: OP_EOR, addrmode: MODE_ABS },
        0x4E => Instruction { operate: OP_LSR, addrmode: MODE_ABS },
        0x4F => Instruction { operate: OP_SRE, addrmode: MODE_ABS },
        0x50 => Instruction { operate: OP_BVC, addrmode: MODE_REL },
        0x51 => Instruction { operate: OP_EOR, addrmode: MODE_IND_Y },
        0x52 => Instruction { operate: OP_JAM, addrmode: MODE_REL },
        0x53 => Instruction { operate: OP_SRE, addrmode: MODE_IND_Y },
        0x54 => Instruction { operate: OP_NOP, addrmode: MODE_ZP_X },
        0x55 => Instruction { operate: OP_EOR, addrmode: MODE_ZP_X },
        0x56 => Instruction { operate: OP_LSR, addrmode: MODE_ZP_X },
        0x57 => Instruction { operate: OP_SRE, addrmode: MODE_ZP_X },
        0x58 => Instruction { operate: OP_CLI, addrmode: MODE_IMP },
        0x59 => Instruction { operate: OP_EOR, addrmode: MODE_ABS_Y },
        0x5A => Instruction { operate: OP_NOP, addrmode: MODE_IMP },
        0x5B => Instruction { operate: OP_SRE, addrmode: MODE_ABS_Y },
        0x5C => Instruction { operate: OP_NOP, addrmode: MODE_ABS_X },
        0x5D => Instruction { operate: OP_EOR, addrmode: MODE_ABS_X },
        0x5E => Instruction { operate: OP_LSR, addrmode: MODE_ABS_X },
        0x5F => Instruction { operate: OP_SRE, addrmode: MODE_ABS_X },
        0x60 => Instruction { operate: OP_RTS, addrmode: MODE_IMP },
        0x61 => Instruction { operate: OP_ADC, addrmode: MODE_IND_X },
        0x62 => Instruction { operate: OP_JAM, addrmode: MODE_IMP },
        0x63 => Instruction { operate: OP_RRA, addrmode: MODE_IND_X },
        0x64 => Instruction { operate: OP_NOP, addrmode: MODE_ZP },
        0x65 => Instruction { operate: OP_ADC, addrmode: MODE_ZP },
        0x66 => Instruction { operate: OP_ROR, addrmode: MODE_ZP },
        0x67 => Instruction { operate: OP_RRA, addrmode: MODE_ZP },
        0x68 => Instruction { operate: OP_PLA, addrmode: MODE_IMP },
        0x69 => Instruction { operate: OP_ADC, addrmode: MODE_IMM },
        0x6A => Instruction { operate: OP_ROR, addrmode: MODE_ACC },
        0x6B => Instruction { operate: OP_ARR, addrmode: MODE_IMM },
        0x6C => Instruction { operate: OP_JMP, addrmode: MODE_IND },
        0x6D => Instruction { operate: OP_ADC, addrmode: MODE_ABS },
        0x6E => Instruction { operate: OP_ROR, addrmode: MODE_ABS },
        0x6F => Instruction { operate: OP_RRA, addrmode: MODE_ABS },
        0x70 => Instruction { operate: OP_BVS, addrmode: MODE_REL },
        0x71 => Instruction { operate: OP_ADC, addrmode: MODE_IND_Y },
        0x72 => Instruction { operate: OP_JAM, addrmode: MODE_REL },
        0x73 => Instruction { operate: OP_RRA, addrmode: MODE_IND_Y },
        0x74 => Instruction { operate: OP_NOP, addrmode: MODE_ZP_X },
        0x75 => Instruction { operate: OP_ADC, addrmode: MODE_ZP_X },
        0x76 => Instruction { operate: OP_ROR, addrmode: MODE_ZP_X },
        0x77 => Instruction { operate: OP_RRA, addrmode: MODE_ZP_X },
        0x78 => Instruction { operate: OP_SEI, addrmode: MODE_IMP },
        0x79 => Instruction { operate: OP_ADC, addrmode: MODE_ABS_Y },
        0x7A => Instruction { operate: OP_NOP, addrmode: MODE_IMP },
        0x7B => Instruction { operate: OP_RRA, addrmode: MODE_ABS_Y },
        0x7C => Instruction { operate: OP_NOP, addrmode: MODE_ABS_X },
        0x7D => Instruction { operate: OP_ADC, addrmode: MODE_ABS_X },
        0x7E => Instruction { operate: OP_ROR, addrmode: MODE_ABS_X },
        0x7F => Instruction { operate: OP_RRA, addrmode: MODE_ABS_X },
        0x80 => Instruction { operate: OP_NOP, addrmode: MODE_IMM },
        0x81 => Instruction { operate: OP_STA, addrmode: MODE_IND_X },
        0x82 => Instruction { operate: OP_NOP, addrmode: MODE_IMM },
        0x83 => Instruction { operate: OP_SAX, addrmode: MODE_IND_X },
        0x84 => Instruction { operate: OP_STY, addrmode: MODE_ZP },
        0x85 => Instruction { operate: OP_STA, addrmode: MODE_ZP },
        0x86 => Instruction { operate: OP_STX, addrmode: MODE_ZP },
        0x87 => Instruction { operate: OP_SAX, addrmode: MODE_ZP },
        0x88 => Instruction { operate: OP_DEY, addrmode: MODE_IMP },
        0x89 => Instruction { operate: OP_NOP, addrmode: MODE_IMM },
        0x8A => Instruction { operate: OP_TXA, addrmode: MODE_IMP },
        0x8B => Instruction { operate: OP_ANE, addrmode: MODE_IMM },
        0x8C => Instruction { operate: OP_STY, addrmode: MODE_ABS },
        0x8D => Instruction { operate: OP_STA, addrmode: MODE_ABS },
        0x8E => Instruction { operate: OP_STX, addrmode: MODE_ABS },
        0x8F => Instruction { operate: OP_SAX, addrmode: MODE_ABS },
        0x90 => Instruction { operate: OP_BCC, addrmode: MODE_REL },
        0x91 => Instruction { operate: OP_STA, addrmode: MODE_IND_Y },
        0x92 => Instruction { operate: OP_JAM, addrmode: MODE_REL },
        0x93 => Instruction { operate: OP_SHA, addrmode: MODE_IND_Y },
        0x94 => Instruction { operate: OP_STY, addrmode: MODE_ZP_X },
        0x95 => Instruction { operate: OP_STA, addrmode: MODE_ZP_X },
        0x96 => Instruction { operate: OP_STX, addrmode: MODE_ZP_Y },
        0x97 => Instruction { operate: OP_SAX, addrmode: MODE_ZP_Y },
        0x98 => Instruction { operate: OP_TYA, addrmode: MODE_IMP },
        0x99 => Instruction { operate: OP_STA, addrmode: MODE_ABS_Y },
        0x9A => Instruction { operate: OP_TXS, addrmode: MODE_IMP },
        0x9B => Instruction { operate: OP_TAS, addrmode: MODE_ABS_Y },
        0x9C => Instruction { operate: OP_SHY, addrmode: MODE_ABS_X },
        0x9D => Instruction { operate: OP_STA, addrmode: MODE_ABS_X },
        0x9E => Instruction { operate: OP_SHX, addrmode: MODE_ABS_Y },
        0x9F => Instruction { operate: OP_SHA, addrmode: MODE_ABS_Y },
        0xA0 => Instruction { operate: OP_LDY, addrmode: MODE_IMM },
        0xA1 => Instruction { operate: OP_LDA, addrmode: MODE_IND_X },
        0xA2 => Instruction { operate: OP_LDX, addrmode: MODE_IMM },
        0xA3 => Instruction { operate: OP_LAX, addrmode: MODE_IND_X },
        0xA4 => Instruction { operate: OP_LDY, addrmode: MODE_ZP },
        0xA5 => Instruction { operate: OP_LDA, addrmode: MODE_ZP },
        0xA6 => Instruction { operate: OP_LDX, addrmode: MODE_ZP },
        0xA7 => Instruction { operate: OP_LAX, addrmode: MODE_ZP },
        0xA8 => Instruction { operate: OP_TAY, addrmode: MODE_IMP },
        0xA9 => Instruction { operate: OP_LDA, addrmode: MODE_IMM },
        0xAA => Instruction { operate: OP_TAX, addrmode: MODE_IMP },
        0xAB => Instruction { operate: OP_LAX, addrmode: MODE_IMM },
        0xAC => Instruction { operate: OP_LDY, addrmode: MODE_ABS },
        0xAD => Instruction { operate: OP_LDA, addrmode: MODE_ABS },
        0xAE => Instruction { operate: OP_LDX, addrmode: MODE_ABS },
        0xAF => Instruction { operate: OP_LAX, addrmode: MODE_ABS },
        0xB0 => Instruction { operate: OP_BCS, addrmode: MODE_REL },
        0xB1 => Instruction { operate: OP_LDA, addrmode: MODE_IND_Y },
        0xB2 => Instruction { operate: OP_JAM, addrmode: MODE_REL },
        0xB3 => Instruction { operate: OP_LAX, addrmode: MODE_IND_Y },
        0xB4 => Instruction { operate: OP_LDY, addrmode: MODE_ZP_X },
        0xB5 => Instruction { operate: OP_LDA, addrmode: MODE_ZP_X },
        0xB6 => Instruction { operate: OP_LDX, addrmode: MODE_ZP_Y },
        0xB7 => Instruction { operate: OP_LAX, addrmode: MODE_ZP_Y },
        0xB8 => Instruction { operate: OP_CLV, addrmode: MODE_IMP },
        0xB9 => Instruction { operate: OP_LDA, addrmode: MODE_ABS_Y },
        0xBA => Instruction { operate: OP_TSX, addrmode: MODE_IMP },
        0xBB => Instruction { operate: OP_LAS, addrmode: MODE_ABS_Y },
        0xBC => Instruction { operate: OP_LDY, addrmode: MODE_ABS_X },
        0xBD => Instruction { operate: OP_LDA, addrmode: MODE_ABS_X },
        0xBE => Instruction { operate: OP_LDX, addrmode: MODE_ABS_Y },
        0xBF => Instruction { operate: OP_LAX, addrmode: MODE_ABS_Y },
        0xC0 => Instruction { operate: OP_CPY, addrmode: MODE_IMM },
        0xC1 => Instruction { operate: OP_CMP, addrmode: MODE_IND_X },
        0xC2 => Instruction { operate: OP_NOP, addrmode: MODE_IMM },
        0xC3 => Instruction { operate: OP_DCP, addrmode: MODE_IND_X },
        0xC4 => Instruction { operate: OP_CPY, addrmode: MODE_ZP },
        0xC5 => Instruction { operate: OP_CMP, addrmode: MODE_ZP },
        0xC6 => Instruction { operate: OP_DEC, addrmode: MODE_ZP },
        0xC7 => Instruction { operate: OP_DCP, addrmode: MODE_ZP },
        0xC8 => Instruction { operate: OP_INY, addrmode: MODE_IMP },
        0xC9 => Instruction { operate: OP_CMP, addrmode: MODE_IMM },
        0xCA => Instruction { operate: OP_DEX, addrmode: MODE_IMP },
        0xCB => Instruction { operate: OP_SBX, addrmode: MODE_IMM },
        0xCC => Instruction { operate: OP_CPY, addrmode: MODE_ABS },
        0xCD => Instruction { operate: OP_CMP, addrmode: MODE_ABS },
        0xCE => Instruction { operate: OP_DEC, addrmode: MODE_ABS },
        0xCF => Instruction { operate: OP_DCP, addrmode: MODE_ABS },
        0xD0 => Instruction { operate: OP_BNE, addrmode: MODE_REL },
        0xD1 => Instruction { operate: OP_CMP, addrmode: MODE_IND_Y },
        0xD2 => Instruction { operate: OP_JAM, addrmode: MODE_REL },
        0xD3 => Instruction { operate: OP_DCP, addrmode: MODE_IND_Y },
        0xD4 => Instruction { operate: OP_NOP, addrmode: MODE_ZP_X },
        0xD5 => Instruction { operate: OP_CMP, addrmode: MODE_ZP_X },
        0xD6 => Instruction { operate: OP_DEC, addrmode: MODE_ZP_X },
        0xD7 => Instruction { operate: OP_DCP, addrmode: MODE_ZP_X },
        0xD8 => Instruction { operate: OP_CLD, addrmode: MODE_IMP },
        0xD9 => Instruction { operate: OP_CMP, addrmode: MODE_ABS_Y },
        0xDA => Instruction { operate: OP_NOP, addrmode: MODE_IMP },
        0xDB => Instruction { operate: OP_DCP, addrmode: MODE_ABS_Y },
        0xDC => Instruction { operate: OP_NOP, addrmode: MODE_ABS_X },
        0xDD => Instruction { operate: OP_CMP, addrmode: MODE_ABS_X },
        0xDE => Instruction { operate: OP_DEC, addrmode: MODE_ABS_X },
        0xDF => Instruction { operate: OP_DCP, addrmode: MODE_ABS_X },
        0xE0 => Instruction { operate: OP_CPX, addrmode: MODE_IMM },
        0xE1 => Instruction { operate: OP_SBC, addrmode: MODE_IND_X },
        0xE2 => Instruction { operate: OP_NOP, addrmode: MODE_IMM },
        0xE3 => Instruction { operate: OP_ISC, addrmode: MODE_IND_X },
        0xE4 => Instruction { operate: OP_CPX, addrmode: MODE_ZP },
        0xE5 => Instruction { operate: OP_SBC, addrmode: MODE_ZP },
        0xE6 => Instruction { operate: OP_INC, addrmode: MODE_ZP },
        0xE7 => Instruction { operate: OP_ISC, addrmode: MODE_ZP },
        0xE8 => Instruction { operate: OP_INX, addrmode: MODE_IMP },
        0xE9 => Instruction { operate: OP_SBC, addrmode: MODE_IMM },
        0xEA => Instruction { operate: OP_NOP, addrmode: MODE_IMP },
        0xEB => Instruction { operate: OP_SBC, addrmode: MODE_IMM },
        0xEC => Instruction { operate: OP_CPX, addrmode: MODE_ABS },
        0xED => Instruction { operate: OP_SBC, addrmode: MODE_ABS },
        0xEE => Instruction { operate: OP_INC, addrmode: MODE_ABS },
        0xEF => Instruction { operate: OP_ISC, addrmode: MODE_ABS },
        0xF0 => Instruction { operate: OP_BEQ, addrmode: MODE_REL },
        0xF1 => Instruction { operate: OP_SBC, addrmode: MODE_IND_Y },
        0xF2 => Instruction { operate: OP_JAM, addrmode: MODE_REL },
        0xF3 => Instruction { operate: OP_ISC, addrmode: MODE_IND_Y },
        0xF4 => Instruction { operate: OP_NOP, addrmode: MODE_ZP_X },
        0xF5 => Instruction { operate: OP_SBC, addrmode: MODE_ZP_X },
        0xF6 => Instruction { operate: OP_INC, addrmode: MODE_ZP_X },
        0xF7 => Instruction { operate: OP_ISC, addrmode: MODE_ZP_X },
        0xF8 => Instruction { operate: OP_SED, addrmode: MODE_IMP },
        0xF9 => Instruction { operate: OP_SBC, addrmode: MODE_ABS_Y },
        0xFA => Instruction { operate: OP_NOP, addrmode: MODE_IMP },
        0xFB => Instruction { operate: OP_ISC, addrmode: MODE_ABS_Y },
        0xFC => Instruction { operate: OP_NOP, addrmode: MODE_ABS_X },
        0xFD => Instruction { operate: OP_SBC, addrmode: MODE_ABS_X },
        0xFE => Instruction { operate: OP_INC, addrmode: MODE_ABS_X },
        _ => Instruction { operate: OP_ISC, addrmode: MODE_ABS_X },
    }
}


/// The three-letter mnemonic for each operation id.
pub open spec fn spec_opcode_name(op: u8) -> Seq<char> {
    match op {
        0x00u8 => "NOP"@,
        0x01u8 => "LDA"@,
        0x02u8 => "LDX"@,
        0x03u8 => "LDY"@,
        0x04u8 => "ADC"@,
        0x05u8 => "AND"@,
        0x06u8 => "ASL"@,
        0x07u8 => "BCC"@,
        0x08u8 => "BCS"@,
        0x09u8 => "BEQ"@,
        0x0Au8 => "BIT"@,
        0x0Bu8 => "BMI"@,
        0x0Cu8 => "BNE"@,
        0x0Du8 => "BPL"@,
        0x0Eu8 => "BRK"@,
        0x0Fu8 => "BVC"@,
        0x10u8 => "BVS"@,
        0x11u8 => "CLC"@,
        0x12u8 => "CLD"@,
        0x13u8 => "CLI"@,
        0x14u8 => "CLV"@,
        0x15u8 => "CMP"@,
        0x16u8 => "CPX"@,
        0x17u8 => "CPY"@,
        0x18u8 => "DEC"@,
        0x19u8 => "DEX"@,
        0x1Au8 => "DEY"@,
        0x1Bu8 => "EOR"@,
        0x1Cu8 => "INC"@,
        0x1Du8 => "INX"@,
        0x1Eu8 => "INY"@,
        0x1Fu8 => "JMP"@,
        0x20u8 => "JSR"@,
        0x21u8 => "LSR"@,
        0x22u8 => "ORA"@,
        0x23u8 => "PHA"@,
        0x24u8 => "PHP"@,
        0x25u8 => "PLA"@,
        0x26u8 => "PLP"@,
        0x27u8 => "ROL"@,
        0x28u8 => "ROR"@,
        0x29u8 => "RTI"@,
        0x2Au8 => "RTS"@,
        0x2Bu8 => "SBC"@,
        0x2Cu8 => "SEC"@,
        0x2Du8 => "SED"@,
        0x2Eu8 => "SEI"@,
        0x2Fu8 => "STA"@,
        0x30u8 => "STX"@,
        0x31u8 => "STY"@,
        0x32u8 => "TAX"@,
        0x33u8 => "TAY"@,
        0x34u8 => "TSX"@,
        0x35u8 => "TXA"@,
        0x36u8 => "TXS"@,
        0x37u8 => "TYA"@,
        _ => "XXX"@,
    }
}

/// The printable mnemonic of an operation id (not an opcode byte).
pub fn opcode_to_str(op: u8) -> (r: &'static str)
    ensures
        r@ == spec_opcode_name(op),
{
    match op {
        0x00 => {
            proof {
                reveal_strlit("NOP");
            }
            "NOP"
        },
        0x01 => {
            proof {
                reveal_strlit("LDA");
            }
            "LDA"
        },
        0x02 => {
            proof {
                reveal_strlit("LDX");
            }
            "LDX"
        },
        0x03 => {
            proof {
                reveal_strlit("LDY");
            }
            "LDY"
        },
        0x04 => {
            proof {
                reveal_strlit("ADC");
            }
            "ADC"
        },
        0x05 => {
            proof {
                reveal_strlit("AND");
            }
            "AND"
        },
        0x06 => {
            proof {
                reveal_strlit("ASL");
            }
            "ASL"
        },
        0x07 => {
            proof {
                reveal_strlit("BCC");
            }
            "BCC"
        },
        0x08 => {
            proof {
                reveal_strlit("BCS");
            }
            "BCS"
        },
        0x09 => {
            proof {
                reveal_strlit("BEQ");
            }
            "BEQ"
        },
        0x0A => {
            proof {
                reveal_strlit("BIT");
            }
            "BIT"
        },
        0x0B => {
            proof {
                reveal_strlit("BMI");
            }
            "BMI"
        },
        0x0C => {
            proof {
                reveal_strlit("BNE");
            }
            "BNE"
        },
        0x0D => {
            proof {
                reveal_strlit("BPL");
            }
            "BPL"
        },
        0x0E => {
            proof {
                reveal_strlit("BRK");
            }
            "BRK"
        },
        0x0F => {
            proof {
                reveal_strlit("BVC");
            }
            "BVC"
        },
        0x10 => {
            proof {
                reveal_strlit("BVS");
            }
            "BVS"
        },
        0x11 => {
            proof {
                reveal_strlit("CLC");
            }
            "CLC"
        },
        0x12 => {
            proof {
                reveal_strlit("CLD");
            }
            "CLD"
        },
        0x13 => {
            proof {
                reveal_strlit("CLI");
            }
            "CLI"
        },
        0x14 => {
            proof {
                reveal_strlit("CLV");
            }
            "CLV"
        },
        0x15 => {
            proof {
                reveal_strlit("CMP");
            }
            "CMP"
        },
        0x16 => {
            proof {
                reveal_strlit("CPX");
            }
            "CPX"
        },
        0x17 => {
            proof {
                reveal_strlit("CPY");
            }
            "CPY"
        },
        0x18 => {
            proof {
                reveal_strlit("DEC");
            }
            "DEC"
        },
        0x19 => {
            proof {
                reveal_strlit("DEX");
            }
            "DEX"
        },
        0x1A => {
            proof {
                reveal_strlit("DEY");
            }
            "DEY"
        },
        0x1B => {
            proof {
                reveal_strlit("EOR");
            }
            "EOR"
        },
        0x1C => {
            proof {
                reveal_strlit("INC");
            }
            "INC"
        },
        0x1D => {
            proof {
                reveal_strlit("INX");
            }
            "INX"
        },
        0x1E => {
            proof {
                reveal_strlit("INY");
            }
            "INY"
        },
        0x1F => {
            proof {
                reveal_strlit("JMP");
            }
            "JMP"
        },
        0x20 => {
            proof {
                reveal_strlit("JSR");
            }
            "JSR"
        },
        0x21 => {
            proof {
                reveal_strlit("LSR");
            }
            "LSR"
        },
        0x22 => {
            proof {
                reveal_strlit("ORA");
            }
            "ORA"
        },
        0x23 => {
            proof {
                reveal_strlit("PHA");
            }
            "PHA"
        },
        0x24 => {
            proof {
                reveal_strlit("PHP");
            }
            "PHP"
        },
        0x25 => {
            proof {
                reveal_strlit("PLA");
            }
            "PLA"
        },
        0x26 => {
            proof {
                reveal_strlit("PLP");
            }
            "PLP"
        },
        0x27 => {
            proof {
                reveal_strlit("ROL");
            }
            "ROL"
        },
        0x28 => {
            proof {
                reveal_strlit("ROR");
            }
            "ROR"
        },
        0x29 => {
            proof {
                reveal_strlit("RTI");
            }
            "RTI"
        },
        0x2A => {
            proof {
                reveal_strlit("RTS");
            }
            "RTS"
        },
        0x2B => {
            proof {
                reveal_strlit("SBC");
            }
            "SBC"
        },
        0x2C => {
            proof {
                reveal_strlit("SEC");
            }
            "SEC"
        },
        0x2D => {
            proof {
                reveal_strlit("SED");
            }
            "SED"
        },
        0x2E => {
            proof {
                reveal_strlit("SEI");
            }
            "SEI"
        },
        0x2F => {
            proof {
                reveal_strlit("STA");
            }
            "STA"
        },
        0x30 => {
            proof {
                reveal_strlit("STX");
            }
            "STX"
        },
        0x31 => {
            proof {
                reveal_strlit("STY");
            }
            "STY"
        },
        0x32 => {
            proof {
                reveal_strlit("TAX");
            }
            "TAX"
        },
        0x33 => {
            proof {
                reveal_strlit("TAY");
            }
            "TAY"
        },
        0x34 => {
            proof {
                reveal_strlit("TSX");
            }
            "TSX"
        },
        0x35 => {
            proof {
                reveal_strlit("TXA");
            }
            "TXA"
        },
        0x36 => {
            proof {
                reveal_strlit("TXS");
            }
            "TXS"
        },
        0x37 => {
            proof {
                reveal_strlit("TYA");
            }
            "TYA"
        },
        _ => {
            proof {
                reveal_strlit("XXX");
            }
            "XXX"
        },
    }
}

} // verus!
