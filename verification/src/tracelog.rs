//! The golden-trace line: pure byte formatting of the per-instruction
//! trace fields at their fixed column offsets, and the instruction
//! stringifier.

use vstd::prelude::*;

verus! {

use crate::cpu::instructions::{opcode_to_str, spec_opcode_name};

/// One traced instruction: the operation id of the instruction that
/// was fetched.
pub struct CpuLog {
    pub opcode: u8,
}

/// The mnemonic of a traced instruction followed by the address marker.
pub fn stringify_ins_from_log(log: &CpuLog) -> (r: String)
    ensures
        r@ == spec_opcode_name(log.opcode) + " $"@,
{
    let ins_name = opcode_to_str(log.opcode);
    let addr_name = " $";
    let mut line = String::from_str(ins_name);
    line.append(addr_name);
    line
}

/// The trace digit for a hex nibble: '0'..'9' then 'A'..'F'.
pub open spec fn spec_hex_digit(n: u8) -> u8 {
    if n < 10 {
        (0x30 + n) as u8
    } else {
        (0x37 + n) as u8
    }
}

fn hex_digit(n: u8) -> (r: u8)
    requires
        n < 16,
    ensures
        r == spec_hex_digit(n),
{
    let a = 0x30u8 + n;
    if a > 0x39 {
        a + 7
    } else {
        a
    }
}

/// The trace character for one decimal position: the digit of the
/// remaining quotient, or a space once the quotient has run out (so
/// the number is right-aligned and space-padded).
pub open spec fn spec_decimal_char(q: int) -> u8 {
    if q > 0 {
        (0x30 + q % 10) as u8
    } else {
        0x20
    }
}

fn decimal_char(q: usize) -> (r: u8)
    ensures
        r == spec_decimal_char(q as int),
{
    if q > 0 {
        0x30u8 + (q % 10) as u8
    } else {
        0x20
    }
}

/// Write `value` as up-to-four right-aligned hex digits at `start`.
pub fn write_hex_to_buffer(value: u16, buffer: &mut Vec<u8>, start: usize, digits: usize)
    requires
        digits <= 4,
        start + digits <= old(buffer)@.len(),
    ensures
        final(buffer)@.len() == old(buffer)@.len(),
        forall|j: int|
            0 <= j < final(buffer)@.len() && !(start <= j < start + digits) ==> final(buffer)@[j] == old(buffer)@[j],
        digits >= 1 ==> final(buffer)@[start + digits - 1] == spec_hex_digit((value % 16) as u8),
        digits >= 2 ==> final(buffer)@[start + digits - 2] == spec_hex_digit(
            ((value / 16) % 16) as u8,
        ),
        digits >= 3 ==> final(buffer)@[start + digits - 3] == spec_hex_digit(
            ((value / 256) % 16) as u8,
        ),
        digits >= 4 ==> final(buffer)@[start + digits - 4] == spec_hex_digit(
            ((value / 4096) % 16) as u8,
        ),
{
    // Reading the length pins the machine bound on `start + digits`.
    let total = buffer.len();
    if digits >= 1 {
        let d = hex_digit((value % 16) as u8);
        buffer[start + (digits - 1)] = d;
    }
    if digits >= 2 {
        let d = hex_digit(((value / 16) % 16) as u8);
        buffer[start + (digits - 2)] = d;
    }
    if digits >= 3 {
        let d = hex_digit(((value / 256) % 16) as u8);
        buffer[start + (digits - 3)] = d;
    }
    if digits >= 4 {
        let d = hex_digit(((value / 4096) % 16) as u8);
        buffer[start + (digits - 4)] = d;
    }
}

/// Write `value` as up-to-five right-aligned, space-padded decimal
/// digits at `start`.
pub fn write_decimal_to_buffer(value: usize, buffer: &mut Vec<u8>, start: usize, digits: usize)
    requires
        digits <= 5,
        start + digits <= old(buffer)@.len(),
    ensures
        final(buffer)@.len() == old(buffer)@.len(),
        forall|j: int|
            0 <= j < final(buffer)@.len() && !(start <= j < start + digits) ==> final(buffer)@[j] == old(buffer)@[j],
        digits >= 1 ==> final(buffer)@[start + digits - 1] == spec_decimal_char(value as int),
        digits >= 2 ==> final(buffer)@[start + digits - 2] == spec_decimal_char(value as int / 10),
        digits >= 3 ==> final(buffer)@[start + digits - 3] == spec_decimal_char(
            value as int / 100,
        ),
        digits >= 4 ==> final(buffer)@[start + digits - 4] == spec_decimal_char(
            value as int / 1000,
        ),
        digits >= 5 ==> final(buffer)@[start + digits - 5] == spec_decimal_char(
            value as int / 10000,
        ),
{
    // Reading the length pins the machine bound on `start + digits`.
    let total = buffer.len();
    if digits >= 1 {
        let d = decimal_char(value);
        buffer[start + (digits - 1)] = d;
    }
    if digits >= 2 {
        let d = decimal_char(value / 10);
        buffer[start + (digits - 2)] = d;
    }
    if digits >= 3 {
        let d = decimal_char(value / 100);
        buffer[start + (digits - 3)] = d;
    }
    if digits >= 4 {
        let d = decimal_char(value / 1000);
        buffer[start + (digits - 4)] = d;
    }
    if digits >= 5 {
        let d = decimal_char(value / 10000);
        buffer[start + (digits - 5)] = d;
    }
}

/// The blank trace-line skeleton: 96 bytes, all spaces but for the
/// field labels and the terminating newline.
fn blank_trace_line() -> (r: Vec<u8>)
    ensures
        r@.len() == 96,
        r@[95] == 0x0A,
        r@[48] == 0x41 && r@[49] == 0x3A,  // "A:"
        r@[53] == 0x58 && r@[54] == 0x3A,  // "X:"
        r@[58] == 0x59 && r@[59] == 0x3A,  // "Y:"
        r@[63] == 0x50 && r@[64] == 0x3A,  // "P:"
        r@[68] == 0x53 && r@[69] == 0x50 && r@[70] == 0x3A,  // "SP:"
        r@[74] == 0x50 && r@[75] == 0x50 && r@[76] == 0x55 && r@[77] == 0x3A,  // "PPU:"
        r@[81] == 0x2C,  // ","
        r@[86] == 0x43 && r@[87] == 0x59 && r@[88] == 0x43 && r@[89] == 0x3A,  // "CYC:"
{
    let mut line: Vec<u8> = Vec::new();
    while line.len() < 96
        invariant
            line@.len() <= 96,
            forall|j: int| 0 <= j < line@.len() ==> line@[j] == 0x20,
        decreases 96 - line@.len(),
    {
        line.push(0x20);
    }
    line[95] = 0x0A;
    line[48] = 0x41;  // A
    line[49] = 0x3A;
    line[53] = 0x58;  // X
    line[54] = 0x3A;
    line[58] = 0x59;  // Y
    line[59] = 0x3A;
    line[63] = 0x50;  // P
    line[64] = 0x3A;
    line[68] = 0x53;  // S
    line[69] = 0x50;  // P
    line[70] = 0x3A;
    line[74] = 0x50;  // P
    line[75] = 0x50;  // P
    line[76] = 0x55;  // U
    line[77] = 0x3A;
    line[81] = 0x2C;
    line[86] = 0x43;  // C
    line[87] = 0x59;  // Y
    line[88] = 0x43;  // C
    line[89] = 0x3A;
    line
}

/// Fill the register, PPU-position and cycle fields of a trace line
/// (columns 48 and up).
#[verifier::rlimit(100)]
fn format_trace_registers(
    line: &mut Vec<u8>,
    a: u8,
    x: u8,
    y: u8,
    p: u8,
    sp: u8,
    ppu_row: usize,
    ppu_col: usize,
    cyc: usize,
)
    requires
        old(line)@.len() == 96,
    ensures
        final(line)@.len() == 96,
        forall|j: int| 0 <= j < 50 ==> final(line)@[j] == old(line)@[j],
        forall|j: int|
            52 <= j < 96 && j != 55 && j != 56 && j != 60 && j != 61 && j != 65 && j != 66 && j
                != 71 && j != 72 && !(78 <= j <= 80) && !(82 <= j <= 84) && !(90 <= j <= 94)
                ==> final(line)@[j] == old(line)@[j],
        final(line)@[50] == spec_hex_digit((a / 16) as u8),
        final(line)@[51] == spec_hex_digit((a % 16) as u8),
        final(line)@[55] == spec_hex_digit((x / 16) as u8),
        final(line)@[56] == spec_hex_digit((x % 16) as u8),
        final(line)@[60] == spec_hex_digit((y / 16) as u8),
        final(line)@[61] == spec_hex_digit((y % 16) as u8),
        final(line)@[65] == spec_hex_digit((p / 16) as u8),
        final(line)@[66] == spec_hex_digit((p % 16) as u8),
        final(line)@[71] == spec_hex_digit((sp / 16) as u8),
        final(line)@[72] == spec_hex_digit((sp % 16) as u8),
        final(line)@[78] == spec_decimal_char(ppu_row as int / 100),
        final(line)@[79] == spec_decimal_char(ppu_row as int / 10),
        final(line)@[80] == spec_decimal_char(ppu_row as int),
        final(line)@[82] == spec_decimal_char(ppu_col as int / 100),
        final(line)@[83] == spec_decimal_char(ppu_col as int / 10),
        final(line)@[84] == spec_decimal_char(ppu_col as int),
        final(line)@[90] == spec_decimal_char(cyc as int / 10000),
        final(line)@[91] == spec_decimal_char(cyc as int / 1000),
        final(line)@[92] == spec_decimal_char(cyc as int / 100),
        final(line)@[93] == spec_decimal_char(cyc as int / 10),
        final(line)@[94] == spec_decimal_char(cyc as int),
{
    write_hex_to_buffer(a as u16, line, 50, 2);
    write_hex_to_buffer(x as u16, line, 55, 2);
    write_hex_to_buffer(y as u16, line, 60, 2);
    write_hex_to_buffer(p as u16, line, 65, 2);
    write_hex_to_buffer(sp as u16, line, 71, 2);
    write_decimal_to_buffer(ppu_row, line, 78, 3);
    write_decimal_to_buffer(ppu_col, line, 82, 3);
    write_decimal_to_buffer(cyc, line, 90, 5);
}

/// One golden-trace line, newline-terminated: the program counter, the
/// instruction bytes and the register, PPU-position and cycle fields at
/// their fixed column offsets.  The 32-character disassembly column is
/// left blank.
#[verifier::rlimit(100)]
pub fn format_trace_line(
    pc: u16,
    opcode: u8,
    byte1: u8,
    byte2: u8,
    a: u8,
    x: u8,
    y: u8,
    p: u8,
    sp: u8,
    ppu_row: usize,
    ppu_col: usize,
    cyc: usize,
) -> (r: Vec<u8>)
    ensures
        r@.len() == 96,
        r@[95] == 0x0A,
        r@[0] == spec_hex_digit(((pc / 4096) % 16) as u8),
        r@[1] == spec_hex_digit(((pc / 256) % 16) as u8),
        r@[2] == spec_hex_digit(((pc / 16) % 16) as u8),
        r@[3] == spec_hex_digit((pc % 16) as u8),
        r@[6] == spec_hex_digit((opcode / 16) as u8),
        r@[7] == spec_hex_digit((opcode % 16) as u8),
        r@[9] == spec_hex_digit((byte1 / 16) as u8),
        r@[10] == spec_hex_digit((byte1 % 16) as u8),
        r@[12] == spec_hex_digit((byte2 / 16) as u8),
        r@[13] == spec_hex_digit((byte2 % 16) as u8),
        r@[50] == spec_hex_digit((a / 16) as u8),
        r@[51] == spec_hex_digit((a % 16) as u8),
        r@[55] == spec_hex_digit((x / 16) as u8),
        r@[56] == spec_hex_digit((x % 16) as u8),
        r@[60] == spec_hex_digit((y / 16) as u8),
        r@[61] == spec_hex_digit((y % 16) as u8),
        r@[65] == spec_hex_digit((p / 16) as u8),
        r@[66] == spec_hex_digit((p % 16) as u8),
        r@[71] == spec_hex_digit((sp / 16) as u8),
        r@[72] == spec_hex_digit((sp % 16) as u8),
        r@[78] == spec_decimal_char(ppu_row as int / 100),
        r@[79] == spec_decimal_char(ppu_row as int / 10),
        r@[80] == spec_decimal_char(ppu_row as int),
        r@[82] == spec_decimal_char(ppu_col as int / 100),
        r@[83] == spec_decimal_char(ppu_col as int / 10),
        r@[84] == spec_decimal_char(ppu_col as int),
        r@[90] == spec_decimal_char(cyc as int / 10000),
        r@[91] == spec_decimal_char(cyc as int / 1000),
        r@[92] == spec_decimal_char(cyc as int / 100),
        r@[93] == spec_decimal_char(cyc as int / 10),
        r@[94] == spec_decimal_char(cyc as int),
        // The field labels.
        r@[48] == 0x41 && r@[49] == 0x3A,  // "A:"
        r@[53] == 0x58 && r@[54] == 0x3A,  // "X:"
        r@[58] == 0x59 && r@[59] == 0x3A,  // "Y:"
        r@[63] == 0x50 && r@[64] == 0x3A,  // "P:"
        r@[68] == 0x53 && r@[69] == 0x50 && r@[70] == 0x3A,  // "SP:"
        r@[74] == 0x50 && r@[75] == 0x50 && r@[76] == 0x55 && r@[77] == 0x3A,  // "PPU:"
        r@[81] == 0x2C,  // ","
        r@[86] == 0x43 && r@[87] == 0x59 && r@[88] == 0x43 && r@[89] == 0x3A,  // "CYC:"
{
    let mut line = blank_trace_line();
    write_hex_to_buffer(pc, &mut line, 0, 4);
    write_hex_to_buffer(opcode as u16, &mut line, 6, 2);
    write_hex_to_buffer(byte1 as u16, &mut line, 9, 2);
    write_hex_to_buffer(byte2 as u16, &mut line, 12, 2);
    format_trace_registers(&mut line, a, x, y, p, sp, ppu_row, ppu_col, cyc);
    line
}

} // verus!
