use vstd::prelude::*;
use crate::error::VmError;
use crate::text::{append_decimal, append_upper_hex, decimal_text, upper_hex_text};

verus! {

/// Number of instruction shapes.
pub const OPCODE_COUNT: usize = 35;

/// One decoded instruction with its operand fields. `X` and `Y` stand for
/// register indices, `NN` for an 8-bit immediate, `NNN` for a 12-bit address
/// and `N` for a 4-bit count.
#[allow(non_camel_case_types)]
#[derive(Clone, Copy, Debug, PartialEq, Eq, Structural)]
pub enum OpCode {
    _0NNN(u16),
    _00EE,
    _00E0,
    _1NNN(u16),
    _2NNN(u16),
    _3XNN(u8, u8),
    _4XNN(u8, u8),
    _5XY0(u8, u8),
    _6XNN(u8, u8),
    _7XNN(u8, u8),
    _8XY0(u8, u8),
    _8XY1(u8, u8),
    _8XY2(u8, u8),
    _8XY3(u8, u8),
    _8XY4(u8, u8),
    _8XY5(u8, u8),
    _8XY6(u8, u8),
    _8XY7(u8, u8),
    _8XYE(u8, u8),
    _9XY0(u8, u8),
    _ANNN(u16),
    _BNNN(u16),
    _CXNN(u8, u8),
    _DXYN(u8, u8, u8),
    _EX9E(u8),
    _EXA1(u8),
    _FX07(u8),
    _FX0A(u8),
    _FX15(u8),
    _FX18(u8),
    _FX1E(u8),
    _FX29(u8),
    _FX33(u8),
    _FX55(u8),
    _FX65(u8),
}

/// The high nibble of a byte.
pub open spec fn high_nibble(byte: u8) -> u8 {
    byte / 16
}

/// The low nibble of a byte.
pub open spec fn low_nibble(byte: u8) -> u8 {
    byte % 16
}

/// The 12-bit address made of the low nibble of `msb` and the whole of `lsb`.
pub open spec fn address_of(msb: u8, lsb: u8) -> u16 {
    (low_nibble(msb) * 256 + lsb) as u16
}

/// The instruction that the bytes `msb`, `lsb` encode, or the decode failure
/// that names them.
pub open spec fn decode(msb: u8, lsb: u8) -> Result<OpCode, VmError> {
    let family = high_nibble(msb);
    let x = low_nibble(msb);
    let y = high_nibble(lsb);
    let n = low_nibble(lsb);
    let nnn = address_of(msb, lsb);
    if family == 0x0 {
        if msb == 0x00 && lsb == 0xEE {
            Ok(OpCode::_00EE)
        } else if msb == 0x00 && lsb == 0xE0 {
            Ok(OpCode::_00E0)
        } else {
            Ok(OpCode::_0NNN(nnn))
        }
    } else if family == 0x1 {
        Ok(OpCode::_1NNN(nnn))
    } else if family == 0x2 {
        Ok(OpCode::_2NNN(nnn))
    } else if family == 0x3 {
        Ok(OpCode::_3XNN(x, lsb))
    } else if family == 0x4 {
        Ok(OpCode::_4XNN(x, lsb))
    } else if family == 0x5 && n == 0x0 {
        Ok(OpCode::_5XY0(x, y))
    } else if family == 0x6 {
        Ok(OpCode::_6XNN(x, lsb))
    } else if family == 0x7 {
        Ok(OpCode::_7XNN(x, lsb))
    } else if family == 0x8 && n == 0x0 {
        Ok(OpCode::_8XY0(x, y))
    } else if family == 0x8 && n == 0x1 {
        Ok(OpCode::_8XY1(x, y))
    } else if family == 0x8 && n == 0x2 {
        Ok(OpCode::_8XY2(x, y))
    } else if family == 0x8 && n == 0x3 {
        Ok(OpCode::_8XY3(x, y))
    } else if family == 0x8 && n == 0x4 {
        Ok(OpCode::_8XY4(x, y))
    } else if family == 0x8 && n == 0x5 {
        Ok(OpCode::_8XY5(x, y))
    } else if family == 0x8 && n == 0x6 {
        Ok(OpCode::_8XY6(x, y))
    } else if family == 0x8 && n == 0x7 {
        Ok(OpCode::_8XY7(x, y))
    } else if family == 0x8 && n == 0xE {
        Ok(OpCode::_8XYE(x, y))
    } else if family == 0x9 && n == 0x0 {
        Ok(OpCode::_9XY0(x, y))
    } else if family == 0xA {
        Ok(OpCode::_ANNN(nnn))
    } else if family == 0xB {
        Ok(OpCode::_BNNN(nnn))
    } else if family == 0xC {
        Ok(OpCode::_CXNN(x, lsb))
    } else if family == 0xD {
        Ok(OpCode::_DXYN(x, y, n))
    } else if family == 0xE && lsb == 0x9E {
        Ok(OpCode::_EX9E(x))
    } else if family == 0xE && lsb == 0xA1 {
        Ok(OpCode::_EXA1(x))
    } else if family == 0xF && lsb == 0x07 {
        Ok(OpCode::_FX07(x))
    } else if family == 0xF && lsb == 0x0A {
        Ok(OpCode::_FX0A(x))
    } else if family == 0xF && lsb == 0x15 {
        Ok(OpCode::_FX15(x))
    } else if family == 0xF && lsb == 0x18 {
        Ok(OpCode::_FX18(x))
    } else if family == 0xF && lsb == 0x1E {
        Ok(OpCode::_FX1E(x))
    } else if family == 0xF && lsb == 0x29 {
        Ok(OpCode::_FX29(x))
    } else if family == 0xF && lsb == 0x33 {
        Ok(OpCode::_FX33(x))
    } else if family == 0xF && lsb == 0x55 {
        Ok(OpCode::_FX55(x))
    } else if family == 0xF && lsb == 0x65 {
        Ok(OpCode::_FX65(x))
    } else {
        Err(VmError::Decode { msb, lsb })
    }
}

/// Joins two nibbles into a byte, the first one in the high half.
pub fn to_u8(n1: u8, n2: u8) -> (byte: u8)
    ensures
        byte == (n1 << 4) | n2,
        n1 < 16 && n2 < 16 ==> byte == n1 * 16 + n2,
{
    assert(n1 < 16 && n2 < 16 ==> ((n1 << 4) | n2) == n1 * 16 + n2) by (bit_vector);
    n1 << 4 | n2
}

/// Joins three nibbles into a 12-bit value, the first one highest.
pub fn to_u16(n1: u8, n2: u8, n3: u8) -> (word: u16)
    ensures
        word == ((n1 as u16) << 8) | ((n2 as u16) << 4) | (n3 as u16),
        n1 < 16 && n2 < 16 && n3 < 16 ==> word == n1 * 256 + n2 * 16 + n3,
{
    assert(n1 < 16 && n2 < 16 && n3 < 16 ==> (((n1 as u16) << 8) | ((n2 as u16) << 4) | (
    n3 as u16)) == n1 * 256 + n2 * 16 + n3) by (bit_vector);
    (n1 as u16) << 8 | (n2 as u16) << 4 | (n3 as u16)
}

impl OpCode {
    /// Holds when every operand fits the field it is encoded in: register
    /// indices and counts in a nibble, addresses in twelve bits.
    pub open spec fn wf(&self) -> bool {
        match *self {
            OpCode::_00EE | OpCode::_00E0 => true,
            OpCode::_0NNN(nnn)
            | OpCode::_1NNN(nnn)
            | OpCode::_2NNN(nnn)
            | OpCode::_ANNN(nnn)
            | OpCode::_BNNN(nnn) => nnn < 4096,
            OpCode::_3XNN(x, _)
            | OpCode::_4XNN(x, _)
            | OpCode::_6XNN(x, _)
            | OpCode::_7XNN(x, _)
            | OpCode::_CXNN(x, _) => x < 16,
            OpCode::_5XY0(x, y)
            | OpCode::_8XY0(x, y)
            | OpCode::_8XY1(x, y)
            | OpCode::_8XY2(x, y)
            | OpCode::_8XY3(x, y)
            | OpCode::_8XY4(x, y)
            | OpCode::_8XY5(x, y)
            | OpCode::_8XY6(x, y)
            | OpCode::_8XY7(x, y)
            | OpCode::_8XYE(x, y)
            | OpCode::_9XY0(x, y) => x < 16 && y < 16,
            OpCode::_DXYN(x, y, n) => x < 16 && y < 16 && n < 16,
            OpCode::_EX9E(x)
            | OpCode::_EXA1(x)
            | OpCode::_FX07(x)
            | OpCode::_FX0A(x)
            | OpCode::_FX15(x)
            | OpCode::_FX18(x)
            | OpCode::_FX1E(x)
            | OpCode::_FX29(x)
            | OpCode::_FX33(x)
            | OpCode::_FX55(x)
            | OpCode::_FX65(x) => x < 16,
        }
    }

    /// Decodes the two bytes of an instruction, most significant first.
    pub fn new(msb: u8, lsb: u8) -> (r: Result<OpCode, VmError>)
        ensures
            r == decode(msb, lsb),
            r is Ok ==> r->Ok_0.wf(),
    {
        let n0: u8 = msb >> 4;
        let n1: u8 = msb & 0x0F;
        let n2: u8 = lsb >> 4;
        let n3: u8 = lsb & 0x0F;
        assert(msb >> 4 == msb / 16 && msb & 0x0F == msb % 16) by (bit_vector);
        assert(lsb >> 4 == lsb / 16 && lsb & 0x0F == lsb % 16) by (bit_vector);
        match (n0, n1, n2, n3) {
            (0x0, 0x0, 0xE, 0xE) => Ok(OpCode::_00EE),
            (0x0, 0x0, 0xE, 0x0) => Ok(OpCode::_00E0),
            (0x0, n1, n2, n3) => Ok(OpCode::_0NNN(to_u16(n1, n2, n3))),
            (0x1, n1, n2, n3) => Ok(OpCode::_1NNN(to_u16(n1, n2, n3))),
            (0x2, n1, n2, n3) => Ok(OpCode::_2NNN(to_u16(n1, n2, n3))),
            (0x3, x, n1, n2) => Ok(OpCode::_3XNN(x, to_u8(n1, n2))),
            (0x4, x, n1, n2) => Ok(OpCode::_4XNN(x, to_u8(n1, n2))),
            (0x5, x, y, 0x0) => Ok(OpCode::_5XY0(x, y)),
            (0x6, x, n1, n2) => Ok(OpCode::_6XNN(x, to_u8(n1, n2))),
            (0x7, x, n1, n2) => Ok(OpCode::_7XNN(x, to_u8(n1, n2))),
            (0x8, x, y, 0x0) => Ok(OpCode::_8XY0(x, y)),
            (0x8, x, y, 0x1) => Ok(OpCode::_8XY1(x, y)),
            (0x8, x, y, 0x2) => Ok(OpCode::_8XY2(x, y)),
            (0x8, x, y, 0x3) => Ok(OpCode::_8XY3(x, y)),
            (0x8, x, y, 0x4) => Ok(OpCode::_8XY4(x, y)),
            (0x8, x, y, 0x5) => Ok(OpCode::_8XY5(x, y)),
            (0x8, x, y, 0x6) => Ok(OpCode::_8XY6(x, y)),
            (0x8, x, y, 0x7) => Ok(OpCode::_8XY7(x, y)),
            (0x8, x, y, 0xE) => Ok(OpCode::_8XYE(x, y)),
            (0x9, x, y, 0x0) => Ok(OpCode::_9XY0(x, y)),
            (0xA, n1, n2, n3) => Ok(OpCode::_ANNN(to_u16(n1, n2, n3))),
            (0xB, n1, n2, n3) => Ok(OpCode::_BNNN(to_u16(n1, n2, n3))),
            (0xC, x, n1, n2) => Ok(OpCode::_CXNN(x, to_u8(n1, n2))),
            (0xD, x, y, n) => Ok(OpCode::_DXYN(x, y, n)),
            (0xE, x, 0x9, 0xE) => Ok(OpCode::_EX9E(x)),
            (0xE, x, 0xA, 0x1) => Ok(OpCode::_EXA1(x)),
            (0xF, x, 0x0, 0x7) => Ok(OpCode::_FX07(x)),
            (0xF, x, 0x0, 0xA) => Ok(OpCode::_FX0A(x)),
            (0xF, x, 0x1, 0x5) => Ok(OpCode::_FX15(x)),
            (0xF, x, 0x1, 0x8) => Ok(OpCode::_FX18(x)),
            (0xF, x, 0x1, 0xE) => Ok(OpCode::_FX1E(x)),
            (0xF, x, 0x2, 0x9) => Ok(OpCode::_FX29(x)),
            (0xF, x, 0x3, 0x3) => Ok(OpCode::_FX33(x)),
            (0xF, x, 0x5, 0x5) => Ok(OpCode::_FX55(x)),
            (0xF, x, 0x6, 0x5) => Ok(OpCode::_FX65(x)),
            _ => Err(VmError::Decode { msb, lsb }),
        }
    }

    /// The assembly-like line that describes the instruction: a mnemonic,
    /// then the operands, registers and immediates in decimal and addresses
    /// in hexadecimal.
    pub open spec fn disassembly_text(&self) -> Seq<char> {
        match *self {
            OpCode::_0NNN(nnn) => "JUMP_MACHINE 0x"@ + upper_hex_text(nnn),
            OpCode::_00EE => "RETURN"@,
            OpCode::_00E0 => "CLEAR"@,
            OpCode::_1NNN(nnn) => "JUMP 0x"@ + upper_hex_text(nnn),
            OpCode::_2NNN(nnn) => "CALL 0x"@ + upper_hex_text(nnn),
            OpCode::_3XNN(a, b) => "SKIP_IF_EQ v"@ + decimal_text(a) + ", "@ + decimal_text(b),
            OpCode::_4XNN(a, b) => "SKIP_IF_NEQ v"@ + decimal_text(a) + ", "@ + decimal_text(b),
            OpCode::_5XY0(a, b) => "SKIP_IF_EQ v"@ + decimal_text(a) + ", v"@ + decimal_text(b),
            OpCode::_6XNN(a, b) => "MOV v"@ + decimal_text(a) + ", "@ + decimal_text(b),
            OpCode::_7XNN(a, b) => "ADD v"@ + decimal_text(a) + ", "@ + decimal_text(b),
            OpCode::_8XY0(a, b) => "MOV v"@ + decimal_text(a) + ", v"@ + decimal_text(b),
            OpCode::_8XY1(a, b) => "OR v"@ + decimal_text(a) + ", v"@ + decimal_text(b),
            OpCode::_8XY2(a, b) => "AND v"@ + decimal_text(a) + ", v"@ + decimal_text(b),
            OpCode::_8XY3(a, b) => "XOR v"@ + decimal_text(a) + ", v"@ + decimal_text(b),
            OpCode::_8XY4(a, b) => "ADD v"@ + decimal_text(a) + ", v"@ + decimal_text(b),
            OpCode::_8XY5(a, b) => "SUB v"@ + decimal_text(a) + ", v"@ + decimal_text(b),
            OpCode::_8XY6(x, _) => "RSHIFT v"@ + decimal_text(x),
            OpCode::_8XY7(x, y) => "MOV v"@ + decimal_text(x) + ", v"@ + decimal_text(y) + " - v"@
                + decimal_text(x),
            OpCode::_8XYE(x, _) => "LSHIFT v"@ + decimal_text(x),
            OpCode::_9XY0(a, b) => "SKIP_IF_NEQ v"@ + decimal_text(a) + ", v"@ + decimal_text(b),
            OpCode::_ANNN(nnn) => "MOV I, 0x"@ + upper_hex_text(nnn),
            OpCode::_BNNN(nnn) => "JUMP_V0 0x"@ + upper_hex_text(nnn),
            OpCode::_CXNN(a, b) => "RAND v"@ + decimal_text(a) + ", "@ + decimal_text(b),
            OpCode::_DXYN(x, y, n) => "DRAW v"@ + decimal_text(x) + ", v"@ + decimal_text(y) + ", "@
                + decimal_text(n),
            OpCode::_EX9E(x) => "SKIP_IF_KEY v"@ + decimal_text(x),
            OpCode::_EXA1(x) => "SKIP_IF_NOT_KEY v"@ + decimal_text(x),
            OpCode::_FX07(x) => "MOV v"@ + decimal_text(x) + ", DELAY"@,
            OpCode::_FX0A(x) => "MOV v"@ + decimal_text(x) + ", KEY"@,
            OpCode::_FX15(x) => "MOV DELAY, v"@ + decimal_text(x),
            OpCode::_FX18(x) => "MOV v"@ + decimal_text(x) + ", SOUND"@,
            OpCode::_FX1E(x) => "ADD I, v"@ + decimal_text(x),
            OpCode::_FX29(x) => "MOV I, v"@ + decimal_text(x),
            OpCode::_FX33(x) => "BIN I, v"@ + decimal_text(x),
            OpCode::_FX55(x) => "BATCH I, v"@ + decimal_text(x),
            OpCode::_FX65(x) => "BATCH v"@ + decimal_text(x) + ", I"@,
        }
    }

    /// Renders the instruction as one line of text.
    pub fn disassembly(&self) -> (line: String)
        ensures
            line@ == self.disassembly_text(),
    {
        match *self {
            OpCode::_0NNN(nnn) => address_line("JUMP_MACHINE 0x", nnn),
            OpCode::_00EE => String::from_str("RETURN"),
            OpCode::_00E0 => String::from_str("CLEAR"),
            OpCode::_1NNN(nnn) => address_line("JUMP 0x", nnn),
            OpCode::_2NNN(nnn) => address_line("CALL 0x", nnn),
            OpCode::_3XNN(a, b) => pair_line("SKIP_IF_EQ v", a, ", ", b),
            OpCode::_4XNN(a, b) => pair_line("SKIP_IF_NEQ v", a, ", ", b),
            OpCode::_5XY0(a, b) => pair_line("SKIP_IF_EQ v", a, ", v", b),
            OpCode::_6XNN(a, b) => pair_line("MOV v", a, ", ", b),
            OpCode::_7XNN(a, b) => pair_line("ADD v", a, ", ", b),
            OpCode::_8XY0(a, b) => pair_line("MOV v", a, ", v", b),
            OpCode::_8XY1(a, b) => pair_line("OR v", a, ", v", b),
            OpCode::_8XY2(a, b) => pair_line("AND v", a, ", v", b),
            OpCode::_8XY3(a, b) => pair_line("XOR v", a, ", v", b),
            OpCode::_8XY4(a, b) => pair_line("ADD v", a, ", v", b),
            OpCode::_8XY5(a, b) => pair_line("SUB v", a, ", v", b),
            OpCode::_8XY6(x, _) => register_line("RSHIFT v", x),
            OpCode::_8XY7(x, y) => {
                let mut line = pair_line("MOV v", x, ", v", y);
                line.append(" - v");
                append_decimal(&mut line, x);
                line
            },
            OpCode::_8XYE(x, _) => register_line("LSHIFT v", x),
            OpCode::_9XY0(a, b) => pair_line("SKIP_IF_NEQ v", a, ", v", b),
            OpCode::_ANNN(nnn) => address_line("MOV I, 0x", nnn),
            OpCode::_BNNN(nnn) => address_line("JUMP_V0 0x", nnn),
            OpCode::_CXNN(a, b) => pair_line("RAND v", a, ", ", b),
            OpCode::_DXYN(x, y, n) => {
                let mut line = pair_line("DRAW v", x, ", v", y);
                line.append(", ");
                append_decimal(&mut line, n);
                line
            },
            OpCode::_EX9E(x) => register_line("SKIP_IF_KEY v", x),
            OpCode::_EXA1(x) => register_line("SKIP_IF_NOT_KEY v", x),
            OpCode::_FX07(x) => {
                let mut line = register_line("MOV v", x);
                line.append(", DELAY");
                line
            },
            OpCode::_FX0A(x) => {
                let mut line = register_line("MOV v", x);
                line.append(", KEY");
                line
            },
            OpCode::_FX15(x) => register_line("MOV DELAY, v", x),
            OpCode::_FX18(x) => {
                let mut line = register_line("MOV v", x);
                line.append(", SOUND");
                line
            },
            OpCode::_FX1E(x) => register_line("ADD I, v", x),
            OpCode::_FX29(x) => register_line("MOV I, v", x),
            OpCode::_FX33(x) => register_line("BIN I, v", x),
            OpCode::_FX55(x) => register_line("BATCH I, v", x),
            OpCode::_FX65(x) => {
                let mut line = register_line("BATCH v", x);
                line.append(", I");
                line
            },
        }
    }

    /// The two bytes that encode the instruction, most significant first.
    /// Operands larger than their field are cut down to it.
    pub open spec fn encoding(&self) -> (u8, u8) {
        match *self {
            OpCode::_0NNN(nnn) => address_bytes(0x0, nnn),
            OpCode::_00EE => (0x00, 0xEE),
            OpCode::_00E0 => (0x00, 0xE0),
            OpCode::_1NNN(nnn) => address_bytes(0x1, nnn),
            OpCode::_2NNN(nnn) => address_bytes(0x2, nnn),
            OpCode::_3XNN(x, nn) => immediate_bytes(0x3, x, nn),
            OpCode::_4XNN(x, nn) => immediate_bytes(0x4, x, nn),
            OpCode::_5XY0(x, y) => nibble_bytes(0x5, x, y, 0x0),
            OpCode::_6XNN(x, nn) => immediate_bytes(0x6, x, nn),
            OpCode::_7XNN(x, nn) => immediate_bytes(0x7, x, nn),
            OpCode::_8XY0(x, y) => nibble_bytes(0x8, x, y, 0x0),
            OpCode::_8XY1(x, y) => nibble_bytes(0x8, x, y, 0x1),
            OpCode::_8XY2(x, y) => nibble_bytes(0x8, x, y, 0x2),
            OpCode::_8XY3(x, y) => nibble_bytes(0x8, x, y, 0x3),
            OpCode::_8XY4(x, y) => nibble_bytes(0x8, x, y, 0x4),
            OpCode::_8XY5(x, y) => nibble_bytes(0x8, x, y, 0x5),
            OpCode::_8XY6(x, y) => nibble_bytes(0x8, x, y, 0x6),
            OpCode::_8XY7(x, y) => nibble_bytes(0x8, x, y, 0x7),
            OpCode::_8XYE(x, y) => nibble_bytes(0x8, x, y, 0xE),
            OpCode::_9XY0(x, y) => nibble_bytes(0x9, x, y, 0x0),
            OpCode::_ANNN(nnn) => address_bytes(0xA, nnn),
            OpCode::_BNNN(nnn) => address_bytes(0xB, nnn),
            OpCode::_CXNN(x, nn) => immediate_bytes(0xC, x, nn),
            OpCode::_DXYN(x, y, n) => nibble_bytes(0xD, x, y, n),
            OpCode::_EX9E(x) => immediate_bytes(0xE, x, 0x9E),
            OpCode::_EXA1(x) => immediate_bytes(0xE, x, 0xA1),
            OpCode::_FX07(x) => immediate_bytes(0xF, x, 0x07),
            OpCode::_FX0A(x) => immediate_bytes(0xF, x, 0x0A),
            OpCode::_FX15(x) => immediate_bytes(0xF, x, 0x15),
            OpCode::_FX18(x) => immediate_bytes(0xF, x, 0x18),
            OpCode::_FX1E(x) => immediate_bytes(0xF, x, 0x1E),
            OpCode::_FX29(x) => immediate_bytes(0xF, x, 0x29),
            OpCode::_FX33(x) => immediate_bytes(0xF, x, 0x33),
            OpCode::_FX55(x) => immediate_bytes(0xF, x, 0x55),
            OpCode::_FX65(x) => immediate_bytes(0xF, x, 0x65),
        }
    }

    /// Holds unless the instruction is a legacy machine-code call whose
    /// address makes its bytes those of "return" or "clear screen".
    pub open spec fn canonical(&self) -> bool {
        *self != OpCode::_0NNN(0x0EE) && *self != OpCode::_0NNN(0x0E0)
    }

    /// Encodes the instruction in two bytes, most significant first.
    pub fn encode(&self) -> (bytes: (u8, u8))
        ensures
            bytes == self.encoding(),
    {
        match *self {
            OpCode::_0NNN(nnn) => pack_address(0x0, nnn),
            OpCode::_00EE => (0x00, 0xEE),
            OpCode::_00E0 => (0x00, 0xE0),
            OpCode::_1NNN(nnn) => pack_address(0x1, nnn),
            OpCode::_2NNN(nnn) => pack_address(0x2, nnn),
            OpCode::_3XNN(x, nn) => pack_immediate(0x3, x, nn),
            OpCode::_4XNN(x, nn) => pack_immediate(0x4, x, nn),
            OpCode::_5XY0(x, y) => pack_nibbles(0x5, x, y, 0x0),
            OpCode::_6XNN(x, nn) => pack_immediate(0x6, x, nn),
            OpCode::_7XNN(x, nn) => pack_immediate(0x7, x, nn),
            OpCode::_8XY0(x, y) => pack_nibbles(0x8, x, y, 0x0),
            OpCode::_8XY1(x, y) => pack_nibbles(0x8, x, y, 0x1),
            OpCode::_8XY2(x, y) => pack_nibbles(0x8, x, y, 0x2),
            OpCode::_8XY3(x, y) => pack_nibbles(0x8, x, y, 0x3),
            OpCode::_8XY4(x, y) => pack_nibbles(0x8, x, y, 0x4),
            OpCode::_8XY5(x, y) => pack_nibbles(0x8, x, y, 0x5),
            OpCode::_8XY6(x, y) => pack_nibbles(0x8, x, y, 0x6),
            OpCode::_8XY7(x, y) => pack_nibbles(0x8, x, y, 0x7),
            OpCode::_8XYE(x, y) => pack_nibbles(0x8, x, y, 0xE),
            OpCode::_9XY0(x, y) => pack_nibbles(0x9, x, y, 0x0),
            OpCode::_ANNN(nnn) => pack_address(0xA, nnn),
            OpCode::_BNNN(nnn) => pack_address(0xB, nnn),
            OpCode::_CXNN(x, nn) => pack_immediate(0xC, x, nn),
            OpCode::_DXYN(x, y, n) => pack_nibbles(0xD, x, y, n),
            OpCode::_EX9E(x) => pack_immediate(0xE, x, 0x9E),
            OpCode::_EXA1(x) => pack_immediate(0xE, x, 0xA1),
            OpCode::_FX07(x) => pack_immediate(0xF, x, 0x07),
            OpCode::_FX0A(x) => pack_immediate(0xF, x, 0x0A),
            OpCode::_FX15(x) => pack_immediate(0xF, x, 0x15),
            OpCode::_FX18(x) => pack_immediate(0xF, x, 0x18),
            OpCode::_FX1E(x) => pack_immediate(0xF, x, 0x1E),
            OpCode::_FX29(x) => pack_immediate(0xF, x, 0x29),
            OpCode::_FX33(x) => pack_immediate(0xF, x, 0x33),
            OpCode::_FX55(x) => pack_immediate(0xF, x, 0x55),
            OpCode::_FX65(x) => pack_immediate(0xF, x, 0x65),
        }
    }
}

/// The bytes of a family nibble followed by a 12-bit address.
pub open spec fn address_bytes(family: u8, nnn: u16) -> (u8, u8) {
    ((family * 16 + (nnn / 256) % 16) as u8, (nnn % 256) as u8)
}

/// The bytes of a family nibble, a register index and an 8-bit immediate.
pub open spec fn immediate_bytes(family: u8, x: u8, nn: u8) -> (u8, u8) {
    ((family * 16 + x % 16) as u8, nn)
}

/// The bytes of four nibbles.
pub open spec fn nibble_bytes(family: u8, x: u8, y: u8, n: u8) -> (u8, u8) {
    ((family * 16 + x % 16) as u8, ((y % 16) * 16 + n % 16) as u8)
}

fn pack_address(family: u8, nnn: u16) -> (bytes: (u8, u8))
    requires
        family < 16,
    ensures
        bytes == address_bytes(family, nnn),
{
    (family * 16 + ((nnn / 256) % 16) as u8, (nnn % 256) as u8)
}

fn pack_immediate(family: u8, x: u8, nn: u8) -> (bytes: (u8, u8))
    requires
        family < 16,
    ensures
        bytes == immediate_bytes(family, x, nn),
{
    (family * 16 + x % 16, nn)
}

fn pack_nibbles(family: u8, x: u8, y: u8, n: u8) -> (bytes: (u8, u8))
    requires
        family < 16,
    ensures
        bytes == nibble_bytes(family, x, y, n),
{
    (family * 16 + x % 16, (y % 16) * 16 + n % 16)
}

fn address_line(prefix: &str, nnn: u16) -> (line: String)
    ensures
        line@ == prefix@ + upper_hex_text(nnn),
{
    let mut line = String::from_str(prefix);
    append_upper_hex(&mut line, nnn);
    line
}

fn register_line(prefix: &str, x: u8) -> (line: String)
    ensures
        line@ == prefix@ + decimal_text(x),
{
    let mut line = String::from_str(prefix);
    append_decimal(&mut line, x);
    line
}

fn pair_line(prefix: &str, a: u8, middle: &str, b: u8) -> (line: String)
    ensures
        line@ == prefix@ + decimal_text(a) + middle@ + decimal_text(b),
{
    let mut line = register_line(prefix, a);
    line.append(middle);
    append_decimal(&mut line, b);
    line
}

/// Decoding is undone by encoding: the bytes that decode to an instruction
/// are the bytes that the instruction encodes to.
pub proof fn lemma_decode_then_encode(msb: u8, lsb: u8)
    requires
        decode(msb, lsb) is Ok,
    ensures
        decode(msb, lsb)->Ok_0.wf(),
        decode(msb, lsb)->Ok_0.encoding() == (msb, lsb),
        decode(decode(msb, lsb)->Ok_0.encoding().0, decode(msb, lsb)->Ok_0.encoding().1) == decode(
            msb,
            lsb,
        ),
{
    lemma_split_bytes(msb, lsb);
    let op = decode(msb, lsb)->Ok_0;
    let family = high_nibble(msb);
    let x = low_nibble(msb);
    let y = high_nibble(lsb);
    let n = low_nibble(lsb);
    let nnn = address_of(msb, lsb);
    if family == 0x0 || family == 0x1 || family == 0x2 || family == 0xA || family == 0xB {
        assert(op.encoding() == (msb, lsb));
    } else if family == 0x3 || family == 0x4 || family == 0x6 || family == 0x7 || family == 0xC {
        assert(op.encoding() == immediate_bytes(family, x, lsb));
    } else if family == 0x5 || family == 0x8 || family == 0x9 || family == 0xD {
        assert(op.encoding() == nibble_bytes(family, x, y, n));
    } else {
        assert(op.encoding() == immediate_bytes(family, x, lsb));
    }
}

proof fn lemma_split_bytes(msb: u8, lsb: u8)
    ensures
        high_nibble(msb) < 16,
        low_nibble(msb) < 16,
        high_nibble(lsb) < 16,
        low_nibble(lsb) < 16,
        address_of(msb, lsb) < 4096,
        address_bytes(high_nibble(msb), address_of(msb, lsb)) == (msb, lsb),
        immediate_bytes(high_nibble(msb), low_nibble(msb), lsb) == (msb, lsb),
        nibble_bytes(high_nibble(msb), low_nibble(msb), high_nibble(lsb), low_nibble(lsb)) == (
            msb,
            lsb,
        ),
        high_nibble(msb) == 0 ==> address_of(msb, lsb) == msb * 256 + lsb,
{
}

/// Encoding is undone by decoding, for every instruction whose operands fit
/// their fields and whose bytes are not claimed by a more specific pattern.
pub proof fn lemma_encode_then_decode(op: OpCode)
    requires
        op.wf(),
        op.canonical(),
    ensures
        decode(op.encoding().0, op.encoding().1) == Ok::<OpCode, VmError>(op),
{
    match op {
        OpCode::_00EE | OpCode::_00E0 => {},
        OpCode::_0NNN(nnn) => lemma_address_bytes(0x0, nnn),
        OpCode::_1NNN(nnn) => lemma_address_bytes(0x1, nnn),
        OpCode::_2NNN(nnn) => lemma_address_bytes(0x2, nnn),
        OpCode::_ANNN(nnn) => lemma_address_bytes(0xA, nnn),
        OpCode::_BNNN(nnn) => lemma_address_bytes(0xB, nnn),
        OpCode::_3XNN(x, nn) => lemma_immediate_bytes(0x3, x, nn),
        OpCode::_4XNN(x, nn) => lemma_immediate_bytes(0x4, x, nn),
        OpCode::_6XNN(x, nn) => lemma_immediate_bytes(0x6, x, nn),
        OpCode::_7XNN(x, nn) => lemma_immediate_bytes(0x7, x, nn),
        OpCode::_CXNN(x, nn) => lemma_immediate_bytes(0xC, x, nn),
        OpCode::_5XY0(x, y) => lemma_nibble_bytes(0x5, x, y, 0x0),
        OpCode::_8XY0(x, y) => lemma_nibble_bytes(0x8, x, y, 0x0),
        OpCode::_8XY1(x, y) => lemma_nibble_bytes(0x8, x, y, 0x1),
        OpCode::_8XY2(x, y) => lemma_nibble_bytes(0x8, x, y, 0x2),
        OpCode::_8XY3(x, y) => lemma_nibble_bytes(0x8, x, y, 0x3),
        OpCode::_8XY4(x, y) => lemma_nibble_bytes(0x8, x, y, 0x4),
        OpCode::_8XY5(x, y) => lemma_nibble_bytes(0x8, x, y, 0x5),
        OpCode::_8XY6(x, y) => lemma_nibble_bytes(0x8, x, y, 0x6),
        OpCode::_8XY7(x, y) => lemma_nibble_bytes(0x8, x, y, 0x7),
        OpCode::_8XYE(x, y) => lemma_nibble_bytes(0x8, x, y, 0xE),
        OpCode::_9XY0(x, y) => lemma_nibble_bytes(0x9, x, y, 0x0),
        OpCode::_DXYN(x, y, n) => lemma_nibble_bytes(0xD, x, y, n),
        OpCode::_EX9E(x) => lemma_immediate_bytes(0xE, x, 0x9E),
        OpCode::_EXA1(x) => lemma_immediate_bytes(0xE, x, 0xA1),
        OpCode::_FX07(x) => lemma_immediate_bytes(0xF, x, 0x07),
        OpCode::_FX0A(x) => lemma_immediate_bytes(0xF, x, 0x0A),
        OpCode::_FX15(x) => lemma_immediate_bytes(0xF, x, 0x15),
        OpCode::_FX18(x) => lemma_immediate_bytes(0xF, x, 0x18),
        OpCode::_FX1E(x) => lemma_immediate_bytes(0xF, x, 0x1E),
        OpCode::_FX29(x) => lemma_immediate_bytes(0xF, x, 0x29),
        OpCode::_FX33(x) => lemma_immediate_bytes(0xF, x, 0x33),
        OpCode::_FX55(x) => lemma_immediate_bytes(0xF, x, 0x55),
        OpCode::_FX65(x) => lemma_immediate_bytes(0xF, x, 0x65),
    }
}

proof fn lemma_address_bytes(family: u8, nnn: u16)
    requires
        family < 16,
        nnn < 4096,
    ensures
        high_nibble(address_bytes(family, nnn).0) == family,
        low_nibble(address_bytes(family, nnn).0) == nnn / 256,
        address_bytes(family, nnn).1 == nnn % 256,
        address_of(address_bytes(family, nnn).0, address_bytes(family, nnn).1) == nnn,
        address_bytes(family, nnn).0 == 0 <==> family == 0 && nnn < 256,
{
}

proof fn lemma_immediate_bytes(family: u8, x: u8, nn: u8)
    requires
        family < 16,
        x < 16,
    ensures
        high_nibble(immediate_bytes(family, x, nn).0) == family,
        low_nibble(immediate_bytes(family, x, nn).0) == x,
        immediate_bytes(family, x, nn).1 == nn,
{
}

proof fn lemma_nibble_bytes(family: u8, x: u8, y: u8, n: u8)
    requires
        family < 16,
        x < 16,
        y < 16,
        n < 16,
    ensures
        high_nibble(nibble_bytes(family, x, y, n).0) == family,
        low_nibble(nibble_bytes(family, x, y, n).0) == x,
        high_nibble(nibble_bytes(family, x, y, n).1) == y,
        low_nibble(nibble_bytes(family, x, y, n).1) == n,
{
}

/// The bytes that match no pattern are exactly those of the families 5, 8,
/// 9, E and F with a tail that no instruction of the family has.
pub proof fn lemma_decode_failures(msb: u8, lsb: u8)
    ensures
        decode(msb, lsb) is Err <==> {
            let family = high_nibble(msb);
            let n = low_nibble(lsb);
            ||| (family == 0x5 || family == 0x9) && n != 0
            ||| family == 0x8 && n > 7 && n != 0xE
            ||| family == 0xE && lsb != 0x9E && lsb != 0xA1
            ||| family == 0xF && lsb != 0x07 && lsb != 0x0A && lsb != 0x15 && lsb != 0x18 && lsb
                != 0x1E && lsb != 0x29 && lsb != 0x33 && lsb != 0x55 && lsb != 0x65
        },
        decode(msb, lsb) is Err ==> decode(msb, lsb) == Err::<OpCode, VmError>(
            VmError::Decode { msb, lsb },
        ),
{
}

} // verus!
