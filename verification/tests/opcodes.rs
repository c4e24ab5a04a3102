use chust8::error::VmError;
use chust8::opcodes::OpCode::{
    _00E0, _00EE, _0NNN, _1NNN, _2NNN, _3XNN, _4XNN, _5XY0, _6XNN, _7XNN, _8XY0, _8XY1, _8XY2,
    _8XY3, _8XY4, _8XY5, _8XY6, _8XY7, _8XYE, _9XY0, _ANNN, _BNNN, _CXNN, _DXYN, _EX9E, _EXA1,
    _FX07, _FX0A, _FX15, _FX18, _FX1E, _FX29, _FX33, _FX55, _FX65,
};
use chust8::opcodes::{to_u16, to_u8, OpCode, OPCODE_COUNT};

#[test]
fn parsing() {
    let opcode = OpCode::new(0x00, 0xEE).unwrap();

    assert_eq!(opcode, OpCode::_00EE);
}

fn disassembly_table() -> Vec<(OpCode, &'static str)> {
    vec![
        (_0NNN(333), "JUMP_MACHINE 0x14D"),
        (_00EE, "RETURN"),
        (_00E0, "CLEAR"),
        (_1NNN(137), "JUMP 0x89"),
        (_2NNN(279), "CALL 0x117"),
        (_3XNN(3, 58), "SKIP_IF_EQ v3, 58"),
        (_4XNN(4, 69), "SKIP_IF_NEQ v4, 69"),
        (_5XY0(3, 5), "SKIP_IF_EQ v3, v5"),
        (_6XNN(8, 99), "MOV v8, 99"),
        (_7XNN(0, 25), "ADD v0, 25"),
        (_8XY0(7, 8), "MOV v7, v8"),
        (_8XY1(1, 9), "OR v1, v9"),
        (_8XY2(10, 12), "AND v10, v12"),
        (_8XY3(7, 14), "XOR v7, v14"),
        (_8XY4(3, 0), "ADD v3, v0"),
        (_8XY5(3, 8), "SUB v3, v8"),
        (_8XY6(5, 8), "RSHIFT v5"),
        (_8XY7(0, 8), "MOV v0, v8 - v0"),
        (_8XYE(7, 9), "LSHIFT v7"),
        (_9XY0(3, 9), "SKIP_IF_NEQ v3, v9"),
        (_ANNN(0x340), "MOV I, 0x340"),
        (_BNNN(0x800), "JUMP_V0 0x800"),
        (_CXNN(6, 69), "RAND v6, 69"),
        (_DXYN(0, 2, 7), "DRAW v0, v2, 7"),
        (_EX9E(0), "SKIP_IF_KEY v0"),
        (_EXA1(1), "SKIP_IF_NOT_KEY v1"),
        (_FX07(2), "MOV v2, DELAY"),
        (_FX0A(3), "MOV v3, KEY"),
        (_FX15(4), "MOV DELAY, v4"),
        (_FX18(5), "MOV v5, SOUND"),
        (_FX1E(6), "ADD I, v6"),
        (_FX29(7), "MOV I, v7"),
        (_FX33(8), "BIN I, v8"),
        (_FX55(9), "BATCH I, v9"),
        (_FX65(10), "BATCH v10, I"),
    ]
}

#[test]
fn disassembly() {
    let table = disassembly_table();
    assert_eq!(table.len(), OPCODE_COUNT);

    for (opcode, disassembly) in table.iter() {
        assert_eq!(disassembly, &&opcode.disassembly()[..], "Opcode {:?}", opcode);
    }
}

#[test]
fn disassembly_number_forms() {
    assert_eq!(OpCode::_1NNN(0).disassembly(), "JUMP 0x0");
    assert_eq!(OpCode::_1NNN(0xF).disassembly(), "JUMP 0xF");
    assert_eq!(OpCode::_1NNN(0x10).disassembly(), "JUMP 0x10");
    assert_eq!(OpCode::_1NNN(0xABC).disassembly(), "JUMP 0xABC");
    assert_eq!(OpCode::_1NNN(0xFFFF).disassembly(), "JUMP 0xFFFF");
    assert_eq!(OpCode::_1NNN(0x1000).disassembly(), "JUMP 0x1000");
    assert_eq!(OpCode::_6XNN(15, 0).disassembly(), "MOV v15, 0");
    assert_eq!(OpCode::_6XNN(0, 255).disassembly(), "MOV v0, 255");
    assert_eq!(OpCode::_6XNN(9, 100).disassembly(), "MOV v9, 100");
    assert_eq!(OpCode::_6XNN(10, 109).disassembly(), "MOV v10, 109");
    assert_eq!(OpCode::_DXYN(12, 13, 15).disassembly(), "DRAW v12, v13, 15");
}

#[test]
fn one_case_per_shape() {
    let cases: Vec<(u8, u8, OpCode)> = vec![
        (0x01, 0x4D, _0NNN(0x14D)),
        (0x00, 0xEE, _00EE),
        (0x00, 0xE0, _00E0),
        (0x12, 0x34, _1NNN(0x234)),
        (0x2F, 0xFF, _2NNN(0xFFF)),
        (0x3A, 0x42, _3XNN(0xA, 0x42)),
        (0x4B, 0x00, _4XNN(0xB, 0x00)),
        (0x51, 0x20, _5XY0(1, 2)),
        (0x6A, 0x02, _6XNN(0xA, 2)),
        (0x7C, 0xFF, _7XNN(0xC, 0xFF)),
        (0x81, 0x20, _8XY0(1, 2)),
        (0x83, 0x41, _8XY1(3, 4)),
        (0x85, 0x62, _8XY2(5, 6)),
        (0x87, 0x83, _8XY3(7, 8)),
        (0x89, 0xA4, _8XY4(9, 0xA)),
        (0x8B, 0xC5, _8XY5(0xB, 0xC)),
        (0x8D, 0xE6, _8XY6(0xD, 0xE)),
        (0x8F, 0x07, _8XY7(0xF, 0)),
        (0x81, 0x2E, _8XYE(1, 2)),
        (0x93, 0x40, _9XY0(3, 4)),
        (0xA3, 0x40, _ANNN(0x340)),
        (0xB8, 0x00, _BNNN(0x800)),
        (0xC6, 0x45, _CXNN(6, 0x45)),
        (0xD0, 0xA5, _DXYN(0, 0xA, 5)),
        (0xE0, 0x9E, _EX9E(0)),
        (0xE1, 0xA1, _EXA1(1)),
        (0xF2, 0x07, _FX07(2)),
        (0xF3, 0x0A, _FX0A(3)),
        (0xF4, 0x15, _FX15(4)),
        (0xF5, 0x18, _FX18(5)),
        (0xF6, 0x1E, _FX1E(6)),
        (0xFA, 0x29, _FX29(0xA)),
        (0xF8, 0x33, _FX33(8)),
        (0xF9, 0x55, _FX55(9)),
        (0xFA, 0x65, _FX65(0xA)),
    ];
    assert_eq!(cases.len(), OPCODE_COUNT);
    for (msb, lsb, opcode) in cases.iter() {
        assert_eq!(OpCode::new(*msb, *lsb), Ok(*opcode));
        assert_eq!(opcode.encode(), (*msb, *lsb));
        let (again_msb, again_lsb) = opcode.encode();
        assert_eq!(OpCode::new(again_msb, again_lsb), Ok(*opcode));
    }
}

#[test]
fn every_byte_pair_round_trips_or_fails() {
    let mut failures = 0;
    for msb in 0..=255u8 {
        for lsb in 0..=255u8 {
            match OpCode::new(msb, lsb) {
                Ok(opcode) => {
                    assert_eq!(opcode.encode(), (msb, lsb));
                },
                Err(e) => {
                    assert_eq!(e, VmError::Decode { msb, lsb });
                    failures += 1;
                },
            }
        }
    }
    // Families 5 and 9 accept one tail nibble of sixteen, family 8 nine of
    // sixteen, family E two low bytes of 256 and family F nine of 256.
    let expected = 2 * 16 * 16 * 15 + 16 * 16 * 7 + 16 * (256 - 2) + 16 * (256 - 9);
    assert_eq!(failures, expected);
}

#[test]
fn decode_failures() {
    assert_eq!(OpCode::new(0x51, 0x21), Err(VmError::Decode { msb: 0x51, lsb: 0x21 }));
    assert_eq!(OpCode::new(0x81, 0x28), Err(VmError::Decode { msb: 0x81, lsb: 0x28 }));
    assert_eq!(OpCode::new(0x81, 0x2F), Err(VmError::Decode { msb: 0x81, lsb: 0x2F }));
    assert_eq!(OpCode::new(0x91, 0x2F), Err(VmError::Decode { msb: 0x91, lsb: 0x2F }));
    assert_eq!(OpCode::new(0xE1, 0x9F), Err(VmError::Decode { msb: 0xE1, lsb: 0x9F }));
    assert_eq!(OpCode::new(0xF1, 0x00), Err(VmError::Decode { msb: 0xF1, lsb: 0x00 }));
    assert_eq!(OpCode::new(0xF1, 0x66), Err(VmError::Decode { msb: 0xF1, lsb: 0x66 }));
}

#[test]
fn legacy_call_next_to_return_and_clear() {
    assert_eq!(OpCode::new(0x00, 0xEF), Ok(OpCode::_0NNN(0x0EF)));
    assert_eq!(OpCode::new(0x00, 0xE1), Ok(OpCode::_0NNN(0x0E1)));
    assert_eq!(OpCode::new(0x00, 0x00), Ok(OpCode::_0NNN(0)));
    assert_eq!(OpCode::new(0x0E, 0xEE), Ok(OpCode::_0NNN(0xEEE)));
    assert_eq!(OpCode::_0NNN(0x0EE).encode(), (0x00, 0xEE));
}

#[test]
fn nibble_joining() {
    assert_eq!(to_u8(0xA, 0xB), 0xAB);
    assert_eq!(to_u8(0, 0), 0);
    assert_eq!(to_u8(0xF, 0xF), 0xFF);
    assert_eq!(to_u8(0x1F, 0x01), 0xF1);
    assert_eq!(to_u16(0x1, 0x2, 0x3), 0x123);
    assert_eq!(to_u16(0xF, 0xF, 0xF), 0xFFF);
    assert_eq!(to_u16(0, 0, 0), 0);
}
