use chust8::error::VmError;
use chust8::input::Keypad;
use chust8::interpreter::instructions::execute_opcode;
use chust8::interpreter::semantics::Effect;
use chust8::interpreter::{CycleReport, Interpreter};
use chust8::memory::DEFAULT_SPRITES;
use chust8::opcodes::OpCode;

fn machine_with(rom: &[u8]) -> Interpreter {
    let mut interpreter = Interpreter::new();
    interpreter.load_rom(&rom.to_vec()).unwrap();
    interpreter
}

fn run(interpreter: &mut Interpreter, steps: usize) -> Vec<Effect> {
    let keypad = Keypad::new();
    let mut effects = Vec::new();
    for _ in 0..steps {
        effects.push(interpreter.cpu_step(&keypad, 0).unwrap());
    }
    effects
}

fn lit_pixels(interpreter: &Interpreter) -> Vec<(usize, usize)> {
    let mut lit = Vec::new();
    for row in 0..32 {
        for col in 0..64 {
            if interpreter.display.grid().at(row, col).unwrap() {
                lit.push((row, col));
            }
        }
    }
    lit
}

fn registers_of(interpreter: &Interpreter) -> Vec<u8> {
    (0..16u8).map(|index| interpreter.registers.get(index)).collect()
}

#[test]
fn test_load_rom() {
    let mut interpreter = Interpreter::new();

    // An image that cannot be loaded is refused.
    let invalid_load_result = interpreter.load_rom(&vec![0u8; 3585]);
    assert!(invalid_load_result.is_err());
    assert_eq!(invalid_load_result, Err(VmError::ProgramTooLarge { size: 3585 }));
    assert!(interpreter.ram.peek()[512..].iter().all(|&byte| byte == 0));

    assert_eq!(interpreter.load_rom(&vec![0x12, 0x00]), Ok(()));
    assert_eq!(&interpreter.ram.peek()[512..515], &[0x12, 0x00, 0x00]);
    assert_eq!(&interpreter.ram.peek()[..80], &DEFAULT_SPRITES[..]);
}

#[test]
fn test_cpu_cycle() {
    let mut interpreter = Interpreter::new();
    let keypad = Keypad::new();

    let report = interpreter.cpu_cycle(0, &keypad, 0).unwrap();
    assert_eq!(report, CycleReport { step: Effect::Nothing, tick: Effect::Nothing });
    assert_eq!(interpreter.pc.value(), 512);
}

#[test]
fn cpu_cycle_paces_steps_and_ticks() {
    // V0 := 3, sound timer := V0, then a jump to itself.
    let mut interpreter = machine_with(&[0x60, 0x03, 0xF0, 0x18, 0x12, 0x04]);
    let keypad = Keypad::new();
    let milli = 1_000_000u64;

    // The first pass only starts both measurements.
    let first = interpreter.cpu_cycle(0, &keypad, 0).unwrap();
    assert_eq!(first, CycleReport { step: Effect::Nothing, tick: Effect::Nothing });
    assert_eq!(interpreter.pc.value(), 512);

    // One millisecond later neither period has gone by.
    let early = interpreter.cpu_cycle(milli, &keypad, 0).unwrap();
    assert_eq!(early, CycleReport { step: Effect::Nothing, tick: Effect::Nothing });
    assert_eq!(interpreter.pc.value(), 512);

    // After two milliseconds an instruction runs, the timers wait.
    let second = interpreter.cpu_cycle(2 * milli, &keypad, 0).unwrap();
    assert_eq!(second, CycleReport { step: Effect::Nothing, tick: Effect::Nothing });
    assert_eq!(interpreter.pc.value(), 514);
    assert_eq!(interpreter.registers.get(0), 3);

    let third = interpreter.cpu_cycle(4 * milli, &keypad, 0).unwrap();
    assert_eq!(third, CycleReport { step: Effect::ToneOn, tick: Effect::Nothing });
    assert_eq!(interpreter.sound_timer.get_value(), 3);

    // After sixteen milliseconds the timers tick as well.
    let fourth = interpreter.cpu_cycle(16 * milli, &keypad, 0).unwrap();
    assert_eq!(fourth, CycleReport { step: Effect::Nothing, tick: Effect::Nothing });
    assert_eq!(interpreter.sound_timer.get_value(), 2);
    assert_eq!(interpreter.pc.value(), 516);

    let fifth = interpreter.cpu_cycle(32 * milli, &keypad, 0).unwrap();
    assert_eq!(fifth.tick, Effect::Nothing);
    assert_eq!(interpreter.sound_timer.get_value(), 1);
    let sixth = interpreter.cpu_cycle(48 * milli, &keypad, 0).unwrap();
    assert_eq!(sixth, CycleReport { step: Effect::Nothing, tick: Effect::ToneOff });
    assert_eq!(interpreter.sound_timer.get_value(), 0);
    let seventh = interpreter.cpu_cycle(64 * milli, &keypad, 0).unwrap();
    assert_eq!(seventh.tick, Effect::Nothing);
}

#[test]
fn cpu_cycle_reports_a_failing_step() {
    let mut interpreter = machine_with(&[0x01, 0x23]);
    let keypad = Keypad::new();
    assert!(interpreter.cpu_cycle(0, &keypad, 0).is_ok());
    assert_eq!(
        interpreter.cpu_cycle(20_000_000, &keypad, 0),
        Err(VmError::UnsupportedInstruction { target: 0x123 })
    );
    assert_eq!(interpreter.pc.value(), 512);
}

#[test]
fn new_machine() {
    let interpreter = Interpreter::new();
    assert_eq!(interpreter.pc.value(), 512);
    assert_eq!(registers_of(&interpreter), vec![0; 16]);
    assert_eq!(interpreter.registers.address(), 0);
    assert_eq!(interpreter.delay_timer.get_value(), 0);
    assert_eq!(interpreter.sound_timer.get_value(), 0);
    assert!(lit_pixels(&interpreter).is_empty());
    assert_eq!(&interpreter.ram.peek()[..80], &DEFAULT_SPRITES[..]);
    assert!(interpreter.ram.peek()[80..].iter().all(|&byte| byte == 0));
    assert!(!interpreter.index_flag);
}

#[test]
fn draws_the_glyph_of_two() {
    let mut interpreter = machine_with(&[0x6A, 0x02, 0xFA, 0x29, 0xD0, 0xA5]);
    let effects = run(&mut interpreter, 3);
    assert_eq!(effects, vec![Effect::Nothing, Effect::Nothing, Effect::Redraw]);

    assert_eq!(interpreter.registers.get(0xA), 2);
    assert_eq!(interpreter.registers.address(), 10);
    assert_eq!(interpreter.registers.get(0xF), 0);
    assert_eq!(interpreter.pc.value(), 518);

    let glyph = [0xF0u8, 0x10, 0xF0, 0x80, 0xF0];
    assert_eq!(&DEFAULT_SPRITES[10..15], &glyph[..]);
    for row in 0..32usize {
        for col in 0..64usize {
            let expected =
                row >= 2 && row < 7 && col < 8 && (glyph[row - 2] >> (7 - col)) & 1 == 1;
            assert_eq!(
                interpreter.display.grid().at(row, col),
                Ok(expected),
                "pixel ({}, {})",
                row,
                col
            );
        }
    }
}

#[test]
fn drawing_twice_clears_and_reports_the_collision() {
    // V1 := 7, I := glyph of V1, draw, draw.
    let mut interpreter =
        machine_with(&[0x61, 0x07, 0xF1, 0x29, 0xD1, 0x15, 0xD1, 0x15]);
    run(&mut interpreter, 3);
    assert_eq!(interpreter.registers.get(0xF), 0);
    assert_eq!(lit_pixels(&interpreter).len(), 8);
    assert!(lit_pixels(&interpreter).contains(&(7, 7)));
    let effects = run(&mut interpreter, 1);
    assert_eq!(effects, vec![Effect::Redraw]);
    assert_eq!(interpreter.registers.get(0xF), 1);
    assert!(lit_pixels(&interpreter).is_empty());
}

#[test]
fn draw_wraps_round_the_grid() {
    // V0 := 62, V1 := 31, I := 0 (glyph of 0), draw two rows.
    let mut interpreter = machine_with(&[0x60, 62, 0x61, 31, 0xA0, 0x00, 0xD0, 0x12]);
    run(&mut interpreter, 4);
    assert_eq!(
        lit_pixels(&interpreter),
        vec![(0, 1), (0, 62), (31, 0), (31, 1), (31, 62), (31, 63)]
    );
}

#[test]
fn draw_of_no_rows_and_beyond_memory() {
    let mut interpreter = Interpreter::new();
    let keypad = Keypad::new();
    interpreter.registers.set_address(0xFFFF);
    assert_eq!(
        execute_opcode(OpCode::_DXYN(0, 0, 0), &mut interpreter, &keypad, 0),
        Ok(Effect::Redraw)
    );
    assert_eq!(
        execute_opcode(OpCode::_DXYN(0, 0, 1), &mut interpreter, &keypad, 0),
        Err(VmError::MemoryOutOfBounds { address: 0xFFFF })
    );
    interpreter.registers.set_address(4090);
    assert_eq!(
        execute_opcode(OpCode::_DXYN(0, 0, 7), &mut interpreter, &keypad, 0),
        Err(VmError::MemoryOutOfBounds { address: 4096 })
    );
    assert_eq!(
        execute_opcode(OpCode::_DXYN(0, 0, 6), &mut interpreter, &keypad, 0),
        Ok(Effect::Redraw)
    );
    assert!(lit_pixels(&interpreter).is_empty());
}

#[test]
fn clear_screen() {
    let mut interpreter = machine_with(&[0xD0, 0x05, 0x00, 0xE0]);
    run(&mut interpreter, 1);
    assert_eq!(lit_pixels(&interpreter).len(), 14);
    assert_eq!(run(&mut interpreter, 1), vec![Effect::Redraw]);
    assert!(lit_pixels(&interpreter).is_empty());
}

#[test]
fn call_and_return() {
    // 0x200: call 0x206; 0x202: V1 := 1; 0x204: jump 0x204; 0x206: V0 := 9; 0x208: return.
    let mut interpreter = machine_with(&[
        0x22, 0x06, 0x61, 0x01, 0x12, 0x04, 0x60, 0x09, 0x00, 0xEE,
    ]);
    run(&mut interpreter, 1);
    assert_eq!(interpreter.pc.value(), 0x206);
    run(&mut interpreter, 2);
    assert_eq!(interpreter.pc.value(), 0x202);
    assert_eq!(interpreter.registers.get(0), 9);
    run(&mut interpreter, 2);
    assert_eq!(interpreter.registers.get(1), 1);
    assert_eq!(interpreter.pc.value(), 0x204);
    run(&mut interpreter, 5);
    assert_eq!(interpreter.pc.value(), 0x204);
}

#[test]
fn return_without_a_call_fails_and_changes_nothing() {
    let mut interpreter = machine_with(&[0x00, 0xEE]);
    let keypad = Keypad::new();
    assert_eq!(interpreter.cpu_step(&keypad, 0), Err(VmError::StackUnderflow));
    assert_eq!(interpreter.pc.value(), 512);
}

#[test]
fn the_sixty_fifth_call_fails_and_changes_nothing() {
    // A subroutine that calls itself.
    let mut interpreter = machine_with(&[0x22, 0x00]);
    let keypad = Keypad::new();
    for _ in 0..64 {
        assert_eq!(interpreter.cpu_step(&keypad, 0), Ok(Effect::Nothing));
        assert_eq!(interpreter.pc.value(), 0x200);
    }
    assert_eq!(interpreter.cpu_step(&keypad, 0), Err(VmError::StackOverflow));
    assert_eq!(interpreter.pc.value(), 0x200);
    for _ in 0..64 {
        assert_eq!(interpreter.stack.pop(), Ok(0x202));
    }
    assert_eq!(interpreter.stack.pop(), Err(VmError::StackUnderflow));
}

#[test]
fn legacy_call_is_refused() {
    let mut interpreter = machine_with(&[0x0A, 0xBC]);
    let keypad = Keypad::new();
    assert_eq!(
        interpreter.cpu_step(&keypad, 0),
        Err(VmError::UnsupportedInstruction { target: 0xABC })
    );
    assert_eq!(interpreter.pc.value(), 512);
}

#[test]
fn undecodable_bytes_fail_and_leave_the_counter() {
    let mut interpreter = machine_with(&[0x60, 0x01, 0xF0, 0xFF]);
    let keypad = Keypad::new();
    assert_eq!(interpreter.cpu_step(&keypad, 0), Ok(Effect::Nothing));
    assert_eq!(
        interpreter.cpu_step(&keypad, 0),
        Err(VmError::Decode { msb: 0xF0, lsb: 0xFF })
    );
    assert_eq!(interpreter.pc.value(), 514);
}

#[test]
fn skips() {
    let keypad = Keypad::new();
    let cases: Vec<(OpCode, bool)> = vec![
        (OpCode::_3XNN(1, 7), true),
        (OpCode::_3XNN(1, 8), false),
        (OpCode::_4XNN(1, 7), false),
        (OpCode::_4XNN(1, 8), true),
        (OpCode::_5XY0(1, 2), true),
        (OpCode::_5XY0(1, 3), false),
        (OpCode::_9XY0(1, 2), false),
        (OpCode::_9XY0(1, 3), true),
        (OpCode::_EX9E(1), false),
        (OpCode::_EXA1(1), true),
    ];
    for (opcode, skipped) in cases {
        let mut interpreter = Interpreter::new();
        interpreter.registers.set(1, 7);
        interpreter.registers.set(2, 7);
        interpreter.registers.set(3, 9);
        assert_eq!(execute_opcode(opcode, &mut interpreter, &keypad, 0), Ok(Effect::Nothing));
        assert_eq!(interpreter.pc.value(), if skipped { 514 } else { 512 }, "{:?}", opcode);
    }
}

#[test]
fn key_skips() {
    let mut keypad = Keypad::new();
    keypad.set_key(7, true);
    let mut interpreter = Interpreter::new();
    interpreter.registers.set(1, 7);
    interpreter.registers.set(2, 8);
    interpreter.registers.set(3, 7 + 16);
    assert_eq!(execute_opcode(OpCode::_EX9E(1), &mut interpreter, &keypad, 0), Ok(Effect::Nothing));
    assert_eq!(interpreter.pc.value(), 514);
    assert_eq!(execute_opcode(OpCode::_EX9E(2), &mut interpreter, &keypad, 0), Ok(Effect::Nothing));
    assert_eq!(interpreter.pc.value(), 514);
    assert_eq!(execute_opcode(OpCode::_EXA1(1), &mut interpreter, &keypad, 0), Ok(Effect::Nothing));
    assert_eq!(interpreter.pc.value(), 514);
    assert_eq!(execute_opcode(OpCode::_EXA1(2), &mut interpreter, &keypad, 0), Ok(Effect::Nothing));
    assert_eq!(interpreter.pc.value(), 516);
    // A register that names no key: the key is not held down.
    assert_eq!(execute_opcode(OpCode::_EX9E(3), &mut interpreter, &keypad, 0), Ok(Effect::Nothing));
    assert_eq!(interpreter.pc.value(), 516);
    assert_eq!(execute_opcode(OpCode::_EXA1(3), &mut interpreter, &keypad, 0), Ok(Effect::Nothing));
    assert_eq!(interpreter.pc.value(), 518);
}

#[test]
fn a_skip_out_of_memory_fails() {
    let keypad = Keypad::new();
    let mut interpreter = Interpreter::new();
    interpreter.pc.jump(4094).unwrap();
    assert_eq!(
        execute_opcode(OpCode::_3XNN(0, 0), &mut interpreter, &keypad, 0),
        Err(VmError::CounterOutOfBounds)
    );
    assert_eq!(interpreter.pc.value(), 4094);
    assert_eq!(
        execute_opcode(OpCode::_3XNN(0, 1), &mut interpreter, &keypad, 0),
        Ok(Effect::Nothing)
    );
    interpreter.pc.jump(4093).unwrap();
    assert_eq!(
        execute_opcode(OpCode::_3XNN(0, 0), &mut interpreter, &keypad, 0),
        Ok(Effect::Nothing)
    );
    assert_eq!(interpreter.pc.value(), 4095);
}

#[test]
fn a_fetch_at_the_end_of_memory_fails() {
    let keypad = Keypad::new();
    let mut interpreter = Interpreter::new();
    interpreter.pc.jump(4094).unwrap();
    assert_eq!(interpreter.extract_opcode_bytes(), Err(VmError::CounterOutOfBounds));
    assert_eq!(interpreter.pc.value(), 4094);
    assert_eq!(interpreter.cpu_step(&keypad, 0), Err(VmError::CounterOutOfBounds));
    assert_eq!(interpreter.pc.value(), 4094);
    interpreter.pc.jump(4092).unwrap();
    interpreter.ram.write(4092, 0x6B).unwrap();
    interpreter.ram.write(4093, 0x2A).unwrap();
    assert_eq!(interpreter.extract_opcode_bytes(), Ok((0x6B, 0x2A)));
    assert_eq!(interpreter.pc.value(), 4094);
}

#[test]
fn moves_and_logic() {
    let mut interpreter = machine_with(&[
        0x61, 0b1100, // V1 := 12
        0x62, 0b1010, // V2 := 10
        0x83, 0x10, // V3 := V1
        0x83, 0x21, // V3 |= V2
        0x84, 0x10, // V4 := V1
        0x84, 0x22, // V4 &= V2
        0x85, 0x10, // V5 := V1
        0x85, 0x23, // V5 ^= V2
        0x76, 0xFF, // V6 += 255
        0x76, 0x02, // V6 += 2
    ]);
    run(&mut interpreter, 10);
    let registers = registers_of(&interpreter);
    assert_eq!(&registers[1..7], &[12, 10, 0b1110, 0b1000, 0b0110, 1]);
    // An immediate addition leaves the flag register alone.
    assert_eq!(registers[15], 0);
}

#[test]
fn arithmetic_flags() {
    let keypad = Keypad::new();
    let mut interpreter = Interpreter::new();
    interpreter.registers.set(1, 255);
    interpreter.registers.set(2, 1);
    assert!(execute_opcode(OpCode::_8XY4(1, 2), &mut interpreter, &keypad, 0).is_ok());
    assert_eq!(interpreter.registers.get(1), 0);
    assert_eq!(interpreter.registers.get(15), 1);
    assert!(execute_opcode(OpCode::_8XY4(1, 2), &mut interpreter, &keypad, 0).is_ok());
    assert_eq!(interpreter.registers.get(1), 1);
    assert_eq!(interpreter.registers.get(15), 0);

    // Subtraction sets the flag when no borrow occurs.
    interpreter.registers.set(1, 0);
    assert!(execute_opcode(OpCode::_8XY5(1, 2), &mut interpreter, &keypad, 0).is_ok());
    assert_eq!(interpreter.registers.get(1), 255);
    assert_eq!(interpreter.registers.get(15), 0);
    assert!(execute_opcode(OpCode::_8XY5(1, 2), &mut interpreter, &keypad, 0).is_ok());
    assert_eq!(interpreter.registers.get(1), 254);
    assert_eq!(interpreter.registers.get(15), 1);
    interpreter.registers.set(3, 254);
    assert!(execute_opcode(OpCode::_8XY5(1, 3), &mut interpreter, &keypad, 0).is_ok());
    assert_eq!(interpreter.registers.get(1), 0);
    assert_eq!(interpreter.registers.get(15), 1);

    // The reversed subtraction: V4 := V5 - V4.
    interpreter.registers.set(4, 10);
    interpreter.registers.set(5, 3);
    assert!(execute_opcode(OpCode::_8XY7(4, 5), &mut interpreter, &keypad, 0).is_ok());
    assert_eq!(interpreter.registers.get(4), 249);
    assert_eq!(interpreter.registers.get(5), 3);
    assert_eq!(interpreter.registers.get(15), 0);
    interpreter.registers.set(4, 3);
    interpreter.registers.set(5, 10);
    assert!(execute_opcode(OpCode::_8XY7(4, 5), &mut interpreter, &keypad, 0).is_ok());
    assert_eq!(interpreter.registers.get(4), 7);
    assert_eq!(interpreter.registers.get(15), 1);
    assert!(execute_opcode(OpCode::_8XY7(5, 5), &mut interpreter, &keypad, 0).is_ok());
    assert_eq!(interpreter.registers.get(5), 0);
    assert_eq!(interpreter.registers.get(15), 1);

    // Shifts report the bit that left the register.
    interpreter.registers.set(6, 0b1000_0011);
    assert!(execute_opcode(OpCode::_8XY6(6, 0), &mut interpreter, &keypad, 0).is_ok());
    assert_eq!(interpreter.registers.get(6), 0b0100_0001);
    assert_eq!(interpreter.registers.get(15), 1);
    interpreter.registers.set(6, 0b1000_0010);
    assert!(execute_opcode(OpCode::_8XYE(6, 0), &mut interpreter, &keypad, 0).is_ok());
    assert_eq!(interpreter.registers.get(6), 0b0000_0100);
    assert_eq!(interpreter.registers.get(15), 1);
    assert!(execute_opcode(OpCode::_8XYE(6, 0), &mut interpreter, &keypad, 0).is_ok());
    assert_eq!(interpreter.registers.get(6), 0b0000_1000);
    assert_eq!(interpreter.registers.get(15), 0);
}

#[test]
fn the_flag_wins_in_the_flag_register() {
    let keypad = Keypad::new();
    let mut interpreter = Interpreter::new();
    interpreter.registers.set(15, 200);
    interpreter.registers.set(1, 100);
    assert!(execute_opcode(OpCode::_8XY4(15, 1), &mut interpreter, &keypad, 0).is_ok());
    assert_eq!(interpreter.registers.get(15), 1);
    interpreter.registers.set(15, 20);
    assert!(execute_opcode(OpCode::_8XY4(15, 1), &mut interpreter, &keypad, 0).is_ok());
    assert_eq!(interpreter.registers.get(15), 0);
    interpreter.registers.set(15, 0b11);
    assert!(execute_opcode(OpCode::_8XY6(15, 1), &mut interpreter, &keypad, 0).is_ok());
    assert_eq!(interpreter.registers.get(15), 1);
}

#[test]
fn jumps() {
    let keypad = Keypad::new();
    let mut interpreter = Interpreter::new();
    assert!(execute_opcode(OpCode::_1NNN(0xFFF), &mut interpreter, &keypad, 0).is_ok());
    assert_eq!(interpreter.pc.value(), 0xFFF);
    assert!(execute_opcode(OpCode::_1NNN(0x000), &mut interpreter, &keypad, 0).is_ok());
    assert_eq!(interpreter.pc.value(), 0);
    interpreter.registers.set(0, 0x10);
    assert!(execute_opcode(OpCode::_BNNN(0x300), &mut interpreter, &keypad, 0).is_ok());
    assert_eq!(interpreter.pc.value(), 0x310);
    interpreter.registers.set(0, 0xFF);
    assert_eq!(
        execute_opcode(OpCode::_BNNN(0xF01), &mut interpreter, &keypad, 0),
        Err(VmError::CounterOutOfBounds)
    );
    assert_eq!(interpreter.pc.value(), 0x310);
    assert!(execute_opcode(OpCode::_BNNN(0xF00), &mut interpreter, &keypad, 0).is_ok());
    assert_eq!(interpreter.pc.value(), 0xFFF);
}

#[test]
fn random_byte_is_masked() {
    let keypad = Keypad::new();
    let mut interpreter = Interpreter::new();
    assert!(execute_opcode(OpCode::_CXNN(3, 0x0F), &mut interpreter, &keypad, 0xA7).is_ok());
    assert_eq!(interpreter.registers.get(3), 0x07);
    assert!(execute_opcode(OpCode::_CXNN(3, 0xF0), &mut interpreter, &keypad, 0xA7).is_ok());
    assert_eq!(interpreter.registers.get(3), 0xA0);
    assert!(execute_opcode(OpCode::_CXNN(3, 0x00), &mut interpreter, &keypad, 0xA7).is_ok());
    assert_eq!(interpreter.registers.get(3), 0);
}

#[test]
fn waiting_for_a_key() {
    // 0x200: V5 := key; 0x202: V6 := 1.
    let mut interpreter = machine_with(&[0xF5, 0x0A, 0x66, 0x01]);
    let mut keypad = Keypad::new();
    interpreter.delay_timer.set_value(9);
    for _ in 0..3 {
        assert_eq!(interpreter.cpu_step(&keypad, 0), Ok(Effect::AwaitKey));
        assert_eq!(interpreter.pc.value(), 0x200);
        assert_eq!(interpreter.registers.get(5), 0);
        // The timers go on while the machine waits.
        interpreter.tick_timers();
    }
    assert_eq!(interpreter.delay_timer.get_value(), 6);
    keypad.set_key(0xB, true);
    keypad.set_key(0xD, true);
    assert_eq!(interpreter.cpu_step(&keypad, 0), Ok(Effect::Nothing));
    assert_eq!(interpreter.registers.get(5), 0xB);
    assert_eq!(interpreter.pc.value(), 0x202);
    assert_eq!(interpreter.cpu_step(&keypad, 0), Ok(Effect::Nothing));
    assert_eq!(interpreter.registers.get(6), 1);
}

#[test]
fn timers_and_tone() {
    let keypad = Keypad::new();
    let mut interpreter = Interpreter::new();
    interpreter.registers.set(1, 2);
    assert_eq!(execute_opcode(OpCode::_FX15(1), &mut interpreter, &keypad, 0), Ok(Effect::Nothing));
    assert_eq!(interpreter.delay_timer.get_value(), 2);
    assert_eq!(execute_opcode(OpCode::_FX18(1), &mut interpreter, &keypad, 0), Ok(Effect::ToneOn));
    assert_eq!(execute_opcode(OpCode::_FX18(1), &mut interpreter, &keypad, 0), Ok(Effect::Nothing));
    assert_eq!(interpreter.sound_timer.get_value(), 2);
    assert_eq!(execute_opcode(OpCode::_FX07(4), &mut interpreter, &keypad, 0), Ok(Effect::Nothing));
    assert_eq!(interpreter.registers.get(4), 2);

    assert_eq!(interpreter.tick_timers(), Effect::Nothing);
    assert_eq!(interpreter.delay_timer.get_value(), 1);
    assert_eq!(interpreter.sound_timer.get_value(), 1);
    assert_eq!(interpreter.tick_timers(), Effect::ToneOff);
    assert_eq!(interpreter.delay_timer.get_value(), 0);
    assert_eq!(interpreter.sound_timer.get_value(), 0);
    assert_eq!(interpreter.tick_timers(), Effect::Nothing);

    // Setting a running sound timer to zero stops the tone at once.
    assert_eq!(execute_opcode(OpCode::_FX18(1), &mut interpreter, &keypad, 0), Ok(Effect::ToneOn));
    assert_eq!(execute_opcode(OpCode::_FX18(2), &mut interpreter, &keypad, 0), Ok(Effect::ToneOff));
    assert_eq!(execute_opcode(OpCode::_FX18(2), &mut interpreter, &keypad, 0), Ok(Effect::Nothing));
}

#[test]
fn address_register() {
    let keypad = Keypad::new();
    let mut interpreter = Interpreter::new();
    assert!(execute_opcode(OpCode::_ANNN(0xFFF), &mut interpreter, &keypad, 0).is_ok());
    assert_eq!(interpreter.registers.address(), 0xFFF);
    interpreter.registers.set(1, 0xFF);
    assert!(execute_opcode(OpCode::_FX1E(1), &mut interpreter, &keypad, 0).is_ok());
    assert_eq!(interpreter.registers.address(), 0x10FE);

    // Without the option an overflow leaves the flag register alone.
    interpreter.registers.set_address(0xFFFF);
    interpreter.registers.set(15, 7);
    assert!(execute_opcode(OpCode::_FX1E(1), &mut interpreter, &keypad, 0).is_ok());
    assert_eq!(interpreter.registers.address(), 0x00FE);
    assert_eq!(interpreter.registers.get(15), 7);

    // With it the flag register reports the overflow.
    interpreter.set_index_flag(true);
    assert!(execute_opcode(OpCode::_FX1E(1), &mut interpreter, &keypad, 0).is_ok());
    assert_eq!(interpreter.registers.address(), 0x01FD);
    assert_eq!(interpreter.registers.get(15), 0);
    interpreter.registers.set_address(0xFF01);
    assert!(execute_opcode(OpCode::_FX1E(1), &mut interpreter, &keypad, 0).is_ok());
    assert_eq!(interpreter.registers.address(), 0x0000);
    assert_eq!(interpreter.registers.get(15), 1);
}

#[test]
fn glyph_addresses() {
    let keypad = Keypad::new();
    let mut interpreter = Interpreter::new();
    for digit in 0..16u8 {
        interpreter.registers.set(2, digit);
        assert!(execute_opcode(OpCode::_FX29(2), &mut interpreter, &keypad, 0).is_ok());
        assert_eq!(interpreter.registers.address(), 5 * digit as u16);
    }
    // Only the low nibble names the digit.
    interpreter.registers.set(2, 0x3C);
    assert!(execute_opcode(OpCode::_FX29(2), &mut interpreter, &keypad, 0).is_ok());
    assert_eq!(interpreter.registers.address(), 60);
}

#[test]
fn decimal_digits() {
    let keypad = Keypad::new();
    let mut interpreter = Interpreter::new();
    interpreter.registers.set(3, 254);
    interpreter.registers.set_address(0x300);
    assert_eq!(execute_opcode(OpCode::_FX33(3), &mut interpreter, &keypad, 0), Ok(Effect::Nothing));
    assert_eq!(&interpreter.ram.peek()[0x2FF..0x304], &[0, 2, 5, 4, 0]);
    interpreter.registers.set(3, 7);
    assert!(execute_opcode(OpCode::_FX33(3), &mut interpreter, &keypad, 0).is_ok());
    assert_eq!(&interpreter.ram.peek()[0x300..0x303], &[0, 0, 7]);

    interpreter.registers.set_address(4093);
    assert!(execute_opcode(OpCode::_FX33(3), &mut interpreter, &keypad, 0).is_ok());
    assert_eq!(&interpreter.ram.peek()[4093..], &[0, 0, 7]);
    interpreter.registers.set_address(4094);
    assert_eq!(
        execute_opcode(OpCode::_FX33(3), &mut interpreter, &keypad, 0),
        Err(VmError::MemoryOutOfBounds { address: 4096 })
    );
    assert_eq!(&interpreter.ram.peek()[4093..], &[0, 0, 7]);
    interpreter.registers.set_address(5000);
    assert_eq!(
        execute_opcode(OpCode::_FX33(3), &mut interpreter, &keypad, 0),
        Err(VmError::MemoryOutOfBounds { address: 5000 })
    );
    // The system region is never written.
    interpreter.registers.set_address(511);
    assert_eq!(
        execute_opcode(OpCode::_FX33(3), &mut interpreter, &keypad, 0),
        Err(VmError::MemoryOutOfBounds { address: 511 })
    );
    assert_eq!(&interpreter.ram.peek()[511..514], &[0, 0, 0]);
}

#[test]
fn store_and_load_registers() {
    let keypad = Keypad::new();
    let mut interpreter = Interpreter::new();
    for index in 0..16u8 {
        interpreter.registers.set(index, 100 + index);
    }
    interpreter.registers.set_address(0x400);
    assert_eq!(execute_opcode(OpCode::_FX55(3), &mut interpreter, &keypad, 0), Ok(Effect::Nothing));
    assert_eq!(&interpreter.ram.peek()[0x3FF..0x405], &[0, 100, 101, 102, 103, 0]);
    assert_eq!(interpreter.registers.address(), 0x400);

    for index in 0..16u8 {
        interpreter.registers.set(index, 0);
    }
    interpreter.registers.set_address(0x401);
    assert_eq!(execute_opcode(OpCode::_FX65(1), &mut interpreter, &keypad, 0), Ok(Effect::Nothing));
    assert_eq!(&registers_of(&interpreter)[..4], &[101, 102, 0, 0]);

    // Registers can be loaded from the system region.
    interpreter.registers.set_address(0);
    assert!(execute_opcode(OpCode::_FX65(15), &mut interpreter, &keypad, 0).is_ok());
    assert_eq!(&registers_of(&interpreter)[..], &DEFAULT_SPRITES[..16]);

    // A range that leaves the memory is refused, and nothing changes.
    interpreter.registers.set_address(4090);
    assert_eq!(
        execute_opcode(OpCode::_FX65(6), &mut interpreter, &keypad, 0),
        Err(VmError::MemoryOutOfBounds { address: 4096 })
    );
    assert_eq!(&registers_of(&interpreter)[..], &DEFAULT_SPRITES[..16]);
    assert_eq!(
        execute_opcode(OpCode::_FX55(6), &mut interpreter, &keypad, 0),
        Err(VmError::MemoryOutOfBounds { address: 4096 })
    );
    assert!(interpreter.ram.peek()[4090..].iter().all(|&byte| byte == 0));
    assert!(execute_opcode(OpCode::_FX55(5), &mut interpreter, &keypad, 0).is_ok());
    assert_eq!(&interpreter.ram.peek()[4090..], &DEFAULT_SPRITES[..6]);
    interpreter.registers.set_address(510);
    assert_eq!(
        execute_opcode(OpCode::_FX55(5), &mut interpreter, &keypad, 0),
        Err(VmError::MemoryOutOfBounds { address: 510 })
    );
    assert_eq!(&interpreter.ram.peek()[510..516], &[0, 0, 0, 0, 0, 0]);
}
