use vstd::prelude::*;
use crate::display::grid::GRID_SIZE;
use crate::error::VmError;
use crate::input::{lowest_pressed, Keypad};
use crate::interpreter::semantics::{
    agrees, executed, first_unwritable, flag, lowest_key, skip_if, sprite_rows, Effect,
    MachineState,
};
use crate::interpreter::{tone_request, Interpreter};
use crate::memory::{BEGIN_PROGRAM_RAM, SPRITE_HEIGHT, SYSTEM_RAM_SIZE};
use crate::opcodes::OpCode;
use crate::registers::{wrapped_difference, FLAG_REGISTER};

verus! {

/// Executes one decoded instruction. The program counter already names the
/// instruction after it. An instruction that fails changes nothing.
pub fn execute_opcode(
    opcode: OpCode,
    interpreter: &mut Interpreter,
    keypad: &Keypad,
    random: u8,
) -> (r: Result<Effect, VmError>)
    requires
        old(interpreter).wf(),
        opcode.wf(),
    ensures
        final(interpreter).wf(),
        final(interpreter).settings() == old(interpreter).settings(),
        agrees(
            old(interpreter)@,
            final(interpreter)@,
            r,
            executed(old(interpreter)@, opcode, keypad@, random, old(interpreter).index_flag),
        ),
{
    proof {
        keypad.lemma_len();
    }
    match opcode {
        OpCode::_0NNN(nnn) => execute_0NNN(interpreter, nnn),
        OpCode::_00EE => execute_00EE(interpreter),
        OpCode::_00E0 => execute_00E0(interpreter),
        OpCode::_1NNN(nnn) => {
            let _ = interpreter.pc.jump(nnn as usize);
            Ok(Effect::Nothing)
        },
        OpCode::_2NNN(nnn) => execute_2NNN(interpreter, nnn),
        OpCode::_3XNN(x, nn) => {
            let condition = interpreter.registers.get(x) == nn;
            skip(interpreter, condition)
        },
        OpCode::_4XNN(x, nn) => {
            let condition = interpreter.registers.get(x) != nn;
            skip(interpreter, condition)
        },
        OpCode::_5XY0(x, y) => {
            let condition = interpreter.registers.get(x) == interpreter.registers.get(y);
            skip(interpreter, condition)
        },
        OpCode::_9XY0(x, y) => {
            let condition = interpreter.registers.get(x) != interpreter.registers.get(y);
            skip(interpreter, condition)
        },
        OpCode::_6XNN(x, nn) => {
            interpreter.registers.set(x, nn);
            Ok(Effect::Nothing)
        },
        OpCode::_7XNN(x, nn) => {
            let _ = interpreter.registers.add(x, nn);
            Ok(Effect::Nothing)
        },
        OpCode::_8XY0(_, _)
        | OpCode::_8XY1(_, _)
        | OpCode::_8XY2(_, _)
        | OpCode::_8XY3(_, _)
        | OpCode::_8XY4(_, _)
        | OpCode::_8XY5(_, _)
        | OpCode::_8XY6(_, _)
        | OpCode::_8XY7(_, _)
        | OpCode::_8XYE(_, _) => execute_arithmetic(interpreter, opcode),
        OpCode::_ANNN(nnn) => {
            interpreter.registers.set_address(nnn);
            Ok(Effect::Nothing)
        },
        OpCode::_BNNN(nnn) => {
            let target = nnn as usize + interpreter.registers.get(0) as usize;
            match interpreter.pc.jump(target) {
                Ok(()) => Ok(Effect::Nothing),
                Err(e) => Err(e),
            }
        },
        OpCode::_CXNN(x, nn) => {
            interpreter.registers.set(x, random & nn);
            Ok(Effect::Nothing)
        },
        OpCode::_DXYN(x, y, n) => execute_DXYN(interpreter, x, y, n),
        OpCode::_EX9E(x) => {
            let condition = keypad.is_key_pressed(interpreter.registers.get(x));
            skip(interpreter, condition)
        },
        OpCode::_EXA1(x) => {
            let condition = !keypad.is_key_pressed(interpreter.registers.get(x));
            skip(interpreter, condition)
        },
        OpCode::_FX07(x) => {
            let value = interpreter.delay_timer.get_value();
            interpreter.registers.set(x, value);
            Ok(Effect::Nothing)
        },
        OpCode::_FX0A(x) => execute_FX0A(interpreter, keypad, x),
        OpCode::_FX15(x) => {
            let value = interpreter.registers.get(x);
            let _ = interpreter.delay_timer.set_value(value);
            Ok(Effect::Nothing)
        },
        OpCode::_FX18(x) => {
            let value = interpreter.registers.get(x);
            let status = interpreter.sound_timer.set_value(value);
            Ok(tone_request(status))
        },
        OpCode::_FX1E(x) => {
            let value = interpreter.registers.get(x);
            let overflow = interpreter.registers.add_address(value as u16);
            if interpreter.index_flag {
                interpreter.registers.set(FLAG_REGISTER, flag_byte(overflow));
            }
            Ok(Effect::Nothing)
        },
        OpCode::_FX29(x) => {
            let digit = interpreter.registers.get(x) % 16;
            interpreter.registers.set_address(SPRITE_HEIGHT as u16 * (digit as u16));
            Ok(Effect::Nothing)
        },
        OpCode::_FX33(x) => execute_FX33(interpreter, x),
        OpCode::_FX55(x) => execute_FX55(interpreter, x),
        OpCode::_FX65(x) => execute_FX65(interpreter, x),
    }
}

/// 1 for true, 0 for false.
pub fn flag_byte(condition: bool) -> (byte: u8)
    ensures
        byte == flag(condition),
{
    if condition {
        1
    } else {
        0
    }
}

/// Moves the program counter past the next instruction if `condition`
/// holds.
fn skip(interpreter: &mut Interpreter, condition: bool) -> (r: Result<Effect, VmError>)
    requires
        old(interpreter).wf(),
    ensures
        final(interpreter).wf(),
        final(interpreter).settings() == old(interpreter).settings(),
        agrees(old(interpreter)@, final(interpreter)@, r, skip_if(old(interpreter)@, condition)),
{
    if condition {
        match interpreter.pc.advance(Some(2)) {
            Ok(()) => Ok(Effect::Nothing),
            Err(e) => Err(e),
        }
    } else {
        Ok(Effect::Nothing)
    }
}

/// The legacy machine-code call: always refused.
#[allow(non_snake_case)]
fn execute_0NNN(interpreter: &mut Interpreter, nnn: u16) -> (r: Result<Effect, VmError>)
    ensures
        r == Err::<Effect, VmError>(VmError::UnsupportedInstruction { target: nnn }),
        *final(interpreter) == *old(interpreter),
{
    Err(VmError::UnsupportedInstruction { target: nnn })
}

/// Return from a subroutine.
#[allow(non_snake_case)]
fn execute_00EE(interpreter: &mut Interpreter) -> (r: Result<Effect, VmError>)
    requires
        old(interpreter).wf(),
    ensures
        final(interpreter).wf(),
        final(interpreter).settings() == old(interpreter).settings(),
        agrees(
            old(interpreter)@,
            final(interpreter)@,
            r,
            executed(old(interpreter)@, OpCode::_00EE, Seq::empty(), 0, false),
        ),
{
    match interpreter.stack.pop() {
        Ok(address) => {
            let _ = interpreter.pc.jump(address as usize);
            Ok(Effect::Nothing)
        },
        Err(e) => Err(e),
    }
}

/// Clear the screen.
#[allow(non_snake_case)]
fn execute_00E0(interpreter: &mut Interpreter) -> (r: Result<Effect, VmError>)
    requires
        old(interpreter).wf(),
    ensures
        final(interpreter).wf(),
        final(interpreter).settings() == old(interpreter).settings(),
        agrees(
            old(interpreter)@,
            final(interpreter)@,
            r,
            executed(old(interpreter)@, OpCode::_00E0, Seq::empty(), 0, false),
        ),
{
    interpreter.display.clear();
    assert(interpreter.display@ =~= Seq::new(GRID_SIZE as nat, |p: int| false));
    Ok(Effect::Redraw)
}

/// Call a subroutine.
#[allow(non_snake_case)]
fn execute_2NNN(interpreter: &mut Interpreter, nnn: u16) -> (r: Result<Effect, VmError>)
    requires
        old(interpreter).wf(),
        nnn < 4096,
    ensures
        final(interpreter).wf(),
        final(interpreter).settings() == old(interpreter).settings(),
        agrees(
            old(interpreter)@,
            final(interpreter)@,
            r,
            executed(old(interpreter)@, OpCode::_2NNN(nnn), Seq::empty(), 0, false),
        ),
{
    let return_address = interpreter.pc.value() as u16;
    match interpreter.stack.push(return_address) {
        Ok(()) => {
            let _ = interpreter.pc.jump(nnn as usize);
            Ok(Effect::Nothing)
        },
        Err(e) => Err(e),
    }
}

/// The instructions of the family 8: register-to-register moves, logic,
/// arithmetic and shifts.
fn execute_arithmetic(interpreter: &mut Interpreter, opcode: OpCode) -> (r: Result<Effect, VmError>)
    requires
        old(interpreter).wf(),
        opcode.wf(),
        opcode is _8XY0 || opcode is _8XY1 || opcode is _8XY2 || opcode is _8XY3 || opcode is _8XY4
            || opcode is _8XY5 || opcode is _8XY6 || opcode is _8XY7 || opcode is _8XYE,
    ensures
        final(interpreter).wf(),
        final(interpreter).settings() == old(interpreter).settings(),
        agrees(
            old(interpreter)@,
            final(interpreter)@,
            r,
            executed(old(interpreter)@, opcode, Seq::empty(), 0, false),
        ),
{
    match opcode {
        OpCode::_8XY0(x, y) => {
            let value = interpreter.registers.get(y);
            interpreter.registers.set(x, value);
        },
        OpCode::_8XY1(x, y) => {
            let value = interpreter.registers.get(x) | interpreter.registers.get(y);
            interpreter.registers.set(x, value);
        },
        OpCode::_8XY2(x, y) => {
            let value = interpreter.registers.get(x) & interpreter.registers.get(y);
            interpreter.registers.set(x, value);
        },
        OpCode::_8XY3(x, y) => {
            let value = interpreter.registers.get(x) ^ interpreter.registers.get(y);
            interpreter.registers.set(x, value);
        },
        OpCode::_8XY4(x, y) => {
            let value = interpreter.registers.get(y);
            let carry = interpreter.registers.add(x, value);
            interpreter.registers.set(FLAG_REGISTER, flag_byte(carry));
        },
        OpCode::_8XY5(x, y) => {
            let value = interpreter.registers.get(y);
            let no_borrow = interpreter.registers.subtract(x, value);
            interpreter.registers.set(FLAG_REGISTER, flag_byte(no_borrow));
        },
        OpCode::_8XY6(x, _) => {
            let bit = interpreter.registers.shift_right(x);
            interpreter.registers.set(FLAG_REGISTER, bit);
        },
        OpCode::_8XY7(x, y) => {
            let minuend = interpreter.registers.get(y);
            let subtrahend = interpreter.registers.get(x);
            interpreter.registers.set(x, minuend);
            let no_borrow = interpreter.registers.subtract(x, subtrahend);
            interpreter.registers.set(FLAG_REGISTER, flag_byte(no_borrow));
            assert(interpreter@.v =~= old(interpreter)@.v.update(
                x as int,
                wrapped_difference(minuend, subtrahend),
            ).update(15, flag(minuend >= subtrahend)));
        },
        OpCode::_8XYE(x, _) => {
            let bit = interpreter.registers.shift_left(x);
            interpreter.registers.set(FLAG_REGISTER, bit);
        },
        _ => {},
    }
    Ok(Effect::Nothing)
}

/// Draw a sprite.
#[allow(non_snake_case)]
fn execute_DXYN(interpreter: &mut Interpreter, x: u8, y: u8, n: u8) -> (r: Result<Effect, VmError>)
    requires
        old(interpreter).wf(),
        x < 16,
        y < 16,
        n < 16,
    ensures
        final(interpreter).wf(),
        final(interpreter).settings() == old(interpreter).settings(),
        agrees(
            old(interpreter)@,
            final(interpreter)@,
            r,
            executed(old(interpreter)@, OpCode::_DXYN(x, y, n), Seq::empty(), 0, false),
        ),
{
    let start = interpreter.registers.address() as usize;
    let count = n as usize;
    if count > 0 && start + count > SYSTEM_RAM_SIZE {
        let address = if start >= SYSTEM_RAM_SIZE {
            start
        } else {
            SYSTEM_RAM_SIZE
        };
        return Err(VmError::MemoryOutOfBounds { address });
    }
    let mut sprite: Vec<u8> = Vec::new();
    let memory = interpreter.ram.peek();
    let mut k: usize = 0;
    assert(sprite@ =~= sprite_rows(memory@, start as int, 0));
    while k < count
        invariant
            k <= count,
            count > 0 ==> start + count <= SYSTEM_RAM_SIZE,
            memory@.len() == SYSTEM_RAM_SIZE,
            sprite@ == sprite_rows(memory@, start as int, k as int),
        decreases count - k,
    {
        sprite.push(memory[start + k]);
        assert(sprite@ =~= sprite_rows(memory@, start as int, k + 1));
        k += 1;
    }
    let row = interpreter.registers.get(y);
    let col = interpreter.registers.get(x);
    let collision = interpreter.display.draw_sprite(row, col, &sprite);
    interpreter.registers.set(FLAG_REGISTER, flag_byte(collision));
    Ok(Effect::Redraw)
}

/// Wait for a key.
#[allow(non_snake_case)]
fn execute_FX0A(interpreter: &mut Interpreter, keypad: &Keypad, x: u8) -> (r: Result<
    Effect,
    VmError,
>)
    requires
        old(interpreter).wf(),
        x < 16,
    ensures
        final(interpreter).wf(),
        final(interpreter).settings() == old(interpreter).settings(),
        agrees(
            old(interpreter)@,
            final(interpreter)@,
            r,
            executed(old(interpreter)@, OpCode::_FX0A(x), keypad@, 0, false),
        ),
{
    match keypad.wait_for_key_pressed() {
        Some(key) => {
            proof {
                let chosen = lowest_key(keypad@);
                assert(lowest_pressed(keypad@, key as int));
                assert(lowest_pressed(keypad@, chosen));
                assert(chosen == key);
            }
            interpreter.registers.set(x, key);
            Ok(Effect::Nothing)
        },
        None => Ok(Effect::AwaitKey),
    }
}

/// Store the three decimal digits of a register.
#[allow(non_snake_case)]
fn execute_FX33(interpreter: &mut Interpreter, x: u8) -> (r: Result<Effect, VmError>)
    requires
        old(interpreter).wf(),
        x < 16,
    ensures
        final(interpreter).wf(),
        final(interpreter).settings() == old(interpreter).settings(),
        agrees(
            old(interpreter)@,
            final(interpreter)@,
            r,
            executed(old(interpreter)@, OpCode::_FX33(x), Seq::empty(), 0, false),
        ),
{
    let start = interpreter.registers.address() as usize;
    if start < BEGIN_PROGRAM_RAM || start + 2 >= SYSTEM_RAM_SIZE {
        return Err(VmError::MemoryOutOfBounds { address: unwritable_address(start) });
    }
    let value = interpreter.registers.get(x);
    let _ = interpreter.ram.write(start, value / 100);
    let _ = interpreter.ram.write(start + 1, (value / 10) % 10);
    let _ = interpreter.ram.write(start + 2, value % 10);
    Ok(Effect::Nothing)
}

/// The first address from `start` on that cannot be written.
fn unwritable_address(start: usize) -> (address: usize)
    ensures
        address == first_unwritable(start as int),
{
    if start < BEGIN_PROGRAM_RAM || start >= SYSTEM_RAM_SIZE {
        start
    } else {
        SYSTEM_RAM_SIZE
    }
}

/// Store the registers V0 to Vx in memory.
#[allow(non_snake_case)]
fn execute_FX55(interpreter: &mut Interpreter, x: u8) -> (r: Result<Effect, VmError>)
    requires
        old(interpreter).wf(),
        x < 16,
    ensures
        final(interpreter).wf(),
        final(interpreter).settings() == old(interpreter).settings(),
        agrees(
            old(interpreter)@,
            final(interpreter)@,
            r,
            executed(old(interpreter)@, OpCode::_FX55(x), Seq::empty(), 0, false),
        ),
{
    let start = interpreter.registers.address() as usize;
    if start < BEGIN_PROGRAM_RAM || start + x as usize >= SYSTEM_RAM_SIZE {
        return Err(VmError::MemoryOutOfBounds { address: unwritable_address(start) });
    }
    let mut k: u8 = 0;
    while k <= x
        invariant
            k <= x + 1,
            x < 16,
            BEGIN_PROGRAM_RAM <= start,
            start + x < SYSTEM_RAM_SIZE,
            interpreter.wf(),
            interpreter.settings() == old(interpreter).settings(),
            interpreter@ == (MachineState { memory: interpreter@.memory, ..old(interpreter)@ }),
            forall|a: int|
                0 <= a < SYSTEM_RAM_SIZE ==> interpreter@.memory[a] == (if start <= a < start + k {
                    old(interpreter)@.v[a - start]
                } else {
                    old(interpreter)@.memory[a]
                }),
        decreases x + 1 - k,
    {
        let value = interpreter.registers.get(k);
        let _ = interpreter.ram.write(start + k as usize, value);
        k += 1;
    }
    proof {
        assert(interpreter@.memory =~= Seq::new(
            SYSTEM_RAM_SIZE as nat,
            |a: int|
                if start <= a <= start + x {
                    old(interpreter)@.v[a - start]
                } else {
                    old(interpreter)@.memory[a]
                },
        ));
    }
    Ok(Effect::Nothing)
}

/// Load the registers V0 to Vx from memory.
#[allow(non_snake_case)]
fn execute_FX65(interpreter: &mut Interpreter, x: u8) -> (r: Result<Effect, VmError>)
    requires
        old(interpreter).wf(),
        x < 16,
    ensures
        final(interpreter).wf(),
        final(interpreter).settings() == old(interpreter).settings(),
        agrees(
            old(interpreter)@,
            final(interpreter)@,
            r,
            executed(old(interpreter)@, OpCode::_FX65(x), Seq::empty(), 0, false),
        ),
{
    let start = interpreter.registers.address() as usize;
    if start + x as usize >= SYSTEM_RAM_SIZE {
        let address = if start >= SYSTEM_RAM_SIZE {
            start
        } else {
            SYSTEM_RAM_SIZE
        };
        return Err(VmError::MemoryOutOfBounds { address });
    }
    let mut k: u8 = 0;
    while k <= x
        invariant
            k <= x + 1,
            x < 16,
            start + x < SYSTEM_RAM_SIZE,
            interpreter.wf(),
            interpreter.settings() == old(interpreter).settings(),
            interpreter@ == (MachineState { v: interpreter@.v, ..old(interpreter)@ }),
            forall|j: int|
                0 <= j < 16 ==> interpreter@.v[j] == (if j < k {
                    old(interpreter)@.memory[start + j]
                } else {
                    old(interpreter)@.v[j]
                }),
        decreases x + 1 - k,
    {
        let value = interpreter.ram.peek()[start + k as usize];
        interpreter.registers.set(k, value);
        k += 1;
    }
    proof {
        assert(interpreter@.v =~= Seq::new(
            16,
            |j: int|
                if j <= x {
                    old(interpreter)@.memory[start + j]
                } else {
                    old(interpreter)@.v[j]
                },
        ));
    }
    Ok(Effect::Nothing)
}

} // verus!
