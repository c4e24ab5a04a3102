use vstd::prelude::*;
use crate::display::grid::{collides, drawn, GRID_SIZE};
use crate::error::VmError;
use crate::input::{lowest_pressed, none_pressed};
use crate::memory::{system_byte, BEGIN_PROGRAM_RAM, SPRITE_HEIGHT, SYSTEM_RAM_SIZE};
use crate::opcodes::{decode, lemma_decode_then_encode, OpCode};
use crate::registers::{wrapped_difference, wrapped_sum, wrapped_sum16};
use crate::stack::STACK_SIZE;
use crate::timer::{ticked, transition, TimerStatus};

verus! {

/// What the machine asks of the world around it after an instruction or a
/// tick of the timers.
#[derive(Clone, Copy, Debug, PartialEq, Eq, Structural)]
pub enum Effect {
    /// Nothing.
    Nothing,
    /// The pixel grid changed and is to be shown.
    Redraw,
    /// The tone is to start.
    ToneOn,
    /// The tone is to stop.
    ToneOff,
    /// The instruction waits for a key: it did nothing and will be fetched
    /// again.
    AwaitKey,
}

/// Everything that instructions read and change.
pub struct MachineState {
    /// The 4096 bytes of memory.
    pub memory: Seq<u8>,
    /// The address of the next instruction.
    pub pc: int,
    /// The registers V0 to VF.
    pub v: Seq<u8>,
    /// The address register.
    pub i: u16,
    /// The return addresses, the oldest first.
    pub stack: Seq<u16>,
    /// The delay timer.
    pub delay: u8,
    /// The sound timer.
    pub sound: u8,
    /// The pixels, row after row.
    pub pixels: Seq<bool>,
}

/// An instruction either leaves a new state and an effect or fails.
pub type Outcome = Result<(MachineState, Effect), VmError>;

/// 1 for true, 0 for false: the form in which a flag is kept in VF.
pub open spec fn flag(condition: bool) -> u8 {
    if condition {
        1
    } else {
        0
    }
}

/// What the tone has to do after the sound timer made this transition: it
/// starts when the timer leaves zero and stops when the timer reaches it.
pub open spec fn tone_effect(status: TimerStatus) -> Effect {
    match status {
        TimerStatus::Started => Effect::ToneOn,
        TimerStatus::End => Effect::ToneOff,
        _ => Effect::Nothing,
    }
}

/// Whether the keys show key `key` as held down. A number that names no key
/// is never held down.
pub open spec fn key_down(keys: Seq<bool>, key: u8) -> bool {
    key < 16 && keys[key as int]
}

/// The lowest key that the keys show as held down.
pub open spec fn lowest_key(keys: Seq<bool>) -> int {
    choose|key: int| lowest_pressed(keys, key)
}

/// The first address of a range that starts at `start` and reaches beyond
/// the memory that cannot be read.
pub open spec fn first_unreadable(start: int) -> usize {
    if start >= SYSTEM_RAM_SIZE {
        start as usize
    } else {
        SYSTEM_RAM_SIZE
    }
}

/// The first address of a range that starts at `start` and is not wholly in
/// the program region that cannot be written.
pub open spec fn first_unwritable(start: int) -> usize {
    if start < BEGIN_PROGRAM_RAM {
        start as usize
    } else {
        first_unreadable(start)
    }
}

/// The `count` bytes of memory from `start` on: the rows of a sprite.
pub open spec fn sprite_rows(memory: Seq<u8>, start: int, count: int) -> Seq<u8> {
    Seq::new(count as nat, |k: int| memory[start + k])
}

/// Skips the next instruction if `condition` holds. The skip fails if it
/// would take the program counter out of the memory.
pub open spec fn skip_if(s: MachineState, condition: bool) -> Outcome {
    if !condition {
        Ok((s, Effect::Nothing))
    } else if s.pc + 2 < SYSTEM_RAM_SIZE {
        Ok((MachineState { pc: s.pc + 2, ..s }, Effect::Nothing))
    } else {
        Err(VmError::CounterOutOfBounds)
    }
}

/// Sets register `x` to `value` and then the flag register to `carry`.
pub open spec fn with_flag(s: MachineState, x: u8, value: u8, carry: u8) -> Outcome {
    Ok((MachineState { v: s.v.update(x as int, value).update(15, carry), ..s }, Effect::Nothing))
}

/// Sets register `x` to `value`.
pub open spec fn with_register(s: MachineState, x: u8, value: u8) -> Outcome {
    Ok((MachineState { v: s.v.update(x as int, value), ..s }, Effect::Nothing))
}

/// What instruction `op` does to state `s`, in which the program counter
/// already names the instruction after `op`. `keys` tells which keys are
/// held down, `random` is the byte that a random instruction draws, and
/// `index_flag` tells whether an addition to the address register reports
/// its overflow in VF.
pub open spec fn executed(
    s: MachineState,
    op: OpCode,
    keys: Seq<bool>,
    random: u8,
    index_flag: bool,
) -> Outcome {
    match op {
        OpCode::_0NNN(nnn) => Err(VmError::UnsupportedInstruction { target: nnn }),
        OpCode::_00E0 => Ok(
            (MachineState { pixels: Seq::new(GRID_SIZE as nat, |p: int| false), ..s }, Effect::Redraw),
        ),
        OpCode::_00EE => if s.stack.len() == 0 {
            Err(VmError::StackUnderflow)
        } else {
            Ok(
                (
                    MachineState { pc: s.stack.last() as int, stack: s.stack.drop_last(), ..s },
                    Effect::Nothing,
                ),
            )
        },
        OpCode::_1NNN(nnn) => Ok((MachineState { pc: nnn as int, ..s }, Effect::Nothing)),
        OpCode::_2NNN(nnn) => if s.stack.len() >= STACK_SIZE {
            Err(VmError::StackOverflow)
        } else {
            Ok(
                (
                    MachineState { pc: nnn as int, stack: s.stack.push(s.pc as u16), ..s },
                    Effect::Nothing,
                ),
            )
        },
        OpCode::_3XNN(x, nn) => skip_if(s, s.v[x as int] == nn),
        OpCode::_4XNN(x, nn) => skip_if(s, s.v[x as int] != nn),
        OpCode::_5XY0(x, y) => skip_if(s, s.v[x as int] == s.v[y as int]),
        OpCode::_9XY0(x, y) => skip_if(s, s.v[x as int] != s.v[y as int]),
        OpCode::_6XNN(x, nn) => with_register(s, x, nn),
        OpCode::_7XNN(x, nn) => with_register(s, x, wrapped_sum(s.v[x as int], nn)),
        OpCode::_8XY0(x, y) => with_register(s, x, s.v[y as int]),
        OpCode::_8XY1(x, y) => with_register(s, x, s.v[x as int] | s.v[y as int]),
        OpCode::_8XY2(x, y) => with_register(s, x, s.v[x as int] & s.v[y as int]),
        OpCode::_8XY3(x, y) => with_register(s, x, s.v[x as int] ^ s.v[y as int]),
        OpCode::_8XY4(x, y) => with_flag(
            s,
            x,
            wrapped_sum(s.v[x as int], s.v[y as int]),
            flag(s.v[x as int] + s.v[y as int] > 255),
        ),
        OpCode::_8XY5(x, y) => with_flag(
            s,
            x,
            wrapped_difference(s.v[x as int], s.v[y as int]),
            flag(s.v[x as int] >= s.v[y as int]),
        ),
        OpCode::_8XY6(x, _) => with_flag(s, x, s.v[x as int] / 2, s.v[x as int] % 2),
        OpCode::_8XY7(x, y) => with_flag(
            s,
            x,
            wrapped_difference(s.v[y as int], s.v[x as int]),
            flag(s.v[y as int] >= s.v[x as int]),
        ),
        OpCode::_8XYE(x, _) => with_flag(
            s,
            x,
            ((s.v[x as int] * 2) % 256) as u8,
            s.v[x as int] / 128,
        ),
        OpCode::_ANNN(nnn) => Ok((MachineState { i: nnn, ..s }, Effect::Nothing)),
        OpCode::_BNNN(nnn) => if nnn + s.v[0] < SYSTEM_RAM_SIZE {
            Ok((MachineState { pc: nnn + s.v[0], ..s }, Effect::Nothing))
        } else {
            Err(VmError::CounterOutOfBounds)
        },
        OpCode::_CXNN(x, nn) => with_register(s, x, random & nn),
        OpCode::_DXYN(x, y, n) => if n > 0 && s.i + n > SYSTEM_RAM_SIZE {
            Err(VmError::MemoryOutOfBounds { address: first_unreadable(s.i as int) })
        } else {
            let sprite = sprite_rows(s.memory, s.i as int, n as int);
            let row = s.v[y as int] as int;
            let col = s.v[x as int] as int;
            Ok(
                (
                    MachineState {
                        pixels: drawn(s.pixels, row, col, sprite),
                        v: s.v.update(15, flag(collides(s.pixels, row, col, sprite))),
                        ..s
                    },
                    Effect::Redraw,
                ),
            )
        },
        OpCode::_EX9E(x) => skip_if(s, key_down(keys, s.v[x as int])),
        OpCode::_EXA1(x) => skip_if(s, !key_down(keys, s.v[x as int])),
        OpCode::_FX07(x) => with_register(s, x, s.delay),
        OpCode::_FX0A(x) => if none_pressed(keys) {
            Ok((s, Effect::AwaitKey))
        } else {
            with_register(s, x, lowest_key(keys) as u8)
        },
        OpCode::_FX15(x) => Ok((MachineState { delay: s.v[x as int], ..s }, Effect::Nothing)),
        OpCode::_FX18(x) => Ok(
            (
                MachineState { sound: s.v[x as int], ..s },
                tone_effect(transition(s.sound, s.v[x as int])),
            ),
        ),
        OpCode::_FX1E(x) => {
            let sum = wrapped_sum16(s.i, s.v[x as int] as u16);
            if index_flag {
                Ok(
                    (
                        MachineState {
                            i: sum,
                            v: s.v.update(15, flag(s.i + s.v[x as int] > 65535)),
                            ..s
                        },
                        Effect::Nothing,
                    ),
                )
            } else {
                Ok((MachineState { i: sum, ..s }, Effect::Nothing))
            }
        },
        OpCode::_FX29(x) => Ok(
            (MachineState { i: (SPRITE_HEIGHT * (s.v[x as int] % 16)) as u16, ..s }, Effect::Nothing),
        ),
        OpCode::_FX33(x) => if s.i < BEGIN_PROGRAM_RAM || s.i + 2 >= SYSTEM_RAM_SIZE {
            Err(VmError::MemoryOutOfBounds { address: first_unwritable(s.i as int) })
        } else {
            let value = s.v[x as int];
            Ok(
                (
                    MachineState {
                        memory: s.memory.update(s.i as int, value / 100).update(
                            s.i + 1,
                            (value / 10) % 10,
                        ).update(s.i + 2, value % 10),
                        ..s
                    },
                    Effect::Nothing,
                ),
            )
        },
        OpCode::_FX55(x) => if s.i < BEGIN_PROGRAM_RAM || s.i + x >= SYSTEM_RAM_SIZE {
            Err(VmError::MemoryOutOfBounds { address: first_unwritable(s.i as int) })
        } else {
            Ok(
                (
                    MachineState {
                        memory: Seq::new(
                            SYSTEM_RAM_SIZE as nat,
                            |a: int|
                                if s.i <= a <= s.i + x {
                                    s.v[a - s.i]
                                } else {
                                    s.memory[a]
                                },
                        ),
                        ..s
                    },
                    Effect::Nothing,
                ),
            )
        },
        OpCode::_FX65(x) => if s.i + x >= SYSTEM_RAM_SIZE {
            Err(VmError::MemoryOutOfBounds { address: first_unreadable(s.i as int) })
        } else {
            Ok(
                (
                    MachineState {
                        v: Seq::new(
                            16,
                            |k: int|
                                if k <= x {
                                    s.memory[s.i + k]
                                } else {
                                    s.v[k]
                                },
                        ),
                        ..s
                    },
                    Effect::Nothing,
                ),
            )
        },
    }
}

/// What one tick does to the two timers: each counts down by one unless it
/// is at zero, and the tone stops when the sound timer reaches zero.
pub open spec fn timers_ticked(s: MachineState) -> (MachineState, Effect) {
    (
        MachineState { delay: ticked(s.delay), sound: ticked(s.sound), ..s },
        tone_effect(transition(s.sound, ticked(s.sound))),
    )
}

/// What one fetch-decode-execute step does to state `s`: it takes the two
/// bytes at the program counter, moves the counter past them, decodes them
/// and executes the instruction. A step that fails changes nothing, and
/// neither does one that waits for a key.
pub open spec fn stepped(s: MachineState, keys: Seq<bool>, random: u8, index_flag: bool) -> Outcome {
    if s.pc + 2 >= SYSTEM_RAM_SIZE {
        Err(VmError::CounterOutOfBounds)
    } else {
        match decode(s.memory[s.pc], s.memory[s.pc + 1]) {
            Err(e) => Err(e),
            Ok(op) => match executed(
                MachineState { pc: s.pc + 2, ..s },
                op,
                keys,
                random,
                index_flag,
            ) {
                Ok((_, Effect::AwaitKey)) => Ok((s, Effect::AwaitKey)),
                other => other,
            },
        }
    }
}

/// Whether a call that returned `r` and turned `before` into `after` did
/// what `expected` says: on success the new state and the effect are those
/// expected, and on failure the error is the expected one and nothing
/// changed.
pub open spec fn agrees(
    before: MachineState,
    after: MachineState,
    r: Result<Effect, VmError>,
    expected: Outcome,
) -> bool {
    match expected {
        Ok((state, effect)) => r == Ok::<Effect, VmError>(effect) && after == state,
        Err(e) => r == Err::<Effect, VmError>(e) && after == before,
    }
}

/// What holds of the machine's state at all times: the memory has its full
/// size and its system region holds the glyphs and zeros that it was built
/// with, the program counter lies inside the memory, there are sixteen
/// registers, the stack holds at most 64 return addresses, each inside the
/// memory, and the grid has all its pixels.
pub open spec fn valid(s: MachineState) -> bool {
    &&& s.memory.len() == SYSTEM_RAM_SIZE
    &&& forall|addr: int| 0 <= addr < BEGIN_PROGRAM_RAM ==> s.memory[addr] == system_byte(addr)
    &&& 0 <= s.pc < SYSTEM_RAM_SIZE
    &&& s.v.len() == 16
    &&& s.stack.len() <= STACK_SIZE
    &&& forall|k: int| 0 <= k < s.stack.len() ==> s.stack[k] < SYSTEM_RAM_SIZE
    &&& s.pixels.len() == GRID_SIZE
}

/// No instruction takes the machine out of its valid states: whatever an
/// instruction with operands in range does to a valid state, the state
/// after it is valid again. In particular the system region of the memory
/// is never written, the program counter never leaves the memory and the
/// stack never grows beyond its bound.
pub proof fn lemma_execution_keeps_valid(
    s: MachineState,
    op: OpCode,
    keys: Seq<bool>,
    random: u8,
    index_flag: bool,
)
    requires
        valid(s),
        op.wf(),
    ensures
        executed(s, op, keys, random, index_flag) is Ok ==> valid(
            executed(s, op, keys, random, index_flag)->Ok_0.0,
        ),
{
}

/// Neither a step nor a tick of the timers takes the machine out of its
/// valid states.
pub proof fn lemma_step_keeps_valid(s: MachineState, keys: Seq<bool>, random: u8, index_flag: bool)
    requires
        valid(s),
    ensures
        stepped(s, keys, random, index_flag) is Ok ==> valid(
            stepped(s, keys, random, index_flag)->Ok_0.0,
        ),
        valid(timers_ticked(s).0),
{
    if s.pc + 2 < SYSTEM_RAM_SIZE {
        let msb = s.memory[s.pc];
        let lsb = s.memory[s.pc + 1];
        if decode(msb, lsb) is Ok {
            lemma_decode_then_encode(msb, lsb);
            let fetched = MachineState { pc: s.pc + 2, ..s };
            lemma_execution_keeps_valid(fetched, decode(msb, lsb)->Ok_0, keys, random, index_flag);
        }
    }
}

} // verus!
