use vstd::prelude::*;
use crate::clock::{
    admits, after_call, default_cpu_frequency, default_timers_frequency, RateLimiter,
    RateLimiterView, DEFAULT_CPU_HERTZ, DEFAULT_TIMERS_HERTZ,
};
use crate::display::grid::{blank, GridEditor, GRID_SIZE};
use crate::error::VmError;
use crate::input::Keypad;
use crate::memory::{
    system_byte, ProgramCounter, Ram, BEGIN_PROGRAM_RAM, PROGRAM_RAM_SIZE, SYSTEM_RAM_SIZE,
};
use crate::opcodes::OpCode;
use crate::registers::Registers;
use crate::stack::Stack;
use crate::timer::{Timer, TimerStatus};
use crate::interpreter::instructions::execute_opcode;
use crate::interpreter::semantics::{
    agrees, stepped, timers_ticked, tone_effect, valid, Effect, MachineState,
};

pub mod instructions;
pub mod semantics;

verus! {

/// The machine: memory, program counter, registers, call stack, the two
/// timers and the pixel grid, together with the two gates that pace the
/// instructions and the timers.
///
/// The machine does no input or output itself. Whoever drives it hands it
/// the keys as they are found and a random byte with every step, and acts
/// on the [`Effect`] that comes back: shows the grid, starts or stops the
/// tone. An instruction that waits for a key leaves the machine as it was
/// and is fetched again with the next step, so the timers go on counting
/// down while the machine waits.
pub struct Interpreter {
    pub ram: Ram,
    pub pc: ProgramCounter,
    pub display: GridEditor,
    pub registers: Registers,
    pub stack: Stack,
    pub cpu_limiter: RateLimiter,
    pub timer_limiter: RateLimiter,
    pub delay_timer: Timer,
    pub sound_timer: Timer,
    /// Whether an addition to the address register reports its overflow in
    /// the flag register.
    pub index_flag: bool,
}

/// What a machine holds besides the state that instructions work on.
pub struct Settings {
    pub cpu_limiter: RateLimiterView,
    pub timer_limiter: RateLimiterView,
    pub index_flag: bool,
}

/// What one pass of the driving loop did: the effect of the instruction, if
/// one was let through, and the effect of the timers' tick, if one was.
#[derive(Clone, Copy, Debug, PartialEq, Eq, Structural)]
pub struct CycleReport {
    pub step: Effect,
    pub tick: Effect,
}

/// What the tone has to do after the sound timer made this transition.
pub fn tone_request(status: TimerStatus) -> (effect: Effect)
    ensures
        effect == tone_effect(status),
{
    match status {
        TimerStatus::Started => Effect::ToneOn,
        TimerStatus::End => Effect::ToneOff,
        _ => Effect::Nothing,
    }
}

impl View for Interpreter {
    type V = MachineState;

    open spec fn view(&self) -> MachineState {
        MachineState {
            memory: self.ram@,
            pc: self.pc@,
            v: self.registers@.v,
            i: self.registers@.i,
            stack: self.stack@,
            delay: self.delay_timer@,
            sound: self.sound_timer@,
            pixels: self.display@,
        }
    }
}

impl Interpreter {
    /// Every part is well formed, the grid has all its pixels, and every
    /// return address lies inside the memory.
    pub open spec fn wf(&self) -> bool {
        &&& self.ram.wf()
        &&& self.pc.wf()
        &&& self.registers.wf()
        &&& self.stack.wf()
        &&& self.display@.len() == GRID_SIZE
        &&& forall|k: int| 0 <= k < self.stack@.len() ==> self.stack@[k] < SYSTEM_RAM_SIZE
    }

    /// A well-formed machine is in a valid state.
    pub proof fn lemma_wf_is_valid(&self)
        requires
            self.wf(),
        ensures
            valid(self@),
    {
    }

    /// The two gates and the choice of how the address register reports
    /// overflow.
    pub open spec fn settings(&self) -> Settings {
        Settings {
            cpu_limiter: self.cpu_limiter@,
            timer_limiter: self.timer_limiter@,
            index_flag: self.index_flag,
        }
    }

    /// A machine before its first instruction: the glyphs in memory and
    /// zeros behind them, the program counter at the start of the program
    /// region, registers, timers and stack empty, every pixel off, and both
    /// gates at their default rates. Additions to the address register do
    /// not touch the flag register.
    pub fn new() -> (interpreter: Interpreter)
        ensures
            interpreter.wf(),
            interpreter@.pc == BEGIN_PROGRAM_RAM,
            forall|addr: int|
                0 <= addr < SYSTEM_RAM_SIZE ==> interpreter@.memory[addr] == (if addr
                    < BEGIN_PROGRAM_RAM {
                    system_byte(addr)
                } else {
                    0
                }),
            forall|k: int| 0 <= k < 16 ==> interpreter@.v[k] == 0,
            interpreter@.i == 0,
            interpreter@.stack == Seq::<u16>::empty(),
            interpreter@.delay == 0,
            interpreter@.sound == 0,
            blank(interpreter@.pixels),
            interpreter.settings() == (Settings {
                cpu_limiter: RateLimiterView { hertz: DEFAULT_CPU_HERTZ, last_executed: None },
                timer_limiter: RateLimiterView { hertz: DEFAULT_TIMERS_HERTZ, last_executed: None },
                index_flag: false,
            }),
    {
        let ram = Ram::new();
        let pc = ProgramCounter::new();
        let display = GridEditor::new();
        let registers = Registers::new();
        let stack = Stack::new();
        let cpu_limiter = RateLimiter::new(default_cpu_frequency());
        let timer_limiter = RateLimiter::new(default_timers_frequency());
        let delay_timer = Timer::new();
        let sound_timer = Timer::new();
        Interpreter {
            ram,
            pc,
            display,
            registers,
            stack,
            cpu_limiter,
            timer_limiter,
            delay_timer,
            sound_timer,
            index_flag: false,
        }
    }

    /// Chooses whether an addition to the address register reports its
    /// overflow in the flag register.
    pub fn set_index_flag(&mut self, index_flag: bool)
        ensures
            final(self)@ == old(self)@,
            final(self).wf() == old(self).wf(),
            final(self).settings() == (Settings { index_flag, ..old(self).settings() }),
    {
        self.index_flag = index_flag;
    }

    /// Copies a program image into the program region. An image larger than
    /// the region is refused, and nothing changes.
    pub fn load_rom(&mut self, rom: &Vec<u8>) -> (r: Result<(), VmError>)
        requires
            old(self).wf(),
        ensures
            final(self).wf(),
            final(self).settings() == old(self).settings(),
            rom@.len() > PROGRAM_RAM_SIZE ==> r == Err::<(), VmError>(
                VmError::ProgramTooLarge { size: rom.len() },
            ) && final(self)@ == old(self)@,
            rom@.len() <= PROGRAM_RAM_SIZE ==> r == Ok::<(), VmError>(()) && final(self)@ == (
            MachineState {
                memory: Seq::new(
                    SYSTEM_RAM_SIZE as nat,
                    |addr: int|
                        if BEGIN_PROGRAM_RAM <= addr < BEGIN_PROGRAM_RAM + rom@.len() {
                            rom@[addr - BEGIN_PROGRAM_RAM]
                        } else {
                            old(self)@.memory[addr]
                        },
                ),
                ..old(self)@
            }),
    {
        let r = self.ram.dump(rom);
        proof {
            if rom@.len() <= PROGRAM_RAM_SIZE {
                assert(final(self)@.memory =~= Seq::new(
                    SYSTEM_RAM_SIZE as nat,
                    |addr: int|
                        if BEGIN_PROGRAM_RAM <= addr < BEGIN_PROGRAM_RAM + rom@.len() {
                            rom@[addr - BEGIN_PROGRAM_RAM]
                        } else {
                            old(self)@.memory[addr]
                        },
                ));
            }
        }
        r
    }

    /// Takes the two bytes at the program counter and moves the counter
    /// past them. Where the counter would leave the memory, the fetch fails
    /// and the counter stays.
    pub fn extract_opcode_bytes(&mut self) -> (r: Result<(u8, u8), VmError>)
        requires
            old(self).wf(),
        ensures
            final(self).wf(),
            final(self).settings() == old(self).settings(),
            old(self)@.pc + 2 < SYSTEM_RAM_SIZE ==> r == Ok::<(u8, u8), VmError>(
                (old(self)@.memory[old(self)@.pc], old(self)@.memory[old(self)@.pc + 1]),
            ) && final(self)@ == (MachineState { pc: old(self)@.pc + 2, ..old(self)@ }),
            old(self)@.pc + 2 >= SYSTEM_RAM_SIZE ==> r == Err::<(u8, u8), VmError>(
                VmError::CounterOutOfBounds,
            ) && final(self)@ == old(self)@,
    {
        if self.pc.value() + 2 >= SYSTEM_RAM_SIZE {
            return Err(VmError::CounterOutOfBounds);
        }
        let memory = self.ram.peek();
        let msb = memory[self.pc.value()];
        let _ = self.pc.advance(None);
        let lsb = memory[self.pc.value()];
        let _ = self.pc.advance(None);
        Ok((msb, lsb))
    }

    /// One fetch-decode-execute step. A step that fails changes nothing,
    /// and neither does one whose instruction waits for a key.
    pub fn cpu_step(&mut self, keypad: &Keypad, random: u8) -> (r: Result<Effect, VmError>)
        requires
            old(self).wf(),
        ensures
            final(self).wf(),
            final(self).settings() == old(self).settings(),
            agrees(
                old(self)@,
                final(self)@,
                r,
                stepped(old(self)@, keypad@, random, old(self).index_flag),
            ),
    {
        let start = self.pc.value();
        let (msb, lsb) = match self.extract_opcode_bytes() {
            Ok(bytes) => bytes,
            Err(e) => {
                return Err(e);
            },
        };
        let opcode = match OpCode::new(msb, lsb) {
            Ok(opcode) => opcode,
            Err(e) => {
                let _ = self.pc.jump(start);
                return Err(e);
            },
        };
        match execute_opcode(opcode, self, keypad, random) {
            Ok(Effect::AwaitKey) => {
                let _ = self.pc.jump(start);
                Ok(Effect::AwaitKey)
            },
            Ok(effect) => Ok(effect),
            Err(e) => {
                let _ = self.pc.jump(start);
                Err(e)
            },
        }
    }

    /// One tick of both timers. The effect tells the tone to stop when the
    /// sound timer reaches zero with this tick.
    pub fn tick_timers(&mut self) -> (effect: Effect)
        requires
            old(self).wf(),
        ensures
            final(self).wf(),
            final(self).settings() == old(self).settings(),
            (final(self)@, effect) == timers_ticked(old(self)@),
    {
        let _ = self.delay_timer.tick();
        let status = self.sound_timer.tick();
        tone_request(status)
    }

    /// One pass of the driving loop at time `now`, read from a monotonic
    /// clock in nanoseconds. The CPU limiter decides whether a step runs,
    /// then the timer limiter decides whether the timers tick. A step that
    /// fails ends the pass before the timers' turn.
    pub fn cpu_cycle(&mut self, now: u64, keypad: &Keypad, random: u8) -> (r: Result<
        CycleReport,
        VmError,
    >)
        requires
            old(self).wf(),
        ensures
            final(self).wf(),
            final(self).index_flag == old(self).index_flag,
            final(self).cpu_limiter@ == after_call(old(self).cpu_limiter@, now),
            ({
                let step = if admits(old(self).cpu_limiter@, now) {
                    stepped(old(self)@, keypad@, random, old(self).index_flag)
                } else {
                    Ok((old(self)@, Effect::Nothing))
                };
                match step {
                    Err(e) => {
                        &&& r == Err::<CycleReport, VmError>(e)
                        &&& final(self)@ == old(self)@
                        &&& final(self).timer_limiter@ == old(self).timer_limiter@
                    },
                    Ok((state, effect)) => {
                        let tick = if admits(old(self).timer_limiter@, now) {
                            timers_ticked(state)
                        } else {
                            (state, Effect::Nothing)
                        };
                        &&& r == Ok::<CycleReport, VmError>(CycleReport { step: effect, tick: tick.1 })
                        &&& final(self)@ == tick.0
                        &&& final(self).timer_limiter@ == after_call(old(self).timer_limiter@, now)
                    },
                }
            }),
    {
        let step = if self.cpu_limiter.execute(now) {
            match self.cpu_step(keypad, random) {
                Ok(effect) => effect,
                Err(e) => {
                    return Err(e);
                },
            }
        } else {
            Effect::Nothing
        };
        let tick = if self.timer_limiter.execute(now) {
            self.tick_timers()
        } else {
            Effect::Nothing
        };
        Ok(CycleReport { step, tick })
    }
}

} // verus!
