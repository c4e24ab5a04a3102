use vstd::prelude::*;
use crate::error::VmError;

verus! {

/// Number of bytes of addressable memory.
pub const SYSTEM_RAM_SIZE: usize = 4096;

/// First address of the program region; everything below is reserved for
/// the system.
pub const BEGIN_PROGRAM_RAM: usize = 512;

/// Number of bytes of the program region.
pub const PROGRAM_RAM_SIZE: usize = 3584;

/// Number of bytes of one built-in glyph.
pub const SPRITE_HEIGHT: usize = 5;

/// Number of bytes of the built-in glyph table.
pub const DEFAULT_SPRITES_SIZE: usize = 80;

/// The built-in glyphs of the sixteen hexadecimal digits, five bytes each,
/// one byte per pixel row with the leftmost pixel in the highest bit.
pub const DEFAULT_SPRITES: [u8; 80] = [
    0xF0, 0x90, 0x90, 0x90, 0xF0,
    0x20, 0x60, 0x20, 0x20, 0x70,
    0xF0, 0x10, 0xF0, 0x80, 0xF0,
    0xF0, 0x10, 0xF0, 0x10, 0xF0,
    0x90, 0x90, 0xF0, 0x10, 0x10,
    0xF0, 0x80, 0xF0, 0x10, 0xF0,
    0xF0, 0x80, 0xF0, 0x90, 0xF0,
    0xF0, 0x10, 0x20, 0x40, 0x40,
    0xF0, 0x90, 0xF0, 0x90, 0xF0,
    0xF0, 0x90, 0xF0, 0x10, 0xF0,
    0xF0, 0x90, 0xF0, 0x90, 0x90,
    0xE0, 0x90, 0xE0, 0x90, 0xE0,
    0xF0, 0x80, 0x80, 0x80, 0xF0,
    0xE0, 0x90, 0x90, 0x90, 0xE0,
    0xF0, 0x80, 0xF0, 0x80, 0xF0,
    0xF0, 0x80, 0xF0, 0x80, 0x80,
];

/// What the system region holds at address `addr`: the glyph table, then
/// zeros.
pub open spec fn system_byte(addr: int) -> u8 {
    if 0 <= addr < DEFAULT_SPRITES_SIZE {
        DEFAULT_SPRITES@[addr]
    } else {
        0
    }
}

/// The machine's memory: a system region with the built-in glyphs, which
/// never changes, and a program region.
pub struct Ram {
    data: [u8; 4096],
}

impl View for Ram {
    type V = Seq<u8>;

    closed spec fn view(&self) -> Seq<u8> {
        self.data@
    }
}

impl Ram {
    /// The memory has its full size and the system region holds what it held
    /// at construction.
    pub open spec fn wf(&self) -> bool {
        &&& self@.len() == SYSTEM_RAM_SIZE
        &&& forall|addr: int| 0 <= addr < BEGIN_PROGRAM_RAM ==> self@[addr] == system_byte(addr)
    }

    /// A memory with the glyph table at its start and zeros everywhere else.
    pub fn new() -> (ram: Ram)
        ensures
            ram.wf(),
            forall|addr: int| BEGIN_PROGRAM_RAM <= addr < SYSTEM_RAM_SIZE ==> ram@[addr] == 0,
    {
        let mut new_ram = Ram { data: [0u8;4096] };
        new_ram.init_system_memory();
        new_ram
    }

    fn init_system_memory(&mut self)
        ensures
            forall|addr: int|
                0 <= addr < DEFAULT_SPRITES_SIZE ==> final(self)@[addr] == DEFAULT_SPRITES@[addr],
            forall|addr: int|
                DEFAULT_SPRITES_SIZE <= addr < SYSTEM_RAM_SIZE ==> final(self)@[addr] == old(
                    self,
                )@[addr],
            final(self)@.len() == SYSTEM_RAM_SIZE,
    {
        let mut index: usize = 0;
        while index < DEFAULT_SPRITES_SIZE
            invariant
                index <= DEFAULT_SPRITES_SIZE,
                self@.len() == SYSTEM_RAM_SIZE,
                forall|addr: int| 0 <= addr < index ==> self@[addr] == DEFAULT_SPRITES@[addr],
                forall|addr: int| index <= addr < SYSTEM_RAM_SIZE ==> self@[addr] == old(self)@[addr],
            decreases DEFAULT_SPRITES_SIZE - index,
        {
            self.data[index] = DEFAULT_SPRITES[index];
            index += 1;
        }
    }

    /// Copies a program image to the start of the program region and leaves
    /// every other byte as it was. An image larger than the region is
    /// refused, and nothing is written.
    pub fn dump(&mut self, rom: &Vec<u8>) -> (r: Result<(), VmError>)
        requires
            old(self).wf(),
        ensures
            final(self).wf(),
            rom@.len() > PROGRAM_RAM_SIZE ==> r == Err::<(), VmError>(
                VmError::ProgramTooLarge { size: rom.len() },
            ) && final(self)@ == old(self)@,
            rom@.len() <= PROGRAM_RAM_SIZE ==> r == Ok::<(), VmError>(()) && forall|addr: int|
                0 <= addr < SYSTEM_RAM_SIZE ==> final(self)@[addr] == (if BEGIN_PROGRAM_RAM <= addr
                    < BEGIN_PROGRAM_RAM + rom@.len() {
                    rom@[addr - BEGIN_PROGRAM_RAM]
                } else {
                    old(self)@[addr]
                }),
    {
        if rom.len() > PROGRAM_RAM_SIZE {
            return Err(VmError::ProgramTooLarge { size: rom.len() });
        }
        let mut index: usize = 0;
        while index < rom.len()
            invariant
                index <= rom@.len() <= PROGRAM_RAM_SIZE,
                self@.len() == SYSTEM_RAM_SIZE,
                forall|addr: int|
                    0 <= addr < SYSTEM_RAM_SIZE ==> self@[addr] == (if BEGIN_PROGRAM_RAM <= addr
                        < BEGIN_PROGRAM_RAM + index {
                        rom@[addr - BEGIN_PROGRAM_RAM]
                    } else {
                        old(self)@[addr]
                    }),
            decreases rom@.len() - index,
        {
            self.data[BEGIN_PROGRAM_RAM + index] = rom[index];
            index += 1;
        }
        Ok(())
    }

    /// The whole memory, for reading.
    pub fn peek(&self) -> (data: &[u8; 4096])
        ensures
            data@ == self@,
    {
        &self.data
    }

    /// The byte at `addr`, or a failure when `addr` lies beyond the memory.
    pub fn read(&self, addr: usize) -> (r: Result<u8, VmError>)
        requires
            self.wf(),
        ensures
            addr < SYSTEM_RAM_SIZE ==> r == Ok::<u8, VmError>(self@[addr as int]),
            addr >= SYSTEM_RAM_SIZE ==> r == Err::<u8, VmError>(
                VmError::MemoryOutOfBounds { address: addr },
            ),
    {
        if addr >= SYSTEM_RAM_SIZE {
            return Err(VmError::MemoryOutOfBounds { address: addr });
        }
        Ok(self.data[addr])
    }

    /// Holds for the addresses that a program may write: those of the
    /// program region.
    pub open spec fn writable(addr: int) -> bool {
        BEGIN_PROGRAM_RAM <= addr < SYSTEM_RAM_SIZE
    }

    /// Stores `byte` at `addr`. An address beyond the memory is refused, and
    /// so is one in the system region, which stays as constructed.
    pub fn write(&mut self, addr: usize, byte: u8) -> (r: Result<(), VmError>)
        requires
            old(self).wf(),
        ensures
            final(self).wf(),
            Self::writable(addr as int) ==> r == Ok::<(), VmError>(()) && final(self)@ == old(
                self,
            )@.update(addr as int, byte),
            !Self::writable(addr as int) ==> r == Err::<(), VmError>(
                VmError::MemoryOutOfBounds { address: addr },
            ) && final(self)@ == old(self)@,
    {
        if addr < BEGIN_PROGRAM_RAM || addr >= SYSTEM_RAM_SIZE {
            return Err(VmError::MemoryOutOfBounds { address: addr });
        }
        self.data[addr] = byte;
        Ok(())
    }
}

/// The cursor that names the next instruction byte.
pub struct ProgramCounter {
    counter: usize,
}

impl View for ProgramCounter {
    type V = int;

    closed spec fn view(&self) -> int {
        self.counter as int
    }
}

impl ProgramCounter {
    /// The cursor stays inside the memory.
    pub open spec fn wf(&self) -> bool {
        0 <= self@ < SYSTEM_RAM_SIZE
    }

    /// A cursor at the first byte of the program region.
    pub fn new() -> (pc: ProgramCounter)
        ensures
            pc@ == BEGIN_PROGRAM_RAM,
            pc.wf(),
    {
        ProgramCounter { counter: BEGIN_PROGRAM_RAM }
    }

    /// Moves the cursor forward by `step` bytes, by one where `step` is
    /// `None`. A move that would leave the memory is refused, and the cursor
    /// stays.
    pub fn advance(&mut self, step: Option<usize>) -> (r: Result<(), VmError>)
        requires
            old(self).wf(),
        ensures
            final(self).wf(),
            old(self)@ + step_value(step) < SYSTEM_RAM_SIZE ==> r == Ok::<(), VmError>(())
                && final(self)@ == old(self)@ + step_value(step),
            old(self)@ + step_value(step) >= SYSTEM_RAM_SIZE ==> r == Err::<(), VmError>(
                VmError::CounterOutOfBounds,
            ) && final(self)@ == old(self)@,
    {
        let step_value: usize = match step {
            Some(value) => value,
            None => 1,
        };
        if step_value >= SYSTEM_RAM_SIZE - self.counter {
            return Err(VmError::CounterOutOfBounds);
        }
        self.counter += step_value;
        Ok(())
    }

    /// Sets the cursor to `addr`. An address beyond the memory is refused,
    /// and the cursor stays.
    pub fn jump(&mut self, addr: usize) -> (r: Result<(), VmError>)
        requires
            old(self).wf(),
        ensures
            final(self).wf(),
            addr < SYSTEM_RAM_SIZE ==> r == Ok::<(), VmError>(()) && final(self)@ == addr,
            addr >= SYSTEM_RAM_SIZE ==> r == Err::<(), VmError>(VmError::CounterOutOfBounds)
                && final(self)@ == old(self)@,
    {
        if addr >= SYSTEM_RAM_SIZE {
            return Err(VmError::CounterOutOfBounds);
        }
        self.counter = addr;
        Ok(())
    }

    /// The address that the cursor names.
    pub fn value(&self) -> (counter: usize)
        ensures
            counter == self@,
    {
        self.counter
    }
}

/// The number of bytes that an `advance` with this argument moves by.
pub open spec fn step_value(step: Option<usize>) -> int {
    match step {
        Some(value) => value as int,
        None => 1,
    }
}

/// Where a cursor that starts at `start` stands after `n` single steps, or
/// `None` if one of them was refused.
pub open spec fn after_single_steps(start: int, n: nat) -> Option<int>
    decreases n,
{
    if n == 0 {
        Some(start)
    } else {
        match after_single_steps(start, (n - 1) as nat) {
            Some(position) => if position + step_value(None) < SYSTEM_RAM_SIZE {
                Some(position + step_value(None))
            } else {
                None
            },
            None => None,
        }
    }
}

/// From the start of the program region the cursor can take exactly as many
/// single steps as lead to the last byte of the memory: the first 3583
/// steps succeed, each moving the cursor by one, and every step after them
/// is refused.
pub proof fn lemma_counter_range(n: nat)
    ensures
        after_single_steps(BEGIN_PROGRAM_RAM as int, n) == (if n < PROGRAM_RAM_SIZE {
            Some(BEGIN_PROGRAM_RAM + n)
        } else {
            None
        }),
        n == PROGRAM_RAM_SIZE - 1 ==> after_single_steps(BEGIN_PROGRAM_RAM as int, n) == Some(
            SYSTEM_RAM_SIZE - 1,
        ),
    decreases n,
{
    if n > 0 {
        lemma_counter_range((n - 1) as nat);
    }
}

} // verus!
