use vstd::prelude::*;
use crate::text::{append_lower_hex, append_number, decimal_digits, lower_hex_text};

verus! {

/// Everything that can stop the machine. Each failing operation reports the
/// kind of failure together with the values needed to diagnose it.
#[derive(Clone, Copy, Debug, PartialEq, Eq, Structural)]
pub enum VmError {
    /// The two bytes match no instruction pattern.
    Decode { msb: u8, lsb: u8 },
    /// A memory access at or beyond the end of the address space.
    MemoryOutOfBounds { address: usize },
    /// A pixel access outside the grid.
    PixelOutOfBounds { row: usize, col: usize },
    /// The program counter would leave the address space.
    CounterOutOfBounds,
    /// A push onto a full call stack.
    StackOverflow,
    /// A pop from an empty call stack.
    StackUnderflow,
    /// A program image with more bytes than the program region holds.
    ProgramTooLarge { size: usize },
    /// The legacy machine-code call, which this machine does not carry out.
    UnsupportedInstruction { target: u16 },
}

impl VmError {
    /// The text that reports the failure to a person.
    pub open spec fn message_text(&self) -> Seq<char> {
        match *self {
            VmError::Decode { msb, lsb } => "Unrecognized instruction bytes "@ + lower_hex_text(msb)
                + ", "@ + lower_hex_text(lsb),
            VmError::MemoryOutOfBounds { address } => "Memory address "@ + decimal_digits(
                address as nat,
            ) + " out of bounds"@,
            VmError::PixelOutOfBounds { row, col } => "Pixel coordinates ("@ + decimal_digits(
                row as nat,
            ) + ", "@ + decimal_digits(col as nat) + ") out of bounds. Grid size (32, 64)"@,
            VmError::CounterOutOfBounds => "Cannot advance program counter out of memory bounds"@,
            VmError::StackOverflow => "Stack full. Cannot push"@,
            VmError::StackUnderflow => "Stack empty. Cannot pop"@,
            VmError::ProgramTooLarge { size } => "Cannot dump to ram: rom size "@ + decimal_digits(
                size as nat,
            ) + " is larger than system memory 3584"@,
            VmError::UnsupportedInstruction { target } => "Instruction 0NNN not supported"@,
        }
    }

    /// Renders the failure as a line of text for a person to read.
    pub fn message(&self) -> (text: String)
        ensures
            text@ == self.message_text(),
    {
        match *self {
            VmError::Decode { msb, lsb } => {
                let mut text = String::from_str("Unrecognized instruction bytes ");
                append_lower_hex(&mut text, msb);
                text.append(", ");
                append_lower_hex(&mut text, lsb);
                text
            },
            VmError::MemoryOutOfBounds { address } => {
                let mut text = String::from_str("Memory address ");
                append_number(&mut text, address);
                text.append(" out of bounds");
                text
            },
            VmError::PixelOutOfBounds { row, col } => {
                let mut text = String::from_str("Pixel coordinates (");
                append_number(&mut text, row);
                text.append(", ");
                append_number(&mut text, col);
                text.append(") out of bounds. Grid size (32, 64)");
                text
            },
            VmError::CounterOutOfBounds => String::from_str(
                "Cannot advance program counter out of memory bounds",
            ),
            VmError::StackOverflow => String::from_str("Stack full. Cannot push"),
            VmError::StackUnderflow => String::from_str("Stack empty. Cannot pop"),
            VmError::ProgramTooLarge { size } => {
                let mut text = String::from_str("Cannot dump to ram: rom size ");
                append_number(&mut text, size);
                text.append(" is larger than system memory 3584");
                text
            },
            VmError::UnsupportedInstruction { target } => String::from_str(
                "Instruction 0NNN not supported",
            ),
        }
    }
}

} // verus!
