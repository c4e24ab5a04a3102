pub mod audio;
pub mod clock;
pub mod display;
pub mod error;
pub mod input;
pub mod interpreter;
pub mod memory;
pub mod opcodes;
pub mod registers;
pub mod stack;
pub mod text;
pub mod timer;
