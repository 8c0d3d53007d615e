//! An interpreter for the CHIP-8 virtual machine: memory with the built-in digit
//! sprites, registers, call stack, timers, keypad and a 64 x 32 monochrome screen, and
//! the fetch-execute cycle over them.

mod error;
mod keypad;
mod machine;
mod memory;
mod pacing;
mod screen;
mod semantics;
mod theorems;
mod timers;

pub use error::Error;
pub use keypad::keypad_key;
pub use machine::Chip8;
pub use semantics::{Chip8View, FLAG, NUM_KEYS, NUM_REGISTERS};
pub use memory::{MAX_PROGRAM_LEN, MEMORY_SIZE, PROGRAM_START, SPRITES_FOR_DIGITS};
pub use pacing::{Pacer, TIMER_PERIOD_NS};
pub use screen::{Color, Screen, BLACK_BYTE, SCREEN_HEIGHT, SCREEN_SIZE, SCREEN_WIDTH, WHITE_BYTE};
pub use timers::Timers;
