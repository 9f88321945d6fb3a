//! A verified interpreter for the CHIP-8 virtual machine.
//!
//! [`Chip8`] is the engine: it owns memory, registers, call stack, timers
//! and display of one machine and carries out one instruction per tick.
//! [`machine::Machine`] is its mathematical model, against which every
//! operation is specified, and [`laws`] holds what is proved of the model.
//! [`Keyboard`] keeps the keypad whose snapshot the engine is given before
//! each tick.

pub mod chip8;
pub mod font;
pub mod instruction;
pub mod keyboard;
pub mod laws;
pub mod machine;

pub use crate::chip8::Chip8;
pub use crate::font::FONT;
pub use crate::instruction::{decode, Instruction};
pub use crate::keyboard::{Keyboard, KEYS, KEY_TIME_MS};
pub use crate::machine::{CHIP_HEIGHT, CHIP_WIDTH, NKEYS, RAMBYTES};
