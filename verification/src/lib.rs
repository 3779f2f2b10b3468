//! A CHIP-8 virtual machine: the fetch-decode-execute core with its display
//! and its keypad.
//!
//! The host loads a program with [`Chip8::load_rom`], then calls
//! [`Chip8::tick`] once per instruction and [`Chip8::tick_timers`] sixty
//! times a second, feeding key states into the keypad between ticks and
//! reading the display and [`Chip8::should_play_sound`] after them.

pub mod display;
pub mod font;
pub mod instruction;
pub mod keypad;
pub mod laws;
pub mod machine;
pub mod model;

pub use crate::instruction::Instruction;
pub use crate::machine::{Chip8, LoadError};
pub use crate::model::Fault;
