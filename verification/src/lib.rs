//! A small virtual machine for an 8-bit instruction set with 16-bit addresses:
//! sixteen registers, 4 KiB of memory, a call stack, two timers, a 64x32
//! monochrome display and a sixteen-key pad.
//!
//! The host loads a program, and from there on repeats one cycle: `fetch` an
//! instruction word, `decode` it, `execute` it. It polls the keys, draws the
//! pixels that `Emulator::draw` lists, and calls `tick` sixty times a second.
//!
//! Every function of this crate is verified against a contract stated over
//! `Machine`, the mathematical model of the machine's state.
#![allow(non_snake_case)]

pub mod display;
pub mod engine;
pub mod instruction;
pub mod keypad;
pub mod machine;
pub mod memory;
mod random;
pub mod semantics;
pub mod sprite;
pub mod stack;
pub mod timer;

pub use display::{Pixel, DISPLAY_HEIGHT, DISPLAY_WIDTH, TOTAL_PIXELS};
pub use engine::{execute, execute_with, fetch};
pub use instruction::{decode, layout, Instruction, Layout};
pub use keypad::{first_held, is_held, KEY_COUNT};
pub use machine::{Emulator, Machine, FLAG_REGISTER, REGISTER_COUNT};
pub use memory::{init_font, LoadError, FONT, MEMORY_SIZE};
pub use semantics::Fault;
pub use stack::Stack;
pub use timer::tick;
