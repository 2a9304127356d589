//! The machine's state and its mathematical model.

use vstd::prelude::*;
use crate::display::{blank, lemma_zero_bytes_are_blank, pixels_of, TOTAL_PIXELS};
use crate::memory::{init_font, initial_memory, MEMORY_SIZE};
use crate::stack::Stack;

verus! {

/// The number of general-purpose registers.
pub const REGISTER_COUNT: usize = 16;

/// The register that the arithmetic and drawing instructions use as their
/// carry, borrow, shift-out and collision flag.
pub const FLAG_REGISTER: usize = 15;

/// The model of the machine: what its state is, apart from how it is stored.
#[verifier::ext_equal]
pub struct Machine {
    /// The 4096 bytes of memory, by address.
    pub memory: Seq<u8>,
    /// The 2048 pixels of the display, row by row: the pixel in column `x` of
    /// row `y` stands at `y * 64 + x`.
    pub pixels: Seq<bool>,
    /// The sixteen general-purpose registers.
    pub registers: Seq<u8>,
    /// The return addresses, the most recent last.
    pub stack: Seq<u16>,
    /// The program counter.
    pub pc: u16,
    /// The index register.
    pub idx: u16,
    /// The delay timer.
    pub delay: u8,
    /// The sound timer.
    pub sound: u8,
}

impl Machine {
    /// The state of a machine that was just switched on: the glyph table at
    /// the start of memory and zeros behind it, a dark display, cleared
    /// registers and timers, an empty stack, and the program counter at the
    /// address where programs are loaded.
    pub open spec fn initial() -> Machine {
        Machine {
            memory: initial_memory(),
            pixels: blank(),
            registers: Seq::new(REGISTER_COUNT as nat, |r: int| 0u8),
            stack: Seq::empty(),
            pc: Emulator::PROGRAM_START as u16,
            idx: 0,
            delay: 0,
            sound: 0,
        }
    }

    /// Whether the model has the sizes of the machine: 4096 bytes, 2048
    /// pixels, sixteen registers.
    pub open spec fn well_formed(self) -> bool {
        &&& self.memory.len() == MEMORY_SIZE
        &&& self.pixels.len() == TOTAL_PIXELS
        &&& self.registers.len() == REGISTER_COUNT
    }
}

/// The machine. Every value of this type is a valid machine state: the
/// program counter and the index register are free 16-bit registers, and
/// whatever is used as an address is reduced modulo the size of the memory.
#[derive(Clone, Debug, PartialEq, Eq)]
pub struct Emulator {
    /// Main memory.
    pub mem: [u8; 4096],
    /// The display, eight pixels to a byte: pixel `p` is bit `p % 8` of byte
    /// `p / 8`, bit 0 being the least significant.
    pub disp: [u8; 256],
    /// The program counter.
    pub pc: u16,
    /// The index register.
    pub idx: u16,
    /// The call stack.
    pub stack: Stack,
    /// The delay timer.
    pub delay: u8,
    /// The sound timer.
    pub sound: u8,
    /// The general-purpose registers.
    pub reg: [u8; 16],
}

impl View for Emulator {
    type V = Machine;

    open spec fn view(&self) -> Machine {
        Machine {
            memory: self.mem@,
            pixels: pixels_of(self.disp@),
            registers: self.reg@,
            stack: self.stack@,
            pc: self.pc,
            idx: self.idx,
            delay: self.delay,
            sound: self.sound,
        }
    }
}

impl Emulator {
    /// The address at which programs are loaded and start to run.
    pub const PROGRAM_START: usize = 0x200;

    /// A machine that was just switched on.
    pub fn init() -> (emu: Self)
        ensures
            emu@ == Machine::initial(),
            emu@.well_formed(),
    {
        let emu = Emulator {
            mem: init_font(),
            disp: [0u8; 256],
            pc: Emulator::PROGRAM_START as u16,
            idx: 0,
            stack: Stack::new(),
            delay: 0,
            sound: 0,
            reg: [0u8; 16],
        };
        proof {
            lemma_zero_bytes_are_blank(emu.disp@);
            assert(emu@.registers =~= Machine::initial().registers);
        }
        emu
    }
}

} // verus!
