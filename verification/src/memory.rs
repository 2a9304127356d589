//! Main memory: 4096 bytes, with the built-in glyph table at its start.
//!
//! Memory is addressed modulo its size: an address of 4096 or more names the
//! byte at the address reduced modulo 4096, and a 16-bit access at the last
//! byte continues at the first.

use vstd::prelude::*;
use crate::machine::{Emulator, Machine};

verus! {

/// The size of the memory in bytes.
pub const MEMORY_SIZE: usize = 4096;

/// The number of bytes of the glyph table.
pub const FONT_SIZE: usize = 80;

/// The number of bytes of one glyph.
pub const GLYPH_SIZE: usize = 5;

/// The glyphs of the sixteen hexadecimal digits, five bytes each. Each byte
/// is one row of the glyph, in its upper four bits.
pub const FONT: [u8; 80] = [
    0xF0, 0x90, 0x90, 0x90, 0xF0,
    0x20, 0x60, 0x20, 0x20, 0x70,
    0xF0, 0x10, 0xF0, 0x80, 0xF0,
    0xF0, 0x10, 0xF0, 0x10, 0xF0,
    0x90, 0x90, 0xF0, 0x10, 0x10,
    0xF0, 0x80, 0xF0, 0x10, 0xF0,
    0xF0, 0x80, 0xF0, 0x90, 0xF0,
    0xF0, 0x10, 0x20, 0x40, 0x40,
    0xF0, 0x90, 0xF0, 0x90, 0xF0,
    0xF0, 0x90, 0xF0, 0x10, 0xF0,
    0xF0, 0x90, 0xF0, 0x90, 0x90,
    0xE0, 0x90, 0xE0, 0x90, 0xE0,
    0xF0, 0x80, 0x80, 0x80, 0xF0,
    0xE0, 0x90, 0x90, 0x90, 0xE0,
    0xF0, 0x80, 0xF0, 0x80, 0xF0,
    0xF0, 0x80, 0xF0, 0x80, 0x80,
];

/// Why a program image could not be loaded.
#[derive(Clone, Copy, Debug, PartialEq, Eq)]
pub enum LoadError {
    /// The image source has no image of the name asked for.
    ImageNotFound,
    /// The image source has the image but could not supply its bytes.
    ImageUnreadable,
    /// The image does not fit between the load address and the end of memory.
    ImageTooLarge,
}

/// The place in memory that `addr` names.
pub open spec fn wrap_address(addr: int) -> int {
    addr % (MEMORY_SIZE as int)
}

/// The byte that memory `mem` holds at `addr`.
pub open spec fn byte_at(mem: Seq<u8>, addr: int) -> u8 {
    mem[wrap_address(addr)]
}

/// The 16-bit word that memory `mem` holds at `addr`: the high byte at
/// `addr`, the low byte at the address after it.
pub open spec fn word_at(mem: Seq<u8>, addr: int) -> u16 {
    (byte_at(mem, addr) * 0x100 + byte_at(mem, addr + 1)) as u16
}

/// Memory `mem` with `value` stored at `addr`.
pub open spec fn with_byte(mem: Seq<u8>, addr: int, value: u8) -> Seq<u8> {
    mem.update(wrap_address(addr), value)
}

/// Memory `mem` with the word `value` stored at `addr`, high byte first.
pub open spec fn with_word(mem: Seq<u8>, addr: int, value: u16) -> Seq<u8> {
    with_byte(with_byte(mem, addr, (value / 0x100) as u8), addr + 1, (value % 0x100) as u8)
}

/// Whether an image of `len` bytes fits between the load address and the end
/// of memory.
pub open spec fn image_fits(len: int) -> bool {
    len + Emulator::PROGRAM_START <= MEMORY_SIZE
}

/// Memory `mem` with the bytes of `image` stored from the load address on.
pub open spec fn with_image(mem: Seq<u8>, image: Seq<u8>) -> Seq<u8> {
    Seq::new(
        mem.len(),
        |a: int|
            if Emulator::PROGRAM_START <= a < Emulator::PROGRAM_START + image.len() {
                image[a - Emulator::PROGRAM_START]
            } else {
                mem[a]
            },
    )
}

/// Memory as it is when the machine is switched on: the glyph table from
/// address 0 on, zeros behind it.
pub open spec fn initial_memory() -> Seq<u8> {
    Seq::new(
        MEMORY_SIZE as nat,
        |a: int|
            if a < FONT_SIZE {
                FONT@[a]
            } else {
                0u8
            },
    )
}

/// Builds the memory of a machine that is switched on.
pub fn init_font() -> (mem: [u8; 4096])
    ensures
        mem@ == initial_memory(),
{
    let mut mem: [u8; 4096] = [0u8; 4096];
    let mut i: usize = 0;
    while i < FONT_SIZE
        invariant
            i <= FONT_SIZE,
            forall|a: int| 0 <= a < i ==> mem@[a] == FONT@[a],
            forall|a: int| i <= a < MEMORY_SIZE ==> mem@[a] == 0u8,
        decreases FONT_SIZE - i,
    {
        mem[i] = FONT[i];
        i += 1;
    }
    assert(mem@ =~= initial_memory());
    mem
}

impl Emulator {
    /// Reads the byte at `addr`.
    pub fn getWord(&self, addr: u16) -> (value: u8)
        ensures
            value == byte_at(self@.memory, addr as int),
    {
        self.mem[(addr % 4096) as usize]
    }

    /// Stores `value` at `addr`. Nothing else changes.
    pub fn putWord(&mut self, addr: u16, value: u8)
        ensures
            final(self)@ == (Machine {
                memory: with_byte(old(self)@.memory, addr as int, value),
                ..old(self)@
            }),
    {
        self.mem[(addr % 4096) as usize] = value;
    }

    /// Reads the 16-bit word at `addr`, high byte first.
    pub fn getDWord(&self, addr: u16) -> (value: u16)
        ensures
            value == word_at(self@.memory, addr as int),
    {
        let first: usize = (addr % 4096) as usize;
        let second: usize = (first + 1) % 4096;
        let msb: u16 = self.mem[first] as u16;
        let lsb: u16 = self.mem[second] as u16;
        assert((msb << 8) | lsb == msb * 0x100 + lsb) by (bit_vector)
            requires
                msb < 0x100,
                lsb < 0x100,
        ;
        (msb << 8) | lsb
    }

    /// Stores the 16-bit word `value` at `addr`, high byte first. Nothing else
    /// changes.
    pub fn putDWord(&mut self, addr: u16, value: u16)
        ensures
            final(self)@ == (Machine {
                memory: with_word(old(self)@.memory, addr as int, value),
                ..old(self)@
            }),
    {
        assert(value & 0xff == value % 0x100) by (bit_vector);
        assert((value >> 8) & 0xff == value / 0x100) by (bit_vector);
        let lsb: u8 = (value & 0xff) as u8;
        let msb: u8 = ((value >> 8) & 0xff) as u8;
        let first: usize = (addr % 4096) as usize;
        let second: usize = (first + 1) % 4096;
        self.mem[first] = msb;
        self.mem[second] = lsb;
        assert(self@.memory =~= with_word(old(self)@.memory, addr as int, value));
    }

    /// Takes what the image source supplied for a program: its bytes, or the
    /// reason why there are none. Bytes that fit are stored from the load
    /// address on. An image that is too large, or a failure of the source, is
    /// returned as the error, and the machine stays as it is.
    pub fn loadROM(&mut self, image: Result<Vec<u8>, LoadError>) -> (loaded: Result<(), LoadError>)
        ensures
            loaded == match image {
                Ok(bytes) => if image_fits(bytes@.len() as int) {
                    Ok(())
                } else {
                    Err(LoadError::ImageTooLarge)
                },
                Err(failure) => Err(failure),
            },
            final(self)@ == match image {
                Ok(bytes) if image_fits(bytes@.len() as int) => (Machine {
                    memory: with_image(old(self)@.memory, bytes@),
                    ..old(self)@
                }),
                _ => old(self)@,
            },
    {
        match image {
            Err(failure) => Err(failure),
            Ok(bytes) => {
                let len: usize = bytes.len();
                if len > MEMORY_SIZE - Emulator::PROGRAM_START {
                    return Err(LoadError::ImageTooLarge);
                }
                let start: usize = Emulator::PROGRAM_START;
                let mut i: usize = 0;
                while i < len
                    invariant
                        i <= len,
                        len == bytes@.len(),
                        start == Emulator::PROGRAM_START,
                        start + len <= MEMORY_SIZE,
                        forall|a: int|
                            start <= a < start + i ==> self.mem@[a] == bytes@[a - start],
                        forall|a: int|
                            0 <= a < MEMORY_SIZE && !(start <= a < start + i) ==> self.mem@[a]
                                == old(self).mem@[a],
                        self.disp == old(self).disp,
                        self.reg == old(self).reg,
                        self.stack == old(self).stack,
                        self.pc == old(self).pc,
                        self.idx == old(self).idx,
                        self.delay == old(self).delay,
                        self.sound == old(self).sound,
                    decreases len - i,
                {
                    self.mem[start + i] = bytes[i];
                    i += 1;
                }
                assert(self@.memory =~= with_image(old(self)@.memory, bytes@));
                Ok(())
            },
        }
    }
}

/// A word that was stored is the word read back, at every address and for
/// every value.
pub proof fn lemma_word_round_trip(mem: Seq<u8>, addr: u16, value: u16)
    requires
        mem.len() == MEMORY_SIZE,
    ensures
        word_at(with_word(mem, addr as int, value), addr as int) == value,
{
}

/// A byte that was stored is the byte read back, and every other place of
/// memory keeps what it held.
pub proof fn lemma_byte_round_trip(mem: Seq<u8>, addr: u16, value: u8, other: u16)
    requires
        mem.len() == MEMORY_SIZE,
    ensures
        byte_at(with_byte(mem, addr as int, value), addr as int) == value,
        wrap_address(other as int) != wrap_address(addr as int) ==> byte_at(
            with_byte(mem, addr as int, value),
            other as int,
        ) == byte_at(mem, other as int),
{
}

} // verus!
