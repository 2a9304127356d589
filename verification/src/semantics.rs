//! What each instruction does, stated over the model of the machine.
//!
//! Conventions, where this instruction set has been read in more than one
//! way:
//!
//! * The program counter and the index register are 16-bit registers, and
//!   arithmetic on them wraps at 16 bits. Whatever is used as a memory
//!   address is reduced modulo the size of the memory.
//! * The bitwise, arithmetic and shift instructions of family 8 store their
//!   result first and the flag last, so that the flag register ends up
//!   holding the flag even where it is the destination. Only the copy of one
//!   register to another leaves the flag register alone.
//! * OR, AND and XOR produce no carry and set the flag to 0. Addition sets
//!   the flag to the carry. `x - y` sets the flag to 1 where `x > y`, and
//!   `y - x` where `y > x`; equal operands give flag 0. Results wrap at
//!   eight bits.
//! * The shifts shift register `x` in place and ignore register `y`.
//! * The key instructions select a key by the low four bits of the register.
//! * Storing and loading a register range covers registers 0 to `x`, both
//!   ends counted, and leaves the index register as it is.

use vstd::prelude::*;
use crate::display::blank;
use crate::instruction::{layout_of, Instruction, Layout};
use crate::keypad::{key_held, lowest_held};
use crate::machine::{Machine, FLAG_REGISTER, REGISTER_COUNT};
use crate::memory::{byte_at, with_byte, wrap_address, GLYPH_SIZE, MEMORY_SIZE};
use crate::sprite::sprite_drawn;

verus! {

/// Why an instruction was not carried out. None of these stops the machine:
/// the state stays as it was, and the next instruction is fetched as usual.
#[derive(Clone, Copy, Debug, PartialEq, Eq)]
pub enum Fault {
    /// A return was asked for while the call stack was empty.
    StackUnderflow,
    /// The instruction's family is above 15: it names no family.
    DecodeFault,
    /// The operands are not those of the family's layout (one is missing or
    /// uncalled for, or a register index, a byte or a nibble is too large for
    /// its field), or they select no operation of the family.
    UnhandledOperand,
    /// An address operand lies beyond the twelve bits of an address. Decoding
    /// masks every address to twelve bits, so that no decoded instruction has
    /// this fault.
    AddressOutOfRange,
}

/// The program counter one instruction further on.
pub open spec fn pc_after(pc: u16) -> u16 {
    ((pc + 2) % 0x10000) as u16
}

/// The program counter one instruction back.
pub open spec fn pc_before(pc: u16) -> u16 {
    ((pc + 0x10000 - 2) % 0x10000) as u16
}

/// The machine with the next instruction skipped where `skip` holds.
pub open spec fn skipping(m: Machine, skip: bool) -> Machine {
    if skip {
        Machine { pc: pc_after(m.pc), ..m }
    } else {
        m
    }
}

/// The machine with `value` in register `x`.
pub open spec fn with_register(m: Machine, x: int, value: u8) -> Machine {
    Machine { registers: m.registers.update(x, value), ..m }
}

/// The machine with `value` in register `x` and, written after it, the flag
/// in the flag register.
pub open spec fn with_flagged_result(m: Machine, x: int, value: u8, flag: bool) -> Machine {
    Machine {
        registers: m.registers.update(x, value).update(
            FLAG_REGISTER as int,
            if flag {
                1u8
            } else {
                0u8
            },
        ),
        ..m
    }
}

/// Family 0 with address operand `addr`: 0x0E0 clears the display, 0x0EE
/// returns from a subroutine.
pub open spec fn system_step(m: Machine, addr: int) -> Machine {
    if addr == 0x0E0 {
        Machine { pixels: blank(), ..m }
    } else if addr == 0x0EE && m.stack.len() > 0 {
        Machine { pc: m.stack.last(), stack: m.stack.drop_last(), ..m }
    } else {
        m
    }
}

/// What stands in the way of an instruction of family 0.
pub open spec fn system_fault(m: Machine, addr: int) -> Option<Fault> {
    if addr == 0x0E0 {
        None
    } else if addr == 0x0EE {
        if m.stack.len() > 0 {
            None
        } else {
            Some(Fault::StackUnderflow)
        }
    } else {
        Some(Fault::UnhandledOperand)
    }
}

/// Whether the nibble `n` selects an operation of family 8.
pub open spec fn alu_selects(n: int) -> bool {
    0 <= n <= 7 || n == 0xE
}

/// Family 8: the operation that nibble `n` selects, on registers `x` and `y`.
///
/// * 0 copies `y` to `x`.
/// * 1, 2 and 3 are OR, AND and XOR; the flag is 0.
/// * 4 adds `y` to `x`; the flag is the carry.
/// * 5 subtracts `y` from `x`; the flag is 1 where `x` was greater than `y`.
/// * 6 shifts `x` right by one; the flag is the bit shifted out.
/// * 7 stores `y` minus `x` in `x`; the flag is 1 where `y` was greater.
/// * E shifts `x` left by one; the flag is the bit shifted out.
pub open spec fn alu_step(m: Machine, x: int, y: int, n: int) -> Machine {
    let vx: u8 = m.registers[x];
    let vy: u8 = m.registers[y];
    if n == 0x0 {
        with_register(m, x, vy)
    } else if n == 0x1 {
        with_flagged_result(m, x, vx | vy, false)
    } else if n == 0x2 {
        with_flagged_result(m, x, vx & vy, false)
    } else if n == 0x3 {
        with_flagged_result(m, x, vx ^ vy, false)
    } else if n == 0x4 {
        with_flagged_result(m, x, ((vx + vy) % 0x100) as u8, vx + vy > 0xFF)
    } else if n == 0x5 {
        with_flagged_result(m, x, ((vx - vy) % 0x100) as u8, vx > vy)
    } else if n == 0x6 {
        with_flagged_result(m, x, vx / 2, vx % 2 == 1)
    } else if n == 0x7 {
        with_flagged_result(m, x, ((vy - vx) % 0x100) as u8, vy > vx)
    } else if n == 0xE {
        with_flagged_result(m, x, ((vx * 2) % 0x100) as u8, vx >= 0x80)
    } else {
        m
    }
}

/// Whether the byte `kk` selects an operation of family E.
pub open spec fn key_selects(kk: int) -> bool {
    kk == 0x9E || kk == 0xA1
}

/// Family E: skip the next instruction where the key that register `x`
/// selects is held (0x9E), or where it is not (0xA1).
pub open spec fn key_step(m: Machine, x: int, kk: int, keys: Seq<bool>) -> Machine {
    if kk == 0x9E {
        skipping(m, key_held(keys, m.registers[x]))
    } else if kk == 0xA1 {
        skipping(m, !key_held(keys, m.registers[x]))
    } else {
        m
    }
}

/// Whether the byte `kk` selects an operation of family F.
pub open spec fn misc_selects(kk: int) -> bool {
    kk == 0x07 || kk == 0x0A || kk == 0x15 || kk == 0x18 || kk == 0x1E || kk == 0x29 || kk == 0x33
        || kk == 0x55 || kk == 0x65
}

/// Memory `memory` with the three decimal digits of `value` stored at `idx`,
/// the hundreds first.
pub open spec fn with_decimal(memory: Seq<u8>, idx: u16, value: u8) -> Seq<u8> {
    with_byte(
        with_byte(with_byte(memory, idx as int, value / 100), idx + 1, (value / 10) % 10),
        idx + 2,
        value % 10,
    )
}

/// Memory `memory` with registers 0 to `x` stored from `idx` on.
pub open spec fn with_registers_stored(memory: Seq<u8>, registers: Seq<u8>, idx: u16, x: int) -> Seq<
    u8,
> {
    Seq::new(
        MEMORY_SIZE as nat,
        |a: int|
            if wrap_address(a - idx) <= x {
                registers[wrap_address(a - idx)]
            } else {
                memory[a]
            },
    )
}

/// The registers with registers 0 to `x` loaded from memory at `idx` on.
pub open spec fn with_registers_loaded(registers: Seq<u8>, memory: Seq<u8>, idx: u16, x: int) -> Seq<
    u8,
> {
    Seq::new(
        REGISTER_COUNT as nat,
        |r: int|
            if r <= x {
                byte_at(memory, idx + r)
            } else {
                registers[r]
            },
    )
}

/// Family F: the operation that byte `kk` selects, on register `x`.
///
/// * 0x07 reads the delay timer into the register.
/// * 0x0A waits for a key: where a key is held, the register gets the number
///   of the lowest key held; where none is, the program counter steps back,
///   so that the same instruction is fetched again.
/// * 0x15 and 0x18 set the delay and the sound timer from the register.
/// * 0x1E adds the register to the index register.
/// * 0x29 points the index register at the glyph of the register's value:
///   five times the value.
/// * 0x33 stores the register's three decimal digits at the index register.
/// * 0x55 stores and 0x65 loads registers 0 to `x` at the index register.
pub open spec fn misc_step(m: Machine, x: int, kk: int, keys: Seq<bool>) -> Machine {
    let vx: u8 = m.registers[x];
    if kk == 0x07 {
        with_register(m, x, m.delay)
    } else if kk == 0x0A {
        match lowest_held(keys) {
            Some(key) => with_register(m, x, key),
            None => Machine { pc: pc_before(m.pc), ..m },
        }
    } else if kk == 0x15 {
        Machine { delay: vx, ..m }
    } else if kk == 0x18 {
        Machine { sound: vx, ..m }
    } else if kk == 0x1E {
        Machine { idx: ((m.idx + vx) % 0x10000) as u16, ..m }
    } else if kk == 0x29 {
        Machine { idx: (vx * GLYPH_SIZE) as u16, ..m }
    } else if kk == 0x33 {
        Machine { memory: with_decimal(m.memory, m.idx, vx), ..m }
    } else if kk == 0x55 {
        Machine { memory: with_registers_stored(m.memory, m.registers, m.idx, x), ..m }
    } else if kk == 0x65 {
        Machine { registers: with_registers_loaded(m.registers, m.memory, m.idx, x), ..m }
    } else {
        m
    }
}

/// What is wrong with the shape of `instr`, if anything is: its family, the
/// operands it has, and their sizes. An instruction has no such fault exactly
/// where it is well formed.
pub open spec fn shape_fault(instr: Instruction) -> Option<Fault> {
    match layout_of(instr.opcode) {
        None => Some(Fault::DecodeFault),
        Some(Layout::Address) => {
            if instr.op1 is None || instr.op2 is Some || instr.op3 is Some {
                Some(Fault::UnhandledOperand)
            } else if instr.op1->0 >= 0x1000 {
                Some(Fault::AddressOutOfRange)
            } else {
                None
            }
        },
        Some(_) => {
            if instr.well_formed() {
                None
            } else {
                Some(Fault::UnhandledOperand)
            }
        },
    }
}

/// What stands in the way of carrying out `instr` on machine `m`, if
/// anything does.
pub open spec fn fault_of(m: Machine, instr: Instruction) -> Option<Fault> {
    if shape_fault(instr) is Some {
        shape_fault(instr)
    } else if instr.opcode == 0x0 {
        system_fault(m, instr.op1->0 as int)
    } else if instr.opcode == 0x8 && !alu_selects(instr.op3->0 as int) {
        Some(Fault::UnhandledOperand)
    } else if instr.opcode == 0xE && !key_selects(instr.op2->0 as int) {
        Some(Fault::UnhandledOperand)
    } else if instr.opcode == 0xF && !misc_selects(instr.op2->0 as int) {
        Some(Fault::UnhandledOperand)
    } else {
        None
    }
}

/// What carrying out `instr` reports: success, or the fault.
pub open spec fn outcome_of(m: Machine, instr: Instruction) -> Result<(), Fault> {
    match fault_of(m, instr) {
        Some(fault) => Err(fault),
        None => Ok(()),
    }
}

/// The machine after `instr` was carried out on machine `m`, with the keys in
/// the state `keys` and `random` as the random byte. The program counter of
/// `m` already points behind the instruction. An instruction that faults
/// leaves the machine as it is.
///
/// By family: 0 clears the display or returns; 1 jumps; 2 calls, pushing the
/// program counter; 3 and 4 skip where a register equals, or differs from, a
/// byte; 5 and 9 skip where two registers are equal, or differ; 6 loads and 7
/// adds a byte to a register, wrapping at eight bits and without a flag; 8 is
/// the arithmetic between registers; A sets the index register; B jumps to
/// an address plus register 0; C stores a random byte masked by a byte; D
/// draws a sprite; E skips on a key; F holds the timer, index and memory
/// operations.
pub open spec fn executed(m: Machine, instr: Instruction, keys: Seq<bool>, random: u8) -> Machine {
    let a: int = instr.op1->0 as int;
    let b: int = instr.op2->0 as int;
    let c: int = instr.op3->0 as int;
    if fault_of(m, instr) is Some {
        m
    } else if instr.opcode == 0x0 {
        system_step(m, a)
    } else if instr.opcode == 0x1 {
        Machine { pc: a as u16, ..m }
    } else if instr.opcode == 0x2 {
        Machine { pc: a as u16, stack: m.stack.push(m.pc), ..m }
    } else if instr.opcode == 0x3 {
        skipping(m, m.registers[a] == b)
    } else if instr.opcode == 0x4 {
        skipping(m, m.registers[a] != b)
    } else if instr.opcode == 0x5 {
        skipping(m, m.registers[a] == m.registers[b])
    } else if instr.opcode == 0x6 {
        with_register(m, a, b as u8)
    } else if instr.opcode == 0x7 {
        with_register(m, a, ((m.registers[a] + b) % 0x100) as u8)
    } else if instr.opcode == 0x8 {
        alu_step(m, a, b, c)
    } else if instr.opcode == 0x9 {
        skipping(m, m.registers[a] != m.registers[b])
    } else if instr.opcode == 0xA {
        Machine { idx: a as u16, ..m }
    } else if instr.opcode == 0xB {
        Machine { pc: (m.registers[0] + a) as u16, ..m }
    } else if instr.opcode == 0xC {
        with_register(m, a, random & (b as u8))
    } else if instr.opcode == 0xD {
        sprite_drawn(m, a, b, c)
    } else if instr.opcode == 0xE {
        key_step(m, a, b, keys)
    } else {
        misc_step(m, a, b, keys)
    }
}

/// Decoding prevents faults of shape by construction: whatever the word, the
/// decoded instruction names a family, has the operands of its layout, and
/// holds no address beyond twelve bits. Carrying it out can fail only on an
/// empty stack or on operands that select no operation.
pub proof fn lemma_decoded_instructions_are_sound(m: Machine, raw: u16)
    ensures
        shape_fault(Instruction::decoded(raw)) is None,
        fault_of(m, Instruction::decoded(raw)) matches Some(fault) ==> fault
            == Fault::StackUnderflow || fault == Fault::UnhandledOperand,
{
}

} // verus!
