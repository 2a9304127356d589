//! The execution engine: fetch an instruction word, decode it, carry it out.
//!
//! The host drives the cycle. Before each instruction it hands the machine
//! the state of the keys; the faults that an instruction reports are the
//! host's to log.

use vstd::prelude::*;
use crate::instruction::{layout, Instruction, Layout};
use crate::keypad::{first_held, is_held};
use crate::machine::{Emulator, Machine};
use crate::memory::word_at;
use crate::random::random_byte;
use crate::semantics::{
    alu_selects, alu_step, executed, key_selects, key_step, misc_selects, misc_step, outcome_of,
    pc_after, shape_fault, system_fault, system_step, with_decimal, with_flagged_result,
    with_registers_loaded, with_registers_stored, Fault,
};
use crate::sprite::draw_sprite;

verus! {

/// Reads the instruction word at the program counter and moves the program
/// counter behind it.
pub fn fetch(emu: &mut Emulator) -> (word: u16)
    ensures
        word == word_at(old(emu)@.memory, old(emu)@.pc as int),
        final(emu)@ == (Machine { pc: pc_after(old(emu)@.pc), ..old(emu)@ }),
{
    let instr: u16 = emu.getDWord(emu.pc);
    emu.pc = emu.pc.wrapping_add(2);
    instr
}

/// Family 0: clear the display, or return from a subroutine.
fn run_system(emu: &mut Emulator, addr: u16) -> (outcome: Result<(), Fault>)
    ensures
        final(emu)@ == system_step(old(emu)@, addr as int),
        outcome == match system_fault(old(emu)@, addr as int) {
            Some(fault) => Err(fault),
            None => Ok(()),
        },
{
    if addr == 0x0E0 {
        emu.clear();
        Ok(())
    } else if addr == 0x0EE {
        match emu.stack.pop() {
            Some(target) => {
                emu.pc = target;
                Ok(())
            },
            None => Err(Fault::StackUnderflow),
        }
    } else {
        Err(Fault::UnhandledOperand)
    }
}

/// Stores an arithmetic result in register `x` and the flag, last, in the
/// flag register.
fn store_flagged(emu: &mut Emulator, x: usize, value: u8, flag: bool)
    requires
        x < 16,
    ensures
        final(emu)@ == with_flagged_result(old(emu)@, x as int, value, flag),
{
    emu.reg[x] = value;
    emu.reg[0xF] = if flag {
        1
    } else {
        0
    };
}

/// Family 8: arithmetic between two registers.
fn run_alu(emu: &mut Emulator, x: usize, y: usize, n: u16) -> (outcome: Result<(), Fault>)
    requires
        x < 16,
        y < 16,
    ensures
        final(emu)@ == alu_step(old(emu)@, x as int, y as int, n as int),
        outcome == if alu_selects(n as int) {
            Ok::<(), Fault>(())
        } else {
            Err(Fault::UnhandledOperand)
        },
{
    let vx: u8 = emu.reg[x];
    let vy: u8 = emu.reg[y];
    match n {
        0x0 => {
            emu.reg[x] = vy;
        },
        0x1 => {
            store_flagged(emu, x, vx | vy, false);
        },
        0x2 => {
            store_flagged(emu, x, vx & vy, false);
        },
        0x3 => {
            store_flagged(emu, x, vx ^ vy, false);
        },
        0x4 => {
            let sum: u16 = vx as u16 + vy as u16;
            store_flagged(emu, x, (sum % 0x100) as u8, sum > 0xFF);
        },
        0x5 => {
            store_flagged(emu, x, vx.wrapping_sub(vy), vx > vy);
        },
        0x6 => {
            store_flagged(emu, x, vx / 2, vx % 2 == 1);
        },
        0x7 => {
            store_flagged(emu, x, vy.wrapping_sub(vx), vy > vx);
        },
        0xE => {
            store_flagged(emu, x, vx.wrapping_mul(2), vx >= 0x80);
        },
        _ => {
            return Err(Fault::UnhandledOperand);
        },
    }
    Ok(())
}

/// Family E: skip on the state of a key.
fn run_key(emu: &mut Emulator, x: usize, kk: u16, keys: &[bool; 16]) -> (outcome: Result<
    (),
    Fault,
>)
    requires
        x < 16,
    ensures
        final(emu)@ == key_step(old(emu)@, x as int, kk as int, keys@),
        outcome == if key_selects(kk as int) {
            Ok::<(), Fault>(())
        } else {
            Err(Fault::UnhandledOperand)
        },
{
    if kk == 0x9E {
        if is_held(keys, emu.reg[x]) {
            emu.pc = emu.pc.wrapping_add(2);
        }
        Ok(())
    } else if kk == 0xA1 {
        if !is_held(keys, emu.reg[x]) {
            emu.pc = emu.pc.wrapping_add(2);
        }
        Ok(())
    } else {
        Err(Fault::UnhandledOperand)
    }
}

/// Stores registers 0 to `x` in memory from the index register on.
fn store_registers(emu: &mut Emulator, x: usize)
    requires
        x < 16,
    ensures
        final(emu)@ == (Machine {
            memory: with_registers_stored(
                old(emu)@.memory,
                old(emu)@.registers,
                old(emu)@.idx,
                x as int,
            ),
            ..old(emu)@
        }),
{
    let mut i: usize = 0;
    while i <= x
        invariant
            i <= x + 1,
            x < 16,
            emu@ == (Machine { memory: emu@.memory, ..old(emu)@ }),
            emu@.memory == with_registers_stored(
                old(emu)@.memory,
                old(emu)@.registers,
                old(emu)@.idx,
                i - 1,
            ),
        decreases x + 1 - i,
    {
        emu.putWord(emu.idx.wrapping_add(i as u16), emu.reg[i]);
        assert(emu@.memory =~= with_registers_stored(
            old(emu)@.memory,
            old(emu)@.registers,
            old(emu)@.idx,
            i as int,
        ));
        i += 1;
    }
}

/// Loads registers 0 to `x` from memory at the index register on.
fn load_registers(emu: &mut Emulator, x: usize)
    requires
        x < 16,
    ensures
        final(emu)@ == (Machine {
            registers: with_registers_loaded(
                old(emu)@.registers,
                old(emu)@.memory,
                old(emu)@.idx,
                x as int,
            ),
            ..old(emu)@
        }),
{
    let mut i: usize = 0;
    while i <= x
        invariant
            i <= x + 1,
            x < 16,
            emu@ == (Machine { registers: emu@.registers, ..old(emu)@ }),
            emu@.registers == with_registers_loaded(
                old(emu)@.registers,
                old(emu)@.memory,
                old(emu)@.idx,
                i - 1,
            ),
        decreases x + 1 - i,
    {
        emu.reg[i] = emu.getWord(emu.idx.wrapping_add(i as u16));
        assert(emu@.registers =~= with_registers_loaded(
            old(emu)@.registers,
            old(emu)@.memory,
            old(emu)@.idx,
            i as int,
        ));
        i += 1;
    }
}

/// Family F: timers, keys, the index register and memory.
fn run_misc(emu: &mut Emulator, x: usize, kk: u16, keys: &[bool; 16]) -> (outcome: Result<
    (),
    Fault,
>)
    requires
        x < 16,
    ensures
        final(emu)@ == misc_step(old(emu)@, x as int, kk as int, keys@),
        outcome == if misc_selects(kk as int) {
            Ok::<(), Fault>(())
        } else {
            Err(Fault::UnhandledOperand)
        },
{
    let vx: u8 = emu.reg[x];
    match kk {
        0x07 => {
            emu.reg[x] = emu.delay;
        },
        0x0A => {
            match first_held(keys) {
                Some(key) => {
                    emu.reg[x] = key;
                },
                None => {
                    emu.pc = emu.pc.wrapping_sub(2);
                },
            }
        },
        0x15 => {
            emu.delay = vx;
        },
        0x18 => {
            emu.sound = vx;
        },
        0x1E => {
            emu.idx = emu.idx.wrapping_add(vx as u16);
        },
        0x29 => {
            emu.idx = vx as u16 * 5;
        },
        0x33 => {
            let idx: u16 = emu.idx;
            emu.putWord(idx, vx / 100);
            emu.putWord(idx.wrapping_add(1), (vx / 10) % 10);
            emu.putWord(idx.wrapping_add(2), vx % 10);
            assert(emu@.memory =~= with_decimal(old(emu)@.memory, old(emu)@.idx, vx));
        },
        0x55 => {
            store_registers(emu, x);
        },
        0x65 => {
            load_registers(emu, x);
        },
        _ => {
            return Err(Fault::UnhandledOperand);
        },
    }
    Ok(())
}

/// Finds what is wrong with the shape of an instruction.
fn check_shape(instr: &Instruction) -> (fault: Option<Fault>)
    ensures
        fault == shape_fault(*instr),
{
    match layout(instr.opcode) {
        None => Some(Fault::DecodeFault),
        Some(Layout::Address) => match (instr.op1, instr.op2, instr.op3) {
            (Some(addr), None, None) => if addr < 0x1000 {
                None
            } else {
                Some(Fault::AddressOutOfRange)
            },
            _ => Some(Fault::UnhandledOperand),
        },
        Some(_) => if instr.is_well_formed() {
            None
        } else {
            Some(Fault::UnhandledOperand)
        },
    }
}

/// Carries out one decoded instruction, with `random` as the random byte.
///
/// The program counter is taken to point behind the instruction already, as
/// `fetch` leaves it. `keys` holds, for each of the sixteen keys, whether it
/// is held. An instruction that cannot be carried out is reported as a fault
/// and leaves the machine as it is.
pub fn execute_with(
    emu: &mut Emulator,
    instr: Instruction,
    keys: &[bool; 16],
    random: u8,
) -> (outcome: Result<(), Fault>)
    ensures
        final(emu)@ == executed(old(emu)@, instr, keys@, random),
        outcome == outcome_of(old(emu)@, instr),
{
    if let Some(fault) = check_shape(&instr) {
        return Err(fault);
    }
    let a: u16 = match instr.op1 {
        Some(value) => value,
        None => 0,
    };
    let b: u16 = match instr.op2 {
        Some(value) => value,
        None => 0,
    };
    let c: u16 = match instr.op3 {
        Some(value) => value,
        None => 0,
    };
    let x: usize = a as usize;
    let y: usize = b as usize;
    match instr.opcode {
        0x0 => run_system(emu, a),
        0x1 => {
            emu.pc = a;
            Ok(())
        },
        0x2 => {
            emu.stack.push(emu.pc);
            emu.pc = a;
            Ok(())
        },
        0x3 => {
            if emu.reg[x] == b as u8 {
                emu.pc = emu.pc.wrapping_add(2);
            }
            Ok(())
        },
        0x4 => {
            if emu.reg[x] != b as u8 {
                emu.pc = emu.pc.wrapping_add(2);
            }
            Ok(())
        },
        0x5 => {
            if emu.reg[x] == emu.reg[y] {
                emu.pc = emu.pc.wrapping_add(2);
            }
            Ok(())
        },
        0x6 => {
            emu.reg[x] = b as u8;
            Ok(())
        },
        0x7 => {
            emu.reg[x] = emu.reg[x].wrapping_add(b as u8);
            Ok(())
        },
        0x8 => run_alu(emu, x, y, c),
        0x9 => {
            if emu.reg[x] != emu.reg[y] {
                emu.pc = emu.pc.wrapping_add(2);
            }
            Ok(())
        },
        0xA => {
            emu.idx = a;
            Ok(())
        },
        0xB => {
            emu.pc = emu.reg[0] as u16 + a;
            Ok(())
        },
        0xC => {
            emu.reg[x] = random & (b as u8);
            Ok(())
        },
        0xD => {
            draw_sprite(emu, x, y, c as u8);
            Ok(())
        },
        0xE => run_key(emu, x, b, keys),
        _ => run_misc(emu, x, b, keys),
    }
}

/// Whether carrying out `instr` draws a random byte.
pub open spec fn draws_random(instr: Instruction) -> bool {
    instr.well_formed() && instr.opcode == 0xC
}

/// Carries out one decoded instruction. Where the instruction asks for a
/// random byte, one is drawn; what the instruction does with it is what
/// `execute_with` does with that byte.
pub fn execute(emu: &mut Emulator, instr: Instruction, keys: &[bool; 16]) -> (outcome: Result<
    (),
    Fault,
>)
    ensures
        outcome == outcome_of(old(emu)@, instr),
        exists|random: u8| final(emu)@ == #[trigger] executed(old(emu)@, instr, keys@, random),
        !draws_random(instr) ==> final(emu)@ == executed(old(emu)@, instr, keys@, 0),
{
    let random: u8 = if instr.opcode == 0xC && instr.is_well_formed() {
        random_byte()
    } else {
        0
    };
    execute_with(emu, instr, keys, random)
}

} // verus!
