//! Instruction words and their decoding.
//!
//! An instruction is one 16-bit word. Its top four bits select the operation
//! family; the other twelve bits hold the operands, laid out in one of three
//! fixed ways that the family determines.

use vstd::prelude::*;

verus! {

/// How the low twelve bits of an instruction word are divided into operands.
#[derive(Clone, Copy, Debug, PartialEq, Eq)]
pub enum Layout {
    /// One 12-bit address (bits 11-0).
    Address,
    /// A register index (bits 11-8) and an 8-bit immediate (bits 7-0).
    RegisterByte,
    /// Two register indices (bits 11-8 and 7-4) and a nibble (bits 3-0).
    RegisterPair,
}

/// One decoded instruction: the operation family and up to three operands.
#[derive(Clone, Copy, Debug, PartialEq, Eq)]
pub struct Instruction {
    /// The operation family, the top four bits of the word.
    pub opcode: u8,
    /// The address, or the first register index.
    pub op1: Option<u16>,
    /// The immediate byte, or the second register index.
    pub op2: Option<u16>,
    /// The trailing nibble of the register-pair layout.
    pub op3: Option<u16>,
}

/// The operand layout of each operation family. The families run from 0 to
/// 15; a larger number names no family and has no layout.
pub open spec fn layout_of(opcode: u8) -> Option<Layout> {
    if opcode == 0x0 || opcode == 0x1 || opcode == 0x2 || opcode == 0xA || opcode == 0xB {
        Some(Layout::Address)
    } else if opcode == 0x3 || opcode == 0x4 || opcode == 0x6 || opcode == 0x7 || opcode == 0xC
        || opcode == 0xE || opcode == 0xF {
        Some(Layout::RegisterByte)
    } else if opcode == 0x5 || opcode == 0x8 || opcode == 0x9 || opcode == 0xD {
        Some(Layout::RegisterPair)
    } else {
        None
    }
}

/// Looks up the operand layout of an operation family.
pub fn layout(opcode: u8) -> (found: Option<Layout>)
    ensures
        found == layout_of(opcode),
{
    match opcode {
        0x0 | 0x1 | 0x2 | 0xA | 0xB => Some(Layout::Address),
        0x3 | 0x4 | 0x6 | 0x7 | 0xC | 0xE | 0xF => Some(Layout::RegisterByte),
        0x5 | 0x8 | 0x9 | 0xD => Some(Layout::RegisterPair),
        _ => None,
    }
}

impl Instruction {
    /// The instruction that the word `raw` encodes.
    pub open spec fn decoded(raw: u16) -> Instruction {
        let opcode: u8 = (raw / 0x1000) as u8;
        match layout_of(opcode) {
            Some(Layout::Address) => Instruction {
                opcode,
                op1: Some((raw % 0x1000) as u16),
                op2: None,
                op3: None,
            },
            Some(Layout::RegisterByte) => Instruction {
                opcode,
                op1: Some(((raw / 0x100) % 0x10) as u16),
                op2: Some((raw % 0x100) as u16),
                op3: None,
            },
            Some(Layout::RegisterPair) => Instruction {
                opcode,
                op1: Some(((raw / 0x100) % 0x10) as u16),
                op2: Some(((raw / 0x10) % 0x10) as u16),
                op3: Some((raw % 0x10) as u16),
            },
            None => Instruction { opcode, op1: None, op2: None, op3: None },
        }
    }

    /// Whether the instruction has the shape that decoding gives: a family
    /// from 0 to 15, exactly the operands of that family's layout, and every
    /// operand within the width of its field.
    pub open spec fn well_formed(self) -> bool {
        match layout_of(self.opcode) {
            Some(Layout::Address) => {
                &&& self.op1 matches Some(addr)
                &&& addr < 0x1000
                &&& self.op2 is None
                &&& self.op3 is None
            },
            Some(Layout::RegisterByte) => {
                &&& self.op1 matches Some(x)
                &&& x < 0x10
                &&& self.op2 matches Some(byte)
                &&& byte < 0x100
                &&& self.op3 is None
            },
            Some(Layout::RegisterPair) => {
                &&& self.op1 matches Some(x)
                &&& x < 0x10
                &&& self.op2 matches Some(y)
                &&& y < 0x10
                &&& self.op3 matches Some(n)
                &&& n < 0x10
            },
            None => false,
        }
    }

    /// The word that encodes a well-formed instruction.
    pub open spec fn encoded(self) -> int {
        match layout_of(self.opcode) {
            Some(Layout::Address) => self.opcode * 0x1000 + self.op1->0,
            Some(Layout::RegisterByte) => self.opcode * 0x1000 + self.op1->0 * 0x100 + self.op2->0,
            Some(Layout::RegisterPair) => self.opcode * 0x1000 + self.op1->0 * 0x100 + self.op2->0
                * 0x10 + self.op3->0,
            None => 0,
        }
    }

    /// Tells whether the instruction has the shape that decoding gives.
    pub fn is_well_formed(&self) -> (ok: bool)
        ensures
            ok == self.well_formed(),
    {
        match layout(self.opcode) {
            Some(Layout::Address) => match (self.op1, self.op2, self.op3) {
                (Some(addr), None, None) => addr < 0x1000,
                _ => false,
            },
            Some(Layout::RegisterByte) => match (self.op1, self.op2, self.op3) {
                (Some(x), Some(byte), None) => x < 0x10 && byte < 0x100,
                _ => false,
            },
            Some(Layout::RegisterPair) => match (self.op1, self.op2, self.op3) {
                (Some(x), Some(y), Some(n)) => x < 0x10 && y < 0x10 && n < 0x10,
                _ => false,
            },
            None => false,
        }
    }

    /// Decodes one instruction word. Every word decodes.
    pub fn new(raw: u16) -> (instr: Instruction)
        ensures
            instr == Self::decoded(raw),
            instr.well_formed(),
    {
        assert((raw >> 12) & 0xf == raw / 0x1000) by (bit_vector);
        assert(raw & 0xfff == raw % 0x1000) by (bit_vector);
        assert((raw >> 8) & 0xf == (raw / 0x100) % 0x10) by (bit_vector);
        assert(raw & 0xff == raw % 0x100) by (bit_vector);
        assert((raw >> 4) & 0xf == (raw / 0x10) % 0x10) by (bit_vector);
        assert(raw & 0xf == raw % 0x10) by (bit_vector);
        let opcode: u8 = ((raw >> 12) & 0xf) as u8;
        let mut instr = Instruction { opcode, op1: None, op2: None, op3: None };
        match layout(opcode) {
            Some(Layout::Address) => {
                instr.op1 = Some(raw & 0xfff);
            },
            Some(Layout::RegisterByte) => {
                instr.op1 = Some((raw >> 8) & 0xf);
                instr.op2 = Some(raw & 0xff);
            },
            Some(Layout::RegisterPair) => {
                instr.op1 = Some((raw >> 8) & 0xf);
                instr.op2 = Some((raw >> 4) & 0xf);
                instr.op3 = Some(raw & 0xf);
            },
            None => {},
        }
        instr
    }
}

/// Decodes one instruction word.
pub fn decode(dword: u16) -> (instr: Instruction)
    ensures
        instr == Instruction::decoded(dword),
        instr.well_formed(),
{
    Instruction::new(dword)
}

/// Decoding is total and a function of the word alone: every word yields a
/// well-formed instruction of the family in its top four bits, and equal
/// words yield equal instructions.
pub proof fn lemma_decoding_is_total_and_deterministic(first: u16, second: u16)
    ensures
        Instruction::decoded(first).well_formed(),
        Instruction::decoded(first).opcode == first / 0x1000,
        first == second ==> Instruction::decoded(first) == Instruction::decoded(second),
{
}

/// Decoding loses nothing: the decoded instruction encodes the word it came
/// from, so different words decode to different instructions.
pub proof fn lemma_decoding_keeps_the_word(raw: u16)
    ensures
        Instruction::decoded(raw).encoded() == raw,
{
    assert((raw / 0x1000) * 0x1000 + raw % 0x1000 == raw) by (bit_vector);
    assert((raw / 0x1000) * 0x1000 + ((raw / 0x100) % 0x10) * 0x100 + raw % 0x100 == raw)
        by (bit_vector);
    assert((raw / 0x1000) * 0x1000 + ((raw / 0x100) % 0x10) * 0x100 + ((raw / 0x10) % 0x10) * 0x10
        + raw % 0x10 == raw) by (bit_vector);
}

} // verus!
