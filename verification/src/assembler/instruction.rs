//! Instructions with their operands, and the code word of each.

use crate::opcode::Opcode;
use vstd::prelude::*;
use vstd::std_specs::convert::FromSpecImpl;

verus! {

/// One instruction: an operation with its register indices and, for `LOAD`, its number.
#[derive(Debug, PartialEq, Eq, Clone, Copy, Structural)]
pub enum Instruction {
    HLT,
    LOAD(u8, i32),
    ADD(u8, u8, u8),
    SUB(u8, u8, u8),
    MUL(u8, u8, u8),
    DIV(u8, u8, u8),
    JMP(u8),
    JMPF(u8),
    JMPB(u8),
    EQ(u8, u8),
    NEQ(u8, u8),
    GT(u8, u8),
    LT(u8, u8),
    GTQ(u8, u8),
    LTQ(u8, u8),
    JEQ(u8),
    JNEQ(u8),
}

/// The lowest eight bits of a number.
pub open spec fn low_byte(i: i32) -> u8 {
    (i % 256) as u8
}

/// Bits eight to fifteen of a number.
pub open spec fn high_byte(i: i32) -> u8 {
    ((i / 256) % 256) as u8
}

impl Instruction {
    /// The operation of an instruction.
    pub open spec fn opcode(self) -> Opcode {
        match self {
            Instruction::HLT => Opcode::HLT,
            Instruction::LOAD(_, _) => Opcode::LOAD,
            Instruction::ADD(_, _, _) => Opcode::ADD,
            Instruction::SUB(_, _, _) => Opcode::SUB,
            Instruction::MUL(_, _, _) => Opcode::MUL,
            Instruction::DIV(_, _, _) => Opcode::DIV,
            Instruction::JMP(_) => Opcode::JMP,
            Instruction::JMPF(_) => Opcode::JMPF,
            Instruction::JMPB(_) => Opcode::JMPB,
            Instruction::EQ(_, _) => Opcode::EQ,
            Instruction::NEQ(_, _) => Opcode::NEQ,
            Instruction::GT(_, _) => Opcode::GT,
            Instruction::LT(_, _) => Opcode::LT,
            Instruction::GTQ(_, _) => Opcode::GTQ,
            Instruction::LTQ(_, _) => Opcode::LTQ,
            Instruction::JEQ(_) => Opcode::JEQ,
            Instruction::JNEQ(_) => Opcode::JNEQ,
        }
    }

    /// The code word of an instruction: the opcode byte, then the operands, then zeros.
    /// Of the number of a `LOAD` the lowest sixteen bits are kept, the high byte first.
    pub open spec fn word(self) -> Seq<u8> {
        match self {
            Instruction::HLT => seq![0, 0, 0, 0],
            Instruction::LOAD(reg, number) => seq![1, reg, high_byte(number), low_byte(number)],
            Instruction::ADD(reg1, reg2, reg3) => seq![2, reg1, reg2, reg3],
            Instruction::SUB(reg1, reg2, reg3) => seq![3, reg1, reg2, reg3],
            Instruction::MUL(reg1, reg2, reg3) => seq![4, reg1, reg2, reg3],
            Instruction::DIV(reg1, reg2, reg3) => seq![5, reg1, reg2, reg3],
            Instruction::JMP(reg) => seq![6, reg, 0, 0],
            Instruction::JMPF(reg) => seq![7, reg, 0, 0],
            Instruction::JMPB(reg) => seq![8, reg, 0, 0],
            Instruction::EQ(reg1, reg2) => seq![9, reg1, reg2, 0],
            Instruction::NEQ(reg1, reg2) => seq![10, reg1, reg2, 0],
            Instruction::GT(reg1, reg2) => seq![11, reg1, reg2, 0],
            Instruction::LT(reg1, reg2) => seq![12, reg1, reg2, 0],
            Instruction::GTQ(reg1, reg2) => seq![13, reg1, reg2, 0],
            Instruction::LTQ(reg1, reg2) => seq![14, reg1, reg2, 0],
            Instruction::JEQ(reg) => seq![15, reg, 0, 0],
            Instruction::JNEQ(reg) => seq![16, reg, 0, 0],
        }
    }

    /// The instruction that a code word holds, if its first byte is an opcode. The number
    /// of a `LOAD` is read without a sign. Bytes that the operation does not use are not
    /// looked at.
    pub open spec fn of_word(word: Seq<u8>) -> Option<Instruction> {
        match word[0] {
            0 => Some(Instruction::HLT),
            1 => Some(Instruction::LOAD(word[1], (word[2] * 256 + word[3]) as i32)),
            2 => Some(Instruction::ADD(word[1], word[2], word[3])),
            3 => Some(Instruction::SUB(word[1], word[2], word[3])),
            4 => Some(Instruction::MUL(word[1], word[2], word[3])),
            5 => Some(Instruction::DIV(word[1], word[2], word[3])),
            6 => Some(Instruction::JMP(word[1])),
            7 => Some(Instruction::JMPF(word[1])),
            8 => Some(Instruction::JMPB(word[1])),
            9 => Some(Instruction::EQ(word[1], word[2])),
            10 => Some(Instruction::NEQ(word[1], word[2])),
            11 => Some(Instruction::GT(word[1], word[2])),
            12 => Some(Instruction::LT(word[1], word[2])),
            13 => Some(Instruction::GTQ(word[1], word[2])),
            14 => Some(Instruction::LTQ(word[1], word[2])),
            15 => Some(Instruction::JEQ(word[1])),
            16 => Some(Instruction::JNEQ(word[1])),
            _ => None,
        }
    }

    /// Encodes the instruction as one code word.
    pub fn encode(&self) -> (word: [u8; 4])
        ensures
            word@ == self.word(),
    {
        let word: [u8; 4] = match self {
            Instruction::HLT => [0, 0, 0, 0],
            Instruction::LOAD(reg, number) => [
                1,
                *reg,
                high_byte_of(*number),
                low_byte_of(*number),
            ],
            Instruction::ADD(reg1, reg2, reg3) => [2, *reg1, *reg2, *reg3],
            Instruction::SUB(reg1, reg2, reg3) => [3, *reg1, *reg2, *reg3],
            Instruction::MUL(reg1, reg2, reg3) => [4, *reg1, *reg2, *reg3],
            Instruction::DIV(reg1, reg2, reg3) => [5, *reg1, *reg2, *reg3],
            Instruction::JMP(reg) => [6, *reg, 0, 0],
            Instruction::JMPF(reg) => [7, *reg, 0, 0],
            Instruction::JMPB(reg) => [8, *reg, 0, 0],
            Instruction::EQ(reg1, reg2) => [9, *reg1, *reg2, 0],
            Instruction::NEQ(reg1, reg2) => [10, *reg1, *reg2, 0],
            Instruction::GT(reg1, reg2) => [11, *reg1, *reg2, 0],
            Instruction::LT(reg1, reg2) => [12, *reg1, *reg2, 0],
            Instruction::GTQ(reg1, reg2) => [13, *reg1, *reg2, 0],
            Instruction::LTQ(reg1, reg2) => [14, *reg1, *reg2, 0],
            Instruction::JEQ(reg) => [15, *reg, 0, 0],
            Instruction::JNEQ(reg) => [16, *reg, 0, 0],
        };
        assert(word@ =~= self.word());
        word
    }

    /// Decodes a code word.
    pub fn decode(word: [u8; 4]) -> (i: Option<Instruction>)
        ensures
            i == Instruction::of_word(word@),
    {
        match word[0] {
            0 => Some(Instruction::HLT),
            1 => Some(Instruction::LOAD(word[1], (word[2] as i32) * 256 + (word[3] as i32))),
            2 => Some(Instruction::ADD(word[1], word[2], word[3])),
            3 => Some(Instruction::SUB(word[1], word[2], word[3])),
            4 => Some(Instruction::MUL(word[1], word[2], word[3])),
            5 => Some(Instruction::DIV(word[1], word[2], word[3])),
            6 => Some(Instruction::JMP(word[1])),
            7 => Some(Instruction::JMPF(word[1])),
            8 => Some(Instruction::JMPB(word[1])),
            9 => Some(Instruction::EQ(word[1], word[2])),
            10 => Some(Instruction::NEQ(word[1], word[2])),
            11 => Some(Instruction::GT(word[1], word[2])),
            12 => Some(Instruction::LT(word[1], word[2])),
            13 => Some(Instruction::GTQ(word[1], word[2])),
            14 => Some(Instruction::LTQ(word[1], word[2])),
            15 => Some(Instruction::JEQ(word[1])),
            16 => Some(Instruction::JNEQ(word[1])),
            _ => None,
        }
    }
}

fn low_byte_of(i: i32) -> (b: u8)
    ensures
        b == low_byte(i),
{
    match i.checked_rem_euclid(256) {
        Some(r) => r as u8,
        None => 0,
    }
}

fn high_byte_of(i: i32) -> (b: u8)
    ensures
        b == high_byte(i),
{
    match i.checked_div_euclid(256) {
        Some(q) => low_byte_of(q),
        None => 0,
    }
}

impl From<Instruction> for Opcode {
    /// The operation of an instruction.
    fn from(value: Instruction) -> (op: Opcode) {
        match value {
            Instruction::HLT => Opcode::HLT,
            Instruction::LOAD(_, _) => Opcode::LOAD,
            Instruction::ADD(_, _, _) => Opcode::ADD,
            Instruction::SUB(_, _, _) => Opcode::SUB,
            Instruction::MUL(_, _, _) => Opcode::MUL,
            Instruction::DIV(_, _, _) => Opcode::DIV,
            Instruction::JMP(_) => Opcode::JMP,
            Instruction::JMPF(_) => Opcode::JMPF,
            Instruction::JMPB(_) => Opcode::JMPB,
            Instruction::EQ(_, _) => Opcode::EQ,
            Instruction::NEQ(_, _) => Opcode::NEQ,
            Instruction::GT(_, _) => Opcode::GT,
            Instruction::LT(_, _) => Opcode::LT,
            Instruction::GTQ(_, _) => Opcode::GTQ,
            Instruction::LTQ(_, _) => Opcode::LTQ,
            Instruction::JEQ(_) => Opcode::JEQ,
            Instruction::JNEQ(_) => Opcode::JNEQ,
        }
    }
}

impl FromSpecImpl<Instruction> for Opcode {
    open spec fn obeys_from_spec() -> bool {
        true
    }

    open spec fn from_spec(v: Instruction) -> Opcode {
        v.opcode()
    }
}

/// Decoding the code word of an instruction gives the instruction back, where the number
/// of a `LOAD` is one of sixteen bits without a sign.
pub proof fn lemma_decode_encode(i: Instruction)
    requires
        i matches Instruction::LOAD(_, number) ==> 0 <= number < 65536,
    ensures
        i.word().len() == 4,
        Instruction::of_word(i.word()) == Some(i),
{
}

/// Decoding the code word of any instruction gives an instruction with the same code
/// word: of the number of a `LOAD` the sixteen lowest bits come back.
pub proof fn lemma_encode_decode_encode(i: Instruction)
    ensures
        Instruction::of_word(i.word()) matches Some(j) && j.word() == i.word() && j.opcode()
            == i.opcode(),
{
    let j = Instruction::of_word(i.word())->0;
    assert(j.word() =~= i.word());
}

/// The first byte of a code word is the byte of the operation.
pub proof fn lemma_word_starts_with_opcode(i: Instruction)
    ensures
        i.word().len() == 4,
        i.word()[0] == i.opcode().byte(),
{
}

} // verus!
