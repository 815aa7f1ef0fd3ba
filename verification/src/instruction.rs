//! Operations with a place for the illegal one: every byte and every word decodes to a
//! value of this `Opcode`.

use crate::opcode;
use crate::text::chars_of;
use vstd::prelude::*;
use vstd::std_specs::convert::FromSpecImpl;

verus! {

/// An operation, or `IGL` for anything that is none.
#[derive(Debug, PartialEq, Eq, Clone, Copy, Structural)]
pub enum Opcode {
    HLT,
    LOAD,
    ADD,
    SUB,
    MUL,
    DIV,
    JMP,
    JMPF,
    JMPB,
    EQ,
    NEQ,
    GT,
    LT,
    GTQ,
    LTQ,
    JEQ,
    JNEQ,
    IGL,
}

impl Opcode {
    /// The legal operation behind this value; `IGL` has none.
    pub open spec fn legal(self) -> Option<opcode::Opcode> {
        match self {
            Opcode::HLT => Some(opcode::Opcode::HLT),
            Opcode::LOAD => Some(opcode::Opcode::LOAD),
            Opcode::ADD => Some(opcode::Opcode::ADD),
            Opcode::SUB => Some(opcode::Opcode::SUB),
            Opcode::MUL => Some(opcode::Opcode::MUL),
            Opcode::DIV => Some(opcode::Opcode::DIV),
            Opcode::JMP => Some(opcode::Opcode::JMP),
            Opcode::JMPF => Some(opcode::Opcode::JMPF),
            Opcode::JMPB => Some(opcode::Opcode::JMPB),
            Opcode::EQ => Some(opcode::Opcode::EQ),
            Opcode::NEQ => Some(opcode::Opcode::NEQ),
            Opcode::GT => Some(opcode::Opcode::GT),
            Opcode::LT => Some(opcode::Opcode::LT),
            Opcode::GTQ => Some(opcode::Opcode::GTQ),
            Opcode::LTQ => Some(opcode::Opcode::LTQ),
            Opcode::JEQ => Some(opcode::Opcode::JEQ),
            Opcode::JNEQ => Some(opcode::Opcode::JNEQ),
            Opcode::IGL => None,
        }
    }

    /// A legal operation as a value of this type.
    pub open spec fn of_legal(op: opcode::Opcode) -> Opcode {
        match op {
            opcode::Opcode::HLT => Opcode::HLT,
            opcode::Opcode::LOAD => Opcode::LOAD,
            opcode::Opcode::ADD => Opcode::ADD,
            opcode::Opcode::SUB => Opcode::SUB,
            opcode::Opcode::MUL => Opcode::MUL,
            opcode::Opcode::DIV => Opcode::DIV,
            opcode::Opcode::JMP => Opcode::JMP,
            opcode::Opcode::JMPF => Opcode::JMPF,
            opcode::Opcode::JMPB => Opcode::JMPB,
            opcode::Opcode::EQ => Opcode::EQ,
            opcode::Opcode::NEQ => Opcode::NEQ,
            opcode::Opcode::GT => Opcode::GT,
            opcode::Opcode::LT => Opcode::LT,
            opcode::Opcode::GTQ => Opcode::GTQ,
            opcode::Opcode::LTQ => Opcode::LTQ,
            opcode::Opcode::JEQ => Opcode::JEQ,
            opcode::Opcode::JNEQ => Opcode::JNEQ,
        }
    }

    /// What a possibly failed lookup stands for: the operation found, or `IGL`.
    pub open spec fn or_illegal(found: Option<opcode::Opcode>) -> Opcode {
        match found {
            Some(op) => Opcode::of_legal(op),
            None => Opcode::IGL,
        }
    }

    /// The operation that a byte encodes; `IGL` for every byte above 16.
    pub open spec fn of_byte(b: u8) -> Opcode {
        Opcode::or_illegal(opcode::Opcode::of_byte(b))
    }

    /// The operation that a word names, ignoring case; `IGL` for every other word.
    pub open spec fn of_name(name: Seq<char>) -> Opcode {
        Opcode::or_illegal(opcode::Opcode::of_name(name))
    }

    fn widen(found: Option<opcode::Opcode>) -> (op: Opcode)
        ensures
            op == Opcode::or_illegal(found),
    {
        match found {
            Some(opcode::Opcode::HLT) => Opcode::HLT,
            Some(opcode::Opcode::LOAD) => Opcode::LOAD,
            Some(opcode::Opcode::ADD) => Opcode::ADD,
            Some(opcode::Opcode::SUB) => Opcode::SUB,
            Some(opcode::Opcode::MUL) => Opcode::MUL,
            Some(opcode::Opcode::DIV) => Opcode::DIV,
            Some(opcode::Opcode::JMP) => Opcode::JMP,
            Some(opcode::Opcode::JMPF) => Opcode::JMPF,
            Some(opcode::Opcode::JMPB) => Opcode::JMPB,
            Some(opcode::Opcode::EQ) => Opcode::EQ,
            Some(opcode::Opcode::NEQ) => Opcode::NEQ,
            Some(opcode::Opcode::GT) => Opcode::GT,
            Some(opcode::Opcode::LT) => Opcode::LT,
            Some(opcode::Opcode::GTQ) => Opcode::GTQ,
            Some(opcode::Opcode::LTQ) => Opcode::LTQ,
            Some(opcode::Opcode::JEQ) => Opcode::JEQ,
            Some(opcode::Opcode::JNEQ) => Opcode::JNEQ,
            None => Opcode::IGL,
        }
    }
}

impl From<u8> for Opcode {
    /// The operation that a byte encodes; `IGL` for every byte above 16.
    fn from(value: u8) -> (op: Opcode) {
        match value {
            0 => Opcode::HLT,
            1 => Opcode::LOAD,
            2 => Opcode::ADD,
            3 => Opcode::SUB,
            4 => Opcode::MUL,
            5 => Opcode::DIV,
            6 => Opcode::JMP,
            7 => Opcode::JMPF,
            8 => Opcode::JMPB,
            9 => Opcode::EQ,
            10 => Opcode::NEQ,
            11 => Opcode::GT,
            12 => Opcode::LT,
            13 => Opcode::GTQ,
            14 => Opcode::LTQ,
            15 => Opcode::JEQ,
            16 => Opcode::JNEQ,
            _ => Opcode::IGL,
        }
    }
}

impl FromSpecImpl<u8> for Opcode {
    open spec fn obeys_from_spec() -> bool {
        true
    }

    open spec fn from_spec(v: u8) -> Opcode {
        Opcode::of_byte(v)
    }
}

impl<'a> From<&'a str> for Opcode {
    /// The operation that a word names, ignoring case; `IGL` for every other word.
    fn from(value: &'a str) -> (op: Opcode) {
        let word = chars_of(value);
        Opcode::widen(opcode::lookup(&word))
    }
}

impl<'a> FromSpecImpl<&'a str> for Opcode {
    open spec fn obeys_from_spec() -> bool {
        true
    }

    open spec fn from_spec(v: &'a str) -> Opcode {
        Opcode::of_name(v@)
    }
}

/// One decoded operation.
pub struct Instruction {
    pub opcode: Opcode,
}

impl Instruction {
    /// The instruction of the operation `opcode`.
    pub fn new(opcode: Opcode) -> (i: Instruction)
        ensures
            i.opcode == opcode,
    {
        Instruction { opcode }
    }
}

/// A byte decodes to `IGL` exactly if it is above 16.
pub proof fn lemma_illegal_bytes(b: u8)
    ensures
        Opcode::of_byte(b) == Opcode::IGL <==> b > 16,
{
}

/// The byte of a legal operation decodes to that operation.
pub proof fn lemma_legal_round_trip(op: opcode::Opcode)
    ensures
        Opcode::of_byte(op.byte()) == Opcode::of_legal(op),
        Opcode::of_legal(op).legal() == Some(op),
{
}

} // verus!
