//! The instruction set: seventeen operations, their numeric codes and their mnemonics.

use crate::text::{chars_of, lowercase, spells};
use vstd::prelude::*;
use vstd::std_specs::convert::{FromSpecImpl, TryFromSpecImpl};

verus! {

/// An operation of the machine.
#[derive(Debug, PartialEq, Eq, Clone, Copy, Structural)]
pub enum Opcode {
    HLT,
    LOAD,
    ADD,
    SUB,
    MUL,
    DIV,
    JMP,
    JMPF,
    JMPB,
    EQ,
    NEQ,
    GT,
    LT,
    GTQ,
    LTQ,
    JEQ,
    JNEQ,
}

/// The value that was offered as an opcode and is none.
#[derive(Debug)]
pub struct InvalidOpcodeError<T> {
    pub value: T,
}

impl<T> InvalidOpcodeError<T> {
    /// The error for `value`.
    pub fn new(value: T) -> (e: Self)
        ensures
            e.value == value,
    {
        InvalidOpcodeError { value }
    }
}

impl Opcode {
    /// The numeric code of an operation.
    pub open spec fn byte(self) -> u8 {
        match self {
            Opcode::HLT => 0,
            Opcode::LOAD => 1,
            Opcode::ADD => 2,
            Opcode::SUB => 3,
            Opcode::MUL => 4,
            Opcode::DIV => 5,
            Opcode::JMP => 6,
            Opcode::JMPF => 7,
            Opcode::JMPB => 8,
            Opcode::EQ => 9,
            Opcode::NEQ => 10,
            Opcode::GT => 11,
            Opcode::LT => 12,
            Opcode::GTQ => 13,
            Opcode::LTQ => 14,
            Opcode::JEQ => 15,
            Opcode::JNEQ => 16,
        }
    }

    /// The operation that a byte encodes, if it encodes one.
    pub open spec fn of_byte(b: u8) -> Option<Opcode> {
        match b {
            0 => Some(Opcode::HLT),
            1 => Some(Opcode::LOAD),
            2 => Some(Opcode::ADD),
            3 => Some(Opcode::SUB),
            4 => Some(Opcode::MUL),
            5 => Some(Opcode::DIV),
            6 => Some(Opcode::JMP),
            7 => Some(Opcode::JMPF),
            8 => Some(Opcode::JMPB),
            9 => Some(Opcode::EQ),
            10 => Some(Opcode::NEQ),
            11 => Some(Opcode::GT),
            12 => Some(Opcode::LT),
            13 => Some(Opcode::GTQ),
            14 => Some(Opcode::LTQ),
            15 => Some(Opcode::JEQ),
            16 => Some(Opcode::JNEQ),
            _ => None,
        }
    }

    /// The mnemonic of an operation, as it is printed: in upper case.
    pub open spec fn mnemonic(self) -> Seq<char> {
        match self {
            Opcode::HLT => "HLT"@,
            Opcode::LOAD => "LOAD"@,
            Opcode::ADD => "ADD"@,
            Opcode::SUB => "SUB"@,
            Opcode::MUL => "MUL"@,
            Opcode::DIV => "DIV"@,
            Opcode::JMP => "JMP"@,
            Opcode::JMPF => "JMPF"@,
            Opcode::JMPB => "JMPB"@,
            Opcode::EQ => "EQ"@,
            Opcode::NEQ => "NEQ"@,
            Opcode::GT => "GT"@,
            Opcode::LT => "LT"@,
            Opcode::GTQ => "GTQ"@,
            Opcode::LTQ => "LTQ"@,
            Opcode::JEQ => "JEQ"@,
            Opcode::JNEQ => "JNEQ"@,
        }
    }

    /// The operation that a word names. Case is ignored.
    pub open spec fn of_name(name: Seq<char>) -> Option<Opcode> {
        let l = lowercase(name);
        if l == "hlt"@ {
            Some(Opcode::HLT)
        } else if l == "load"@ {
            Some(Opcode::LOAD)
        } else if l == "add"@ {
            Some(Opcode::ADD)
        } else if l == "sub"@ {
            Some(Opcode::SUB)
        } else if l == "mul"@ {
            Some(Opcode::MUL)
        } else if l == "div"@ {
            Some(Opcode::DIV)
        } else if l == "jmp"@ {
            Some(Opcode::JMP)
        } else if l == "jmpf"@ {
            Some(Opcode::JMPF)
        } else if l == "jmpb"@ {
            Some(Opcode::JMPB)
        } else if l == "eq"@ {
            Some(Opcode::EQ)
        } else if l == "neq"@ {
            Some(Opcode::NEQ)
        } else if l == "gt"@ {
            Some(Opcode::GT)
        } else if l == "lt"@ {
            Some(Opcode::LT)
        } else if l == "gtq"@ {
            Some(Opcode::GTQ)
        } else if l == "ltq"@ {
            Some(Opcode::LTQ)
        } else if l == "jeq"@ {
            Some(Opcode::JEQ)
        } else if l == "jneq"@ {
            Some(Opcode::JNEQ)
        } else {
            None
        }
    }

    /// The mnemonic of this operation, in upper case.
    pub fn name(&self) -> (s: &'static str)
        ensures
            s@ == self.mnemonic(),
    {
        match self {
            Opcode::HLT => "HLT",
            Opcode::LOAD => "LOAD",
            Opcode::ADD => "ADD",
            Opcode::SUB => "SUB",
            Opcode::MUL => "MUL",
            Opcode::DIV => "DIV",
            Opcode::JMP => "JMP",
            Opcode::JMPF => "JMPF",
            Opcode::JMPB => "JMPB",
            Opcode::EQ => "EQ",
            Opcode::NEQ => "NEQ",
            Opcode::GT => "GT",
            Opcode::LT => "LT",
            Opcode::GTQ => "GTQ",
            Opcode::LTQ => "LTQ",
            Opcode::JEQ => "JEQ",
            Opcode::JNEQ => "JNEQ",
        }
    }
}

impl TryFrom<u8> for Opcode {
    type Error = InvalidOpcodeError<u8>;

    /// The operation that a byte encodes. A byte above 16 comes back in the error.
    fn try_from(value: u8) -> (r: Result<Self, Self::Error>) {
        match value {
            0 => Ok(Opcode::HLT),
            1 => Ok(Opcode::LOAD),
            2 => Ok(Opcode::ADD),
            3 => Ok(Opcode::SUB),
            4 => Ok(Opcode::MUL),
            5 => Ok(Opcode::DIV),
            6 => Ok(Opcode::JMP),
            7 => Ok(Opcode::JMPF),
            8 => Ok(Opcode::JMPB),
            9 => Ok(Opcode::EQ),
            10 => Ok(Opcode::NEQ),
            11 => Ok(Opcode::GT),
            12 => Ok(Opcode::LT),
            13 => Ok(Opcode::GTQ),
            14 => Ok(Opcode::LTQ),
            15 => Ok(Opcode::JEQ),
            16 => Ok(Opcode::JNEQ),
            n => Err(InvalidOpcodeError::new(n)),
        }
    }
}

impl TryFromSpecImpl<u8> for Opcode {
    open spec fn obeys_try_from_spec() -> bool {
        true
    }

    open spec fn try_from_spec(v: u8) -> Result<Self, Self::Error> {
        match Opcode::of_byte(v) {
            Some(op) => Ok(op),
            None => Err(InvalidOpcodeError { value: v }),
        }
    }
}

impl From<Opcode> for u8 {
    /// The numeric code of an operation.
    fn from(value: Opcode) -> (b: u8) {
        match value {
            Opcode::HLT => 0,
            Opcode::LOAD => 1,
            Opcode::ADD => 2,
            Opcode::SUB => 3,
            Opcode::MUL => 4,
            Opcode::DIV => 5,
            Opcode::JMP => 6,
            Opcode::JMPF => 7,
            Opcode::JMPB => 8,
            Opcode::EQ => 9,
            Opcode::NEQ => 10,
            Opcode::GT => 11,
            Opcode::LT => 12,
            Opcode::GTQ => 13,
            Opcode::LTQ => 14,
            Opcode::JEQ => 15,
            Opcode::JNEQ => 16,
        }
    }
}

impl FromSpecImpl<Opcode> for u8 {
    open spec fn obeys_from_spec() -> bool {
        true
    }

    open spec fn from_spec(v: Opcode) -> u8 {
        v.byte()
    }
}

impl<'a> TryFrom<&'a str> for Opcode {
    type Error = InvalidOpcodeError<String>;

    /// Looks a mnemonic up, ignoring case. An unknown word comes back in the error.
    fn try_from(value: &'a str) -> (r: Result<Self, Self::Error>)
        ensures
            match Opcode::of_name(value@) {
                Some(op) => r == Ok::<Opcode, InvalidOpcodeError<String>>(op),
                None => r is Err && r->Err_0.value@ == value@,
            },
    {
        let word = chars_of(value);
        match lookup(&word) {
            Some(op) => Ok(op),
            None => Err(InvalidOpcodeError::new(value.to_owned())),
        }
    }
}

/// The error of a name lookup holds a `String`, which has no value in specifications:
/// the contract of the lookup is stated on the function itself.
impl<'a> TryFromSpecImpl<&'a str> for Opcode {
    open spec fn obeys_try_from_spec() -> bool {
        false
    }

    open spec fn try_from_spec(v: &'a str) -> Result<Self, Self::Error> {
        arbitrary()
    }
}

/// The operation that `word` names, ignoring case.
pub fn lookup(word: &Vec<char>) -> (r: Option<Opcode>)
    ensures
        r == Opcode::of_name(word@),
{
    if spells(word, "hlt") {
        Some(Opcode::HLT)
    } else if spells(word, "load") {
        Some(Opcode::LOAD)
    } else if spells(word, "add") {
        Some(Opcode::ADD)
    } else if spells(word, "sub") {
        Some(Opcode::SUB)
    } else if spells(word, "mul") {
        Some(Opcode::MUL)
    } else if spells(word, "div") {
        Some(Opcode::DIV)
    } else if spells(word, "jmp") {
        Some(Opcode::JMP)
    } else if spells(word, "jmpf") {
        Some(Opcode::JMPF)
    } else if spells(word, "jmpb") {
        Some(Opcode::JMPB)
    } else if spells(word, "eq") {
        Some(Opcode::EQ)
    } else if spells(word, "neq") {
        Some(Opcode::NEQ)
    } else if spells(word, "gt") {
        Some(Opcode::GT)
    } else if spells(word, "lt") {
        Some(Opcode::LT)
    } else if spells(word, "gtq") {
        Some(Opcode::GTQ)
    } else if spells(word, "ltq") {
        Some(Opcode::LTQ)
    } else if spells(word, "jeq") {
        Some(Opcode::JEQ)
    } else if spells(word, "jneq") {
        Some(Opcode::JNEQ)
    } else {
        None
    }
}

/// Every operation is the one that its own byte encodes.
pub proof fn lemma_byte_round_trip(op: Opcode)
    ensures
        Opcode::of_byte(op.byte()) == Some(op),
        op.byte() <= 16,
{
}

/// A byte encodes an operation exactly if it is at most 16, and then it is the byte of
/// that operation.
pub proof fn lemma_bytes_above_sixteen(b: u8)
    ensures
        Opcode::of_byte(b) is None <==> b > 16,
        Opcode::of_byte(b) matches Some(op) ==> op.byte() == b,
{
}

/// Lower-casing a second time changes nothing.
pub proof fn lemma_lowercase_twice(s: Seq<char>)
    ensures
        lowercase(lowercase(s)) == lowercase(s),
{
    assert(lowercase(lowercase(s)) =~= lowercase(s));
}

/// The mnemonics in lower case are the words that the lookup knows.
pub proof fn lemma_mnemonic_lowercase(op: Opcode)
    ensures
        Opcode::of_name(lowercase(op.mnemonic())) == Some(op),
        Opcode::of_name(op.mnemonic()) == Some(op),
{
    reveal_strlit("HLT");
    reveal_strlit("hlt");
    reveal_strlit("LOAD");
    reveal_strlit("load");
    reveal_strlit("ADD");
    reveal_strlit("add");
    reveal_strlit("SUB");
    reveal_strlit("sub");
    reveal_strlit("MUL");
    reveal_strlit("mul");
    reveal_strlit("DIV");
    reveal_strlit("div");
    reveal_strlit("JMP");
    reveal_strlit("jmp");
    reveal_strlit("JMPF");
    reveal_strlit("jmpf");
    reveal_strlit("JMPB");
    reveal_strlit("jmpb");
    reveal_strlit("EQ");
    reveal_strlit("eq");
    reveal_strlit("NEQ");
    reveal_strlit("neq");
    reveal_strlit("GT");
    reveal_strlit("gt");
    reveal_strlit("LT");
    reveal_strlit("lt");
    reveal_strlit("GTQ");
    reveal_strlit("gtq");
    reveal_strlit("LTQ");
    reveal_strlit("ltq");
    reveal_strlit("JEQ");
    reveal_strlit("jeq");
    reveal_strlit("JNEQ");
    reveal_strlit("jneq");
    let l = lowercase(op.mnemonic());
    lemma_lowercase_twice(op.mnemonic());
    match op {
        Opcode::HLT => {
            assert(l =~= "hlt"@);
        },
        Opcode::LOAD => {
            assert(l =~= "load"@);
        },
        Opcode::ADD => {
            assert(l =~= "add"@);
            assert("add"@[0] != "hlt"@[0]);
        },
        Opcode::SUB => {
            assert(l =~= "sub"@);
            assert("sub"@[0] != "hlt"@[0]);
            assert("sub"@[0] != "add"@[0]);
        },
        Opcode::MUL => {
            assert(l =~= "mul"@);
            assert("mul"@[0] != "hlt"@[0]);
            assert("mul"@[0] != "add"@[0]);
            assert("mul"@[0] != "sub"@[0]);
        },
        Opcode::DIV => {
            assert(l =~= "div"@);
            assert("div"@[0] != "hlt"@[0]);
            assert("div"@[0] != "add"@[0]);
            assert("div"@[0] != "sub"@[0]);
            assert("div"@[0] != "mul"@[0]);
        },
        Opcode::JMP => {
            assert(l =~= "jmp"@);
            assert("jmp"@[0] != "hlt"@[0]);
            assert("jmp"@[0] != "add"@[0]);
            assert("jmp"@[0] != "sub"@[0]);
            assert("jmp"@[0] != "mul"@[0]);
            assert("jmp"@[0] != "div"@[0]);
        },
        Opcode::JMPF => {
            assert(l =~= "jmpf"@);
            assert("jmpf"@[0] != "load"@[0]);
        },
        Opcode::JMPB => {
            assert(l =~= "jmpb"@);
            assert("jmpb"@[0] != "load"@[0]);
            assert("jmpb"@[3] != "jmpf"@[3]);
        },
        Opcode::EQ => {
            assert(l =~= "eq"@);
        },
        Opcode::NEQ => {
            assert(l =~= "neq"@);
            assert("neq"@[0] != "hlt"@[0]);
            assert("neq"@[0] != "add"@[0]);
            assert("neq"@[0] != "sub"@[0]);
            assert("neq"@[0] != "mul"@[0]);
            assert("neq"@[0] != "div"@[0]);
            assert("neq"@[0] != "jmp"@[0]);
        },
        Opcode::GT => {
            assert(l =~= "gt"@);
            assert("gt"@[0] != "eq"@[0]);
        },
        Opcode::LT => {
            assert(l =~= "lt"@);
            assert("lt"@[0] != "eq"@[0]);
            assert("lt"@[0] != "gt"@[0]);
        },
        Opcode::GTQ => {
            assert(l =~= "gtq"@);
            assert("gtq"@[0] != "hlt"@[0]);
            assert("gtq"@[0] != "add"@[0]);
            assert("gtq"@[0] != "sub"@[0]);
            assert("gtq"@[0] != "mul"@[0]);
            assert("gtq"@[0] != "div"@[0]);
            assert("gtq"@[0] != "jmp"@[0]);
            assert("gtq"@[0] != "neq"@[0]);
        },
        Opcode::LTQ => {
            assert(l =~= "ltq"@);
            assert("ltq"@[0] != "hlt"@[0]);
            assert("ltq"@[0] != "add"@[0]);
            assert("ltq"@[0] != "sub"@[0]);
            assert("ltq"@[0] != "mul"@[0]);
            assert("ltq"@[0] != "div"@[0]);
            assert("ltq"@[0] != "jmp"@[0]);
            assert("ltq"@[0] != "neq"@[0]);
            assert("ltq"@[0] != "gtq"@[0]);
        },
        Opcode::JEQ => {
            assert(l =~= "jeq"@);
            assert("jeq"@[0] != "hlt"@[0]);
            assert("jeq"@[0] != "add"@[0]);
            assert("jeq"@[0] != "sub"@[0]);
            assert("jeq"@[0] != "mul"@[0]);
            assert("jeq"@[0] != "div"@[0]);
            assert("jeq"@[1] != "jmp"@[1]);
            assert("jeq"@[0] != "neq"@[0]);
            assert("jeq"@[0] != "gtq"@[0]);
            assert("jeq"@[0] != "ltq"@[0]);
        },
        Opcode::JNEQ => {
            assert(l =~= "jneq"@);
            assert("jneq"@[0] != "load"@[0]);
            assert("jneq"@[1] != "jmpf"@[1]);
            assert("jneq"@[1] != "jmpb"@[1]);
        },
    }
}

/// A word names an operation exactly if, case aside, it is the mnemonic of that
/// operation.
pub proof fn lemma_name_is_mnemonic(name: Seq<char>, op: Opcode)
    ensures
        Opcode::of_name(name) == Some(op) <==> lowercase(name) == lowercase(op.mnemonic()),
{
    reveal_strlit("HLT");
    reveal_strlit("hlt");
    reveal_strlit("LOAD");
    reveal_strlit("load");
    reveal_strlit("ADD");
    reveal_strlit("add");
    reveal_strlit("SUB");
    reveal_strlit("sub");
    reveal_strlit("MUL");
    reveal_strlit("mul");
    reveal_strlit("DIV");
    reveal_strlit("div");
    reveal_strlit("JMP");
    reveal_strlit("jmp");
    reveal_strlit("JMPF");
    reveal_strlit("jmpf");
    reveal_strlit("JMPB");
    reveal_strlit("jmpb");
    reveal_strlit("EQ");
    reveal_strlit("eq");
    reveal_strlit("NEQ");
    reveal_strlit("neq");
    reveal_strlit("GT");
    reveal_strlit("gt");
    reveal_strlit("LT");
    reveal_strlit("lt");
    reveal_strlit("GTQ");
    reveal_strlit("gtq");
    reveal_strlit("LTQ");
    reveal_strlit("ltq");
    reveal_strlit("JEQ");
    reveal_strlit("jeq");
    reveal_strlit("JNEQ");
    reveal_strlit("jneq");
    match op {
        Opcode::HLT => {
            assert(lowercase("HLT"@) =~= "hlt"@);
        },
        Opcode::LOAD => {
            assert(lowercase("LOAD"@) =~= "load"@);
        },
        Opcode::ADD => {
            assert(lowercase("ADD"@) =~= "add"@);
        },
        Opcode::SUB => {
            assert(lowercase("SUB"@) =~= "sub"@);
        },
        Opcode::MUL => {
            assert(lowercase("MUL"@) =~= "mul"@);
        },
        Opcode::DIV => {
            assert(lowercase("DIV"@) =~= "div"@);
        },
        Opcode::JMP => {
            assert(lowercase("JMP"@) =~= "jmp"@);
        },
        Opcode::JMPF => {
            assert(lowercase("JMPF"@) =~= "jmpf"@);
        },
        Opcode::JMPB => {
            assert(lowercase("JMPB"@) =~= "jmpb"@);
        },
        Opcode::EQ => {
            assert(lowercase("EQ"@) =~= "eq"@);
        },
        Opcode::NEQ => {
            assert(lowercase("NEQ"@) =~= "neq"@);
        },
        Opcode::GT => {
            assert(lowercase("GT"@) =~= "gt"@);
        },
        Opcode::LT => {
            assert(lowercase("LT"@) =~= "lt"@);
        },
        Opcode::GTQ => {
            assert(lowercase("GTQ"@) =~= "gtq"@);
        },
        Opcode::LTQ => {
            assert(lowercase("LTQ"@) =~= "ltq"@);
        },
        Opcode::JEQ => {
            assert(lowercase("JEQ"@) =~= "jeq"@);
        },
        Opcode::JNEQ => {
            assert(lowercase("JNEQ"@) =~= "jneq"@);
        },
    }
    if lowercase(name) == lowercase(op.mnemonic()) {
        lemma_lowercase_twice(name);
        lemma_mnemonic_lowercase(op);
        assert(Opcode::of_name(lowercase(op.mnemonic())) == Opcode::of_name(name));
    }
}

} // verus!
