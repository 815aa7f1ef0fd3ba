//! Tokens, the errors of the assembler, and the rule that turns one word into one token.

use crate::opcode::{lookup, Opcode};
use crate::text::{chars_of, number, read_number, IntErrorKind};
use vstd::prelude::*;
use vstd::std_specs::convert::TryFromSpecImpl;
use vstd::string::StringExecFns;

verus! {

/// Why a source text does not assemble.
#[derive(Debug, PartialEq)]
pub enum ParseError {
    /// A word that names no operation, or a message on a token sequence that is no
    /// instruction.
    InvalidOpcodeError(String),
    /// A register operand does not start with `$`.
    MissingRegisterSignError,
    /// An integer operand does not start with `#`.
    MissingIntegerSignError,
    /// Behind `$` or `#` stands no number of the operand's range.
    ParseIntError(IntErrorKind),
}

/// A `ParseError` as specifications see it.
pub enum ParseFault {
    InvalidOpcode(Seq<char>),
    MissingRegisterSign,
    MissingIntegerSign,
    ParseInt(IntErrorKind),
}

impl View for ParseError {
    type V = ParseFault;

    open spec fn view(&self) -> ParseFault {
        match self {
            ParseError::InvalidOpcodeError(s) => ParseFault::InvalidOpcode(s@),
            ParseError::MissingRegisterSignError => ParseFault::MissingRegisterSign,
            ParseError::MissingIntegerSignError => ParseFault::MissingIntegerSign,
            ParseError::ParseIntError(kind) => ParseFault::ParseInt(*kind),
        }
    }
}

/// How an `IntErrorKind` reads in a message.
pub open spec fn kind_text(kind: IntErrorKind) -> Seq<char> {
    match kind {
        IntErrorKind::Empty => "cannot parse integer from empty string"@,
        IntErrorKind::InvalidDigit => "invalid digit found in string"@,
        IntErrorKind::PosOverflow => "number too large to fit in target type"@,
        IntErrorKind::NegOverflow => "number too small to fit in target type"@,
    }
}

impl ParseFault {
    /// The message of an error.
    pub open spec fn message(self) -> Seq<char> {
        match self {
            ParseFault::InvalidOpcode(s) => "The opcode '"@ + s + "' does not exist"@,
            ParseFault::MissingRegisterSign => "Registers must start with '$'"@,
            ParseFault::MissingIntegerSign => "Integers must start with '#'"@,
            ParseFault::ParseInt(kind) => "There was an error parsing the input: "@ + kind_text(
                kind,
            ),
        }
    }
}

impl ParseError {
    /// The message of this error, for a reader.
    pub fn message(&self) -> (s: String)
        ensures
            s@ == self@.message(),
    {
        match self {
            ParseError::InvalidOpcodeError(s) => String::from_str("The opcode '").concat(
                s.as_str(),
            ).concat("' does not exist"),
            ParseError::MissingRegisterSignError => String::from_str(
                "Registers must start with '$'",
            ),
            ParseError::MissingIntegerSignError => String::from_str("Integers must start with '#'"),
            ParseError::ParseIntError(kind) => {
                let reason = match kind {
                    IntErrorKind::Empty => "cannot parse integer from empty string",
                    IntErrorKind::InvalidDigit => "invalid digit found in string",
                    IntErrorKind::PosOverflow => "number too large to fit in target type",
                    IntErrorKind::NegOverflow => "number too small to fit in target type",
                };
                String::from_str("There was an error parsing the input: ").concat(reason)
            },
        }
    }
}

/// A word of the source: a mnemonic, a register or an integer.
#[derive(Debug, PartialEq, Eq, Clone, Copy, Structural)]
pub enum Token {
    Op(Opcode),
    Register(u8),
    IntegerOperand(i32),
}

impl Token {
    /// The token that a word is.
    ///
    /// - Behind `$` stands a register index: a decimal number from 0 to 255.
    /// - Behind `#` stands an integer: a decimal number of 32 bits with its sign.
    /// - Any other word is a mnemonic, in either case.
    pub open spec fn of_word(word: Seq<char>) -> Result<Token, ParseFault> {
        if word.len() > 0 && word[0] == '$' {
            match number(word.subrange(1, word.len() as int), 10, 0, 255) {
                Ok(n) => Ok(Token::Register(n as u8)),
                Err(kind) => Err(ParseFault::ParseInt(kind)),
            }
        } else if word.len() > 0 && word[0] == '#' {
            match number(
                word.subrange(1, word.len() as int),
                10,
                i32::MIN as int,
                i32::MAX as int,
            ) {
                Ok(n) => Ok(Token::IntegerOperand(n as i32)),
                Err(kind) => Err(ParseFault::ParseInt(kind)),
            }
        } else {
            match Opcode::of_name(word) {
                Some(op) => Ok(Token::Op(op)),
                None => Err(ParseFault::InvalidOpcode(word)),
            }
        }
    }
}

/// The result of a classification as specifications see it.
pub open spec fn classified(r: Result<Token, ParseError>) -> Result<Token, ParseFault> {
    match r {
        Ok(token) => Ok(token),
        Err(e) => Err(e@),
    }
}

impl<'a> TryFrom<&'a str> for Token {
    type Error = ParseError;

    /// Classifies one word.
    fn try_from(value: &'a str) -> (r: Result<Self, Self::Error>)
        ensures
            classified(r) == Token::of_word(value@),
    {
        let word = chars_of(value);
        if word.len() > 0 && word[0] == '$' {
            match read_number(&word, 1, word.len(), 10, 0, 255) {
                Ok(n) => Ok(Token::Register(n as u8)),
                Err(kind) => Err(ParseError::ParseIntError(kind)),
            }
        } else if word.len() > 0 && word[0] == '#' {
            match read_number(&word, 1, word.len(), 10, -0x8000_0000, 0x7fff_ffff) {
                Ok(n) => Ok(Token::IntegerOperand(n as i32)),
                Err(kind) => Err(ParseError::ParseIntError(kind)),
            }
        } else {
            match lookup(&word) {
                Some(op) => Ok(Token::Op(op)),
                None => Err(ParseError::InvalidOpcodeError(value.to_owned())),
            }
        }
    }
}

/// The error of a classification holds a `String`, which has no value in specifications:
/// the contract is stated on the function itself.
impl<'a> TryFromSpecImpl<&'a str> for Token {
    open spec fn obeys_try_from_spec() -> bool {
        false
    }

    open spec fn try_from_spec(v: &'a str) -> Result<Self, Self::Error> {
        arbitrary()
    }
}

} // verus!
