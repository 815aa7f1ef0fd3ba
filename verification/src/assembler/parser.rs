//! Tokens to instructions: an opcode, then the operands that its operation takes.

use crate::assembler::instruction::Instruction;
use crate::assembler::token::{ParseError, ParseFault, Token};
use crate::opcode::Opcode;
use crate::text::{after, following};
use vstd::prelude::*;

verus! {

/// The message on a token sequence that starts with an operand.
pub open spec fn no_opcode() -> Seq<char> {
    "instruction must start with an opcode"@
}

/// The message on an opcode that its operands do not follow.
pub open spec fn no_instruction() -> Seq<char> {
    "sequence of opcodes could not be parsed to instruction"@
}

/// The register index at place `i` of `tokens`, if a register token stands there.
pub open spec fn register_at(tokens: Seq<Token>, i: int) -> Option<u8> {
    if 0 <= i < tokens.len() {
        match tokens[i] {
            Token::Register(reg) => Some(reg),
            _ => None,
        }
    } else {
        None
    }
}

/// The integer at place `i` of `tokens`, if an integer token stands there.
pub open spec fn integer_at(tokens: Seq<Token>, i: int) -> Option<i32> {
    if 0 <= i < tokens.len() {
        match tokens[i] {
            Token::IntegerOperand(number) => Some(number),
            _ => None,
        }
    } else {
        None
    }
}

/// The number of tokens that an instruction of the operation `op` takes, its opcode
/// counted.
pub open spec fn token_count(op: Opcode) -> int {
    match op {
        Opcode::HLT => 1,
        Opcode::JMP | Opcode::JMPF | Opcode::JMPB | Opcode::JEQ | Opcode::JNEQ => 2,
        Opcode::LOAD | Opcode::EQ | Opcode::NEQ
        | Opcode::GT | Opcode::LT | Opcode::GTQ | Opcode::LTQ => 3,
        Opcode::ADD | Opcode::SUB | Opcode::MUL | Opcode::DIV => 4,
    }
}

/// The instruction of the operation `op` whose opcode stands at place `pos`: the tokens
/// that follow are its operands, in order. There is none if one of them is missing or of
/// the wrong sort.
pub open spec fn instruction_at(tokens: Seq<Token>, pos: int, op: Opcode) -> Option<Instruction> {
    match op {
        Opcode::HLT => Some(Instruction::HLT),
        Opcode::LOAD => match (register_at(tokens, pos + 1), integer_at(tokens, pos + 2)) {
            (Some(reg), Some(number)) => Some(Instruction::LOAD(reg, number)),
            _ => None,
        },
        Opcode::ADD => match (
            register_at(tokens, pos + 1),
            register_at(tokens, pos + 2),
            register_at(tokens, pos + 3),
        ) {
            (Some(reg1), Some(reg2), Some(reg3)) => Some(Instruction::ADD(reg1, reg2, reg3)),
            _ => None,
        },
        Opcode::SUB => match (
            register_at(tokens, pos + 1),
            register_at(tokens, pos + 2),
            register_at(tokens, pos + 3),
        ) {
            (Some(reg1), Some(reg2), Some(reg3)) => Some(Instruction::SUB(reg1, reg2, reg3)),
            _ => None,
        },
        Opcode::MUL => match (
            register_at(tokens, pos + 1),
            register_at(tokens, pos + 2),
            register_at(tokens, pos + 3),
        ) {
            (Some(reg1), Some(reg2), Some(reg3)) => Some(Instruction::MUL(reg1, reg2, reg3)),
            _ => None,
        },
        Opcode::DIV => match (
            register_at(tokens, pos + 1),
            register_at(tokens, pos + 2),
            register_at(tokens, pos + 3),
        ) {
            (Some(reg1), Some(reg2), Some(reg3)) => Some(Instruction::DIV(reg1, reg2, reg3)),
            _ => None,
        },
        Opcode::JMP => match register_at(tokens, pos + 1) {
            Some(reg) => Some(Instruction::JMP(reg)),
            None => None,
        },
        Opcode::JMPF => match register_at(tokens, pos + 1) {
            Some(reg) => Some(Instruction::JMPF(reg)),
            None => None,
        },
        Opcode::JMPB => match register_at(tokens, pos + 1) {
            Some(reg) => Some(Instruction::JMPB(reg)),
            None => None,
        },
        Opcode::EQ => match (
            register_at(tokens, pos + 1),
            register_at(tokens, pos + 2),
        ) {
            (Some(reg1), Some(reg2)) => Some(Instruction::EQ(reg1, reg2)),
            _ => None,
        },
        Opcode::NEQ => match (
            register_at(tokens, pos + 1),
            register_at(tokens, pos + 2),
        ) {
            (Some(reg1), Some(reg2)) => Some(Instruction::NEQ(reg1, reg2)),
            _ => None,
        },
        Opcode::GT => match (
            register_at(tokens, pos + 1),
            register_at(tokens, pos + 2),
        ) {
            (Some(reg1), Some(reg2)) => Some(Instruction::GT(reg1, reg2)),
            _ => None,
        },
        Opcode::LT => match (
            register_at(tokens, pos + 1),
            register_at(tokens, pos + 2),
        ) {
            (Some(reg1), Some(reg2)) => Some(Instruction::LT(reg1, reg2)),
            _ => None,
        },
        Opcode::GTQ => match (
            register_at(tokens, pos + 1),
            register_at(tokens, pos + 2),
        ) {
            (Some(reg1), Some(reg2)) => Some(Instruction::GTQ(reg1, reg2)),
            _ => None,
        },
        Opcode::LTQ => match (
            register_at(tokens, pos + 1),
            register_at(tokens, pos + 2),
        ) {
            (Some(reg1), Some(reg2)) => Some(Instruction::LTQ(reg1, reg2)),
            _ => None,
        },
        Opcode::JEQ => match register_at(tokens, pos + 1) {
            Some(reg) => Some(Instruction::JEQ(reg)),
            None => None,
        },
        Opcode::JNEQ => match register_at(tokens, pos + 1) {
            Some(reg) => Some(Instruction::JNEQ(reg)),
            None => None,
        },
    }
}

/// The instructions that the tokens from place `pos` on spell, or the first error.
pub open spec fn parse_from(tokens: Seq<Token>, pos: int) -> Result<Seq<Instruction>, ParseFault>
    decreases tokens.len() - pos,
{
    if pos < 0 || pos >= tokens.len() {
        Ok(Seq::empty())
    } else {
        match tokens[pos] {
            Token::Op(op) => match instruction_at(tokens, pos, op) {
                Some(instruction) => following(
                    instruction,
                    parse_from(tokens, pos + token_count(op)),
                ),
                None => Err(ParseFault::InvalidOpcode(no_instruction())),
            },
            _ => Err(ParseFault::InvalidOpcode(no_opcode())),
        }
    }
}

/// The result of a parse as specifications see it.
pub open spec fn parsed(r: Result<Vec<Instruction>, ParseError>) -> Result<
    Seq<Instruction>,
    ParseFault,
> {
    match r {
        Ok(instructions) => Ok(instructions@),
        Err(e) => Err(e@),
    }
}

fn register(input: &Vec<Token>, pos: usize, k: usize) -> (r: Option<u8>)
    requires
        pos < input.len(),
        k <= 3,
    ensures
        r == register_at(input@, pos + k),
{
    if k < input.len() - pos {
        match input[pos + k] {
            Token::Register(reg) => Some(reg),
            _ => None,
        }
    } else {
        None
    }
}

fn integer(input: &Vec<Token>, pos: usize, k: usize) -> (r: Option<i32>)
    requires
        pos < input.len(),
        k <= 3,
    ensures
        r == integer_at(input@, pos + k),
{
    if k < input.len() - pos {
        match input[pos + k] {
            Token::IntegerOperand(number) => Some(number),
            _ => None,
        }
    } else {
        None
    }
}

/// The instruction of the operation `opcode` whose opcode stands at `pos`.
fn instruction(input: &Vec<Token>, pos: usize, opcode: Opcode) -> (r: Option<Instruction>)
    requires
        pos < input.len(),
    ensures
        r == instruction_at(input@, pos as int, opcode),
        r is Some ==> pos + token_count(opcode) <= input.len(),
{
    match opcode {
        Opcode::HLT => Some(Instruction::HLT),
        Opcode::LOAD => match (register(input, pos, 1), integer(input, pos, 2)) {
            (Some(reg), Some(number)) => Some(Instruction::LOAD(reg, number)),
            _ => None,
        },
        Opcode::ADD => match (
            register(input, pos, 1),
            register(input, pos, 2),
            register(input, pos, 3),
        ) {
            (Some(reg1), Some(reg2), Some(reg3)) => Some(Instruction::ADD(reg1, reg2, reg3)),
            _ => None,
        },
        Opcode::SUB => match (
            register(input, pos, 1),
            register(input, pos, 2),
            register(input, pos, 3),
        ) {
            (Some(reg1), Some(reg2), Some(reg3)) => Some(Instruction::SUB(reg1, reg2, reg3)),
            _ => None,
        },
        Opcode::MUL => match (
            register(input, pos, 1),
            register(input, pos, 2),
            register(input, pos, 3),
        ) {
            (Some(reg1), Some(reg2), Some(reg3)) => Some(Instruction::MUL(reg1, reg2, reg3)),
            _ => None,
        },
        Opcode::DIV => match (
            register(input, pos, 1),
            register(input, pos, 2),
            register(input, pos, 3),
        ) {
            (Some(reg1), Some(reg2), Some(reg3)) => Some(Instruction::DIV(reg1, reg2, reg3)),
            _ => None,
        },
        Opcode::JMP => match register(input, pos, 1) {
            Some(reg) => Some(Instruction::JMP(reg)),
            None => None,
        },
        Opcode::JMPF => match register(input, pos, 1) {
            Some(reg) => Some(Instruction::JMPF(reg)),
            None => None,
        },
        Opcode::JMPB => match register(input, pos, 1) {
            Some(reg) => Some(Instruction::JMPB(reg)),
            None => None,
        },
        Opcode::EQ => match (
            register(input, pos, 1),
            register(input, pos, 2),
        ) {
            (Some(reg1), Some(reg2)) => Some(Instruction::EQ(reg1, reg2)),
            _ => None,
        },
        Opcode::NEQ => match (
            register(input, pos, 1),
            register(input, pos, 2),
        ) {
            (Some(reg1), Some(reg2)) => Some(Instruction::NEQ(reg1, reg2)),
            _ => None,
        },
        Opcode::GT => match (
            register(input, pos, 1),
            register(input, pos, 2),
        ) {
            (Some(reg1), Some(reg2)) => Some(Instruction::GT(reg1, reg2)),
            _ => None,
        },
        Opcode::LT => match (
            register(input, pos, 1),
            register(input, pos, 2),
        ) {
            (Some(reg1), Some(reg2)) => Some(Instruction::LT(reg1, reg2)),
            _ => None,
        },
        Opcode::GTQ => match (
            register(input, pos, 1),
            register(input, pos, 2),
        ) {
            (Some(reg1), Some(reg2)) => Some(Instruction::GTQ(reg1, reg2)),
            _ => None,
        },
        Opcode::LTQ => match (
            register(input, pos, 1),
            register(input, pos, 2),
        ) {
            (Some(reg1), Some(reg2)) => Some(Instruction::LTQ(reg1, reg2)),
            _ => None,
        },
        Opcode::JEQ => match register(input, pos, 1) {
            Some(reg) => Some(Instruction::JEQ(reg)),
            None => None,
        },
        Opcode::JNEQ => match register(input, pos, 1) {
            Some(reg) => Some(Instruction::JNEQ(reg)),
            None => None,
        },
    }
}

fn width(opcode: Opcode) -> (n: usize)
    ensures
        n == token_count(opcode),
{
    match opcode {
        Opcode::HLT => 1,
        Opcode::JMP | Opcode::JMPF | Opcode::JMPB | Opcode::JEQ | Opcode::JNEQ => 2,
        Opcode::LOAD | Opcode::EQ | Opcode::NEQ
        | Opcode::GT | Opcode::LT | Opcode::GTQ | Opcode::LTQ => 3,
        Opcode::ADD | Opcode::SUB | Opcode::MUL | Opcode::DIV => 4,
    }
}

/// Groups tokens into instructions, from left to right. Each instruction is an opcode and
/// the operands of its operation. The first token that fits nowhere ends the parse with an
/// error.
pub fn parse(input: Vec<Token>) -> (r: Result<Vec<Instruction>, ParseError>)
    ensures
        parsed(r) == parse_from(input@, 0),
{
    let mut pos: usize = 0;
    let len = input.len();
    let mut output: Vec<Instruction> = Vec::new();
    while pos < len
        invariant
            len == input.len(),
            pos <= len,
            parse_from(input@, 0) == after(output@, parse_from(input@, pos as int)),
        decreases len - pos,
    {
        match input[pos] {
            Token::Op(opcode) => match instruction(&input, pos, opcode) {
                Some(found) => {
                    proof {
                        let rest = parse_from(input@, pos + token_count(opcode));
                        if let Ok(instructions) = rest {
                            assert(output@ + (seq![found] + instructions) =~= output@.push(found)
                                + instructions);
                        }
                    }
                    output.push(found);
                    pos += width(opcode);
                },
                None => {
                    return Err(
                        ParseError::InvalidOpcodeError(
                            "sequence of opcodes could not be parsed to instruction".to_owned(),
                        ),
                    );
                },
            },
            _ => {
                return Err(
                    ParseError::InvalidOpcodeError(
                        "instruction must start with an opcode".to_owned(),
                    ),
                );
            },
        }
    }
    assert(output@ + Seq::<Instruction>::empty() =~= output@);
    Ok(output)
}

/// The tokens that spell an instruction: its opcode, then its operands.
pub open spec fn tokens_of(instruction: Instruction) -> Seq<Token> {
    match instruction {
        Instruction::HLT => seq![Token::Op(Opcode::HLT)],
        Instruction::LOAD(reg, number) => seq![
            Token::Op(Opcode::LOAD),
            Token::Register(reg),
            Token::IntegerOperand(number),
        ],
        Instruction::ADD(reg1, reg2, reg3) => seq![
            Token::Op(Opcode::ADD),
            Token::Register(reg1),
            Token::Register(reg2),
            Token::Register(reg3),
        ],
        Instruction::SUB(reg1, reg2, reg3) => seq![
            Token::Op(Opcode::SUB),
            Token::Register(reg1),
            Token::Register(reg2),
            Token::Register(reg3),
        ],
        Instruction::MUL(reg1, reg2, reg3) => seq![
            Token::Op(Opcode::MUL),
            Token::Register(reg1),
            Token::Register(reg2),
            Token::Register(reg3),
        ],
        Instruction::DIV(reg1, reg2, reg3) => seq![
            Token::Op(Opcode::DIV),
            Token::Register(reg1),
            Token::Register(reg2),
            Token::Register(reg3),
        ],
        Instruction::JMP(reg) => seq![
            Token::Op(Opcode::JMP),
            Token::Register(reg),
        ],
        Instruction::JMPF(reg) => seq![
            Token::Op(Opcode::JMPF),
            Token::Register(reg),
        ],
        Instruction::JMPB(reg) => seq![
            Token::Op(Opcode::JMPB),
            Token::Register(reg),
        ],
        Instruction::EQ(reg1, reg2) => seq![
            Token::Op(Opcode::EQ),
            Token::Register(reg1),
            Token::Register(reg2),
        ],
        Instruction::NEQ(reg1, reg2) => seq![
            Token::Op(Opcode::NEQ),
            Token::Register(reg1),
            Token::Register(reg2),
        ],
        Instruction::GT(reg1, reg2) => seq![
            Token::Op(Opcode::GT),
            Token::Register(reg1),
            Token::Register(reg2),
        ],
        Instruction::LT(reg1, reg2) => seq![
            Token::Op(Opcode::LT),
            Token::Register(reg1),
            Token::Register(reg2),
        ],
        Instruction::GTQ(reg1, reg2) => seq![
            Token::Op(Opcode::GTQ),
            Token::Register(reg1),
            Token::Register(reg2),
        ],
        Instruction::LTQ(reg1, reg2) => seq![
            Token::Op(Opcode::LTQ),
            Token::Register(reg1),
            Token::Register(reg2),
        ],
        Instruction::JEQ(reg) => seq![
            Token::Op(Opcode::JEQ),
            Token::Register(reg),
        ],
        Instruction::JNEQ(reg) => seq![
            Token::Op(Opcode::JNEQ),
            Token::Register(reg),
        ],
    }
}

/// The tokens that spell a list of instructions, one after the other.
pub open spec fn spelled(instructions: Seq<Instruction>) -> Seq<Token>
    decreases instructions.len(),
{
    if instructions.len() == 0 {
        Seq::empty()
    } else {
        tokens_of(instructions[0]) + spelled(instructions.drop_first())
    }
}

/// Behind any tokens, the tokens that spell a list of instructions parse to that list.
pub proof fn lemma_parse_spelled_from(before: Seq<Token>, instructions: Seq<Instruction>)
    ensures
        parse_from(before + spelled(instructions), before.len() as int) == Ok::<
            Seq<Instruction>,
            ParseFault,
        >(instructions),
    decreases instructions.len(),
{
    let tokens = before + spelled(instructions);
    let pos = before.len() as int;
    if instructions.len() == 0 {
        assert(tokens =~= before);
        assert(instructions =~= Seq::<Instruction>::empty());
    } else {
        let first = instructions[0];
        let own = tokens_of(first);
        let rest = instructions.drop_first();
        assert(own.len() == token_count(first.opcode()));
        assert(tokens =~= (before + own) + spelled(rest));
        assert forall|k: int| 0 <= k < own.len() implies tokens[pos + k] == own[k] by {}
        assert(tokens[pos] == Token::Op(first.opcode()));
        assert(instruction_at(tokens, pos, first.opcode()) == Some(first));
        lemma_parse_spelled_from(before + own, rest);
        assert(parse_from(tokens, pos + token_count(first.opcode())) == Ok::<
            Seq<Instruction>,
            ParseFault,
        >(rest));
        assert(seq![first] + rest =~= instructions);
    }
}

/// The tokens that spell a list of instructions parse to that list.
pub proof fn lemma_parse_spelled(instructions: Seq<Instruction>)
    ensures
        parse_from(spelled(instructions), 0) == Ok::<Seq<Instruction>, ParseFault>(instructions),
{
    lemma_parse_spelled_from(Seq::empty(), instructions);
    assert(Seq::<Token>::empty() + spelled(instructions) =~= spelled(instructions));
}

} // verus!
