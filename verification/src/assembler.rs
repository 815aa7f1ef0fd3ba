//! The assembler: text to tokens, tokens to instructions, instructions to code words.

pub mod instruction;
pub mod lexer;
pub mod parser;
pub mod token;

use crate::assembler::instruction::{lemma_word_starts_with_opcode, Instruction};
use crate::assembler::lexer::{lex, lex_from};
use crate::assembler::parser::{parse, parse_from};
use crate::assembler::token::{ParseError, ParseFault};
use vstd::prelude::*;

verus! {

/// The code words of a list of instructions, one for each, in order.
pub open spec fn words_of(instructions: Seq<Instruction>) -> Seq<Seq<u8>> {
    Seq::new(instructions.len(), |i: int| instructions[i].word())
}

/// The code words that a source text assembles to, or the first error: that of the lexer,
/// if it has one, else that of the parser.
pub open spec fn assemble_text(text: Seq<char>) -> Result<Seq<Seq<u8>>, ParseFault> {
    match lex_from(text, 0) {
        Ok(tokens) => match parse_from(tokens, 0) {
            Ok(instructions) => Ok(words_of(instructions)),
            Err(e) => Err(e),
        },
        Err(e) => Err(e),
    }
}

/// The bytes of each word of a list of code words.
pub open spec fn word_bytes(words: Seq<[u8; 4]>) -> Seq<Seq<u8>> {
    Seq::new(words.len(), |i: int| words[i]@)
}

/// The result of an assembly as specifications see it.
pub open spec fn assembled(r: Result<Vec<[u8; 4]>, ParseError>) -> Result<
    Seq<Seq<u8>>,
    ParseFault,
> {
    match r {
        Ok(words) => Ok(word_bytes(words@)),
        Err(e) => Err(e@),
    }
}

/// Encodes each instruction as one code word.
pub fn encode(instructions: &Vec<Instruction>) -> (words: Vec<[u8; 4]>)
    ensures
        word_bytes(words@) == words_of(instructions@),
{
    let mut output: Vec<[u8; 4]> = Vec::new();
    let mut i: usize = 0;
    while i < instructions.len()
        invariant
            i <= instructions.len(),
            output@.len() == i,
            forall|k: int| 0 <= k < i ==> output@[k]@ == instructions@[k].word(),
        decreases instructions.len() - i,
    {
        output.push(instructions[i].encode());
        i += 1;
    }
    assert(word_bytes(output@) =~= words_of(instructions@));
    output
}

/// Assembles a source text: its code words in source order, or the first error.
pub fn assemble(input: &str) -> (r: Result<Vec<[u8; 4]>, ParseError>)
    ensures
        assembled(r) == assemble_text(input@),
{
    let tokens = match lex(input) {
        Ok(tokens) => tokens,
        Err(e) => {
            return Err(e);
        },
    };
    let instructions = match parse(tokens) {
        Ok(instructions) => instructions,
        Err(e) => {
            return Err(e);
        },
    };
    Ok(encode(&instructions))
}

/// Whatever assembles gives one whole code word of four bytes for each instruction of the
/// source, and nothing else.
pub proof fn lemma_one_word_each(text: Seq<char>)
    requires
        assemble_text(text) is Ok,
    ensures
        lex_from(text, 0) is Ok,
        parse_from(lex_from(text, 0)->Ok_0, 0) is Ok,
        assemble_text(text)->Ok_0.len() == parse_from(lex_from(text, 0)->Ok_0, 0)->Ok_0.len(),
        forall|k: int|
            0 <= k < assemble_text(text)->Ok_0.len() ==> (#[trigger] assemble_text(
                text,
            )->Ok_0[k]).len() == 4,
{
    let instructions = parse_from(lex_from(text, 0)->Ok_0, 0)->Ok_0;
    assert forall|k: int| 0 <= k < instructions.len() implies (#[trigger] words_of(
        instructions,
    )[k]).len() == 4 by {
        lemma_word_starts_with_opcode(instructions[k]);
    }
}

/// A text that is one instruction assembles to exactly one code word, that of the
/// instruction.
pub proof fn lemma_single_instruction(text: Seq<char>, instruction: Instruction)
    requires
        lex_from(text, 0) matches Ok(tokens) && parse_from(tokens, 0) == Ok::<
            Seq<Instruction>,
            ParseFault,
        >(seq![instruction]),
    ensures
        assemble_text(text) == Ok::<Seq<Seq<u8>>, ParseFault>(seq![instruction.word()]),
{
    assert(words_of(seq![instruction]) =~= seq![instruction.word()]);
}

} // verus!
