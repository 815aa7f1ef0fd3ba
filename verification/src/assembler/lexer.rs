//! Text to tokens: words between whitespace, each classified by its first character.

use crate::assembler::token::{ParseError, ParseFault, Token};
use crate::text::{after, char_is_space, chars_of, following, is_space};
use vstd::prelude::*;
use vstd::string::StrSliceExecFns;

verus! {

/// The number of characters from place `pos` on that are no whitespace, up to the first
/// that is.
pub open spec fn run_length(text: Seq<char>, pos: int) -> nat
    decreases text.len() - pos,
{
    if pos < 0 || pos >= text.len() || is_space(text[pos]) {
        0
    } else {
        1 + run_length(text, pos + 1)
    }
}

/// A run of characters does not go beyond the end of the text.
pub proof fn lemma_run_ends_in_text(text: Seq<char>, pos: int)
    requires
        0 <= pos <= text.len(),
    ensures
        pos + run_length(text, pos) <= text.len(),
    decreases text.len() - pos,
{
    if pos < text.len() && !is_space(text[pos]) {
        lemma_run_ends_in_text(text, pos + 1);
    }
}

/// The tokens of the words of `text` from place `pos` on, or the error of the first word
/// that is no token. A word starts at `pos` if a character that is no whitespace stands
/// there, and runs up to the next whitespace.
pub open spec fn lex_from(text: Seq<char>, pos: int) -> Result<Seq<Token>, ParseFault>
    decreases text.len() - pos,
{
    if pos < 0 || pos >= text.len() {
        Ok(Seq::empty())
    } else if is_space(text[pos]) {
        lex_from(text, pos + 1)
    } else {
        let end = pos + 1 + run_length(text, pos + 1);
        proof {
            lemma_run_ends_in_text(text, pos + 1);
        }
        match Token::of_word(text.subrange(pos, end)) {
            Ok(token) => following(token, lex_from(text, end)),
            Err(e) => Err(e),
        }
    }
}

/// The result of a lexing as specifications see it.
pub open spec fn lexed(r: Result<Vec<Token>, ParseError>) -> Result<Seq<Token>, ParseFault> {
    match r {
        Ok(tokens) => Ok(tokens@),
        Err(e) => Err(e@),
    }
}

/// Splits `input` at whitespace and classifies each word. Stops at the first word that is
/// no token.
pub fn lex(input: &str) -> (r: Result<Vec<Token>, ParseError>)
    ensures
        lexed(r) == lex_from(input@, 0),
{
    let chars = chars_of(input);
    let len = chars.len();
    let mut output: Vec<Token> = Vec::new();
    let mut pos: usize = 0;
    while pos < len
        invariant
            chars@ == input@,
            len == chars.len(),
            pos <= len,
            lex_from(input@, 0) == after(output@, lex_from(input@, pos as int)),
        decreases len - pos,
    {
        if char_is_space(chars[pos]) {
            pos += 1;
        } else {
            let mut end: usize = pos + 1;
            while end < len && !char_is_space(chars[end])
                invariant
                    chars@ == input@,
                    len == chars.len(),
                    pos < end <= len,
                    run_length(input@, pos + 1) == (end - pos - 1) + run_length(input@, end as int),
                decreases len - end,
            {
                end += 1;
            }
            let word = input.substring_char(pos, end);
            match Token::try_from(word) {
                Ok(token) => {
                    proof {
                        if let Ok(tokens) = lex_from(input@, end as int) {
                            assert(output@ + (seq![token] + tokens) =~= output@.push(token)
                                + tokens);
                        }
                    }
                    output.push(token);
                    pos = end;
                },
                Err(e) => {
                    return Err(e);
                },
            }
        }
    }
    assert(output@ + Seq::<Token>::empty() =~= output@);
    Ok(output)
}

} // verus!
