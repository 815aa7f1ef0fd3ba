//! The console over the assembler and the machine: what a line asks for, and what a line
//! of input does to the machine. Reading lines and printing are the caller's part.

use crate::assembler::{assemble, assemble_text, word_bytes};
use crate::text::{
    after, chars_of, following, has_prefix, is_text, number, read_number, IntErrorKind,
};
use crate::vm::{bytes_of_words, flatten, Machine, Stop, VM};
use vstd::prelude::*;
use vstd::string::StrSliceExecFns;

verus! {

/// The console: the lines entered so far, and the machine.
pub struct REPL {
    pub command_buffer: Vec<String>,
    pub vm: VM,
}

/// What a line asks for.
#[derive(Debug, PartialEq, Eq)]
pub enum Command {
    /// `.quit` or `.exit`: leave.
    Quit,
    /// `.history`: show the lines entered so far.
    History,
    /// `.program`: show the program, four bytes a row.
    Program,
    /// `.run`: run the program.
    Run,
    /// `.registers`: show the status words and all registers.
    Registers,
    /// `.load` and a path: assemble the file there and install it.
    Load(String),
    /// `.reg` and a number: show that register. `None` where no number follows.
    Register(Option<usize>),
    /// Anything else: an instruction to append and execute, as source or as hex bytes.
    Input,
}

/// A `Command` as specifications see it.
pub enum Request {
    Quit,
    History,
    Program,
    Run,
    Registers,
    Load(Seq<char>),
    Register(Option<usize>),
    Input,
}

impl View for Command {
    type V = Request;

    open spec fn view(&self) -> Request {
        match self {
            Command::Quit => Request::Quit,
            Command::History => Request::History,
            Command::Program => Request::Program,
            Command::Run => Request::Run,
            Command::Registers => Request::Registers,
            Command::Load(path) => Request::Load(path@),
            Command::Register(n) => Request::Register(*n),
            Command::Input => Request::Input,
        }
    }
}

/// The characters that count as blank around the number of `.reg`: those that Unicode
/// lists as White_Space.
pub open spec fn is_blank(c: char) -> bool {
    let u = c as int;
    9 <= u <= 13 || u == 0x20 || u == 0x85 || u == 0xA0 || u == 0x1680 || 0x2000 <= u <= 0x200A
        || u == 0x2028 || u == 0x2029 || u == 0x202F || u == 0x205F || u == 0x3000
}

/// The first place from `pos` on where no blank stands; the length, if there is none.
pub open spec fn first_after_blanks(s: Seq<char>, pos: int) -> int
    decreases s.len() - pos,
{
    if 0 <= pos < s.len() && is_blank(s[pos]) {
        first_after_blanks(s, pos + 1)
    } else {
        pos
    }
}

/// The place behind the last character before `end` that is no blank; `low`, if there is
/// none from `low` on.
pub open spec fn last_before_blanks(s: Seq<char>, low: int, end: int) -> int
    decreases end,
{
    if 0 <= low < end <= s.len() && is_blank(s[end - 1]) {
        last_before_blanks(s, low, end - 1)
    } else {
        end
    }
}

/// What stands in `s` from place `from` on, without the blanks before and behind it.
pub open spec fn trimmed_from(s: Seq<char>, from: int) -> Seq<char> {
    let start = first_after_blanks(s, from);
    s.subrange(start, last_before_blanks(s, start, s.len() as int))
}

/// Whether `s` starts with `prefix`.
pub open spec fn starts_with(s: Seq<char>, prefix: Seq<char>) -> bool {
    prefix.len() <= s.len() && s.subrange(0, prefix.len() as int) == prefix
}

/// What a line asks for. The dot commands are matched whole, then `.load ` and `.reg`
/// by their start. `.load ` and `.reg` have the lengths 6 and 4.
pub open spec fn request(line: Seq<char>) -> Request {
    if line == ".quit"@ || line == ".exit"@ {
        Request::Quit
    } else if line == ".history"@ {
        Request::History
    } else if line == ".program"@ {
        Request::Program
    } else if line == ".run"@ {
        Request::Run
    } else if line == ".registers"@ {
        Request::Registers
    } else if starts_with(line, ".load "@) {
        Request::Load(line.subrange(6, line.len() as int))
    } else if starts_with(line, ".reg"@) {
        Request::Register(
            match number(trimmed_from(line, 4), 10, 0, usize::MAX as int) {
                Ok(n) => Some(n as usize),
                Err(_) => None,
            },
        )
    } else {
        Request::Input
    }
}

/// The bytes that a line of hexadecimal numbers writes, from place `pos` on: one byte for
/// each field between single spaces, or the error of the first field that is no byte. Two
/// spaces in a row hold an empty field between them, and so does a space at the end.
pub open spec fn hex_from(text: Seq<char>, pos: int) -> Result<Seq<u8>, IntErrorKind>
    decreases text.len() - pos,
{
    let end = pos + field_length(text, pos);
    match number(text.subrange(pos, end), 16, 0, 255) {
        Ok(byte) => if 0 <= pos && end < text.len() {
            proof {
                lemma_field_ends_in_text(text, pos);
            }
            following(byte as u8, hex_from(text, end + 1))
        } else {
            Ok(seq![byte as u8])
        },
        Err(kind) => Err(kind),
    }
}

/// The number of characters from place `pos` on up to the next space.
pub open spec fn field_length(text: Seq<char>, pos: int) -> nat
    decreases text.len() - pos,
{
    if pos < 0 || pos >= text.len() || text[pos] == ' ' {
        0
    } else {
        1 + field_length(text, pos + 1)
    }
}

/// A field does not go beyond the end of the text.
pub proof fn lemma_field_ends_in_text(text: Seq<char>, pos: int)
    requires
        0 <= pos <= text.len(),
    ensures
        pos + field_length(text, pos) <= text.len(),
    decreases text.len() - pos,
{
    if pos < text.len() && text[pos] != ' ' {
        lemma_field_ends_in_text(text, pos + 1);
    }
}

/// The bytes of a list of code words given by their bytes, one word after the other.
pub open spec fn bytes_of(words: Seq<Seq<u8>>) -> Seq<u8> {
    Seq::new(4 * words.len(), |i: int| words[i / 4][i % 4])
}

/// The bytes that a line of input stands for: those of the code words it assembles to,
/// else those that it writes in hexadecimal, else none.
pub open spec fn input_bytes(line: Seq<char>) -> Option<Seq<u8>> {
    match assemble_text(line) {
        Ok(words) => Some(bytes_of(words)),
        Err(_) => match hex_from(line, 0) {
            Ok(bytes) => Some(bytes),
            Err(_) => None,
        },
    }
}

fn char_is_blank(c: char) -> (b: bool)
    ensures
        b == is_blank(c),
{
    let u: u32 = c as u32;
    9 <= u && u <= 13 || u == 0x20 || u == 0x85 || u == 0xA0 || u == 0x1680 || 0x2000 <= u && u
        <= 0x200A || u == 0x2028 || u == 0x2029 || u == 0x202F || u == 0x205F || u == 0x3000
}

/// The number that follows `.reg`, if one does.
fn register_number(chars: &Vec<char>) -> (r: Option<usize>)
    requires
        chars.len() >= 4,
    ensures
        r == match number(trimmed_from(chars@, 4), 10, 0, usize::MAX as int) {
            Ok(n) => Some(n as usize),
            Err(_) => None,
        },
{
    let len = chars.len();
    let mut start: usize = 4;
    while start < len && char_is_blank(chars[start])
        invariant
            4 <= start <= len == chars.len(),
            first_after_blanks(chars@, 4) == first_after_blanks(chars@, start as int),
        decreases len - start,
    {
        start += 1;
    }
    let mut end: usize = len;
    while start < end && char_is_blank(chars[end - 1])
        invariant
            start <= end <= len == chars.len(),
            last_before_blanks(chars@, start as int, len as int) == last_before_blanks(
                chars@,
                start as int,
                end as int,
            ),
        decreases end,
    {
        end -= 1;
    }
    match read_number(chars, start, end, 10, 0, usize::MAX as i128) {
        Ok(n) => Some(n as usize),
        Err(_) => None,
    }
}

/// Reads a line of hexadecimal bytes, the fields parted by single spaces.
pub fn parse_hex(input: &str) -> (r: Result<Vec<u8>, IntErrorKind>)
    ensures
        match hex_from(input@, 0) {
            Ok(bytes) => r is Ok && r->Ok_0@ == bytes,
            Err(kind) => r == Err::<Vec<u8>, IntErrorKind>(kind),
        },
{
    let chars = chars_of(input);
    let len = chars.len();
    let mut output: Vec<u8> = Vec::new();
    let mut pos: usize = 0;
    loop
        invariant
            chars@ == input@,
            len == chars.len(),
            pos <= len,
            hex_from(input@, 0) == after(output@, hex_from(input@, pos as int)),
        decreases len - pos,
    {
        let mut end: usize = pos;
        while end < len && chars[end] != ' '
            invariant
                chars@ == input@,
                len == chars.len(),
                pos <= end <= len,
                field_length(input@, pos as int) == (end - pos) + field_length(input@, end as int),
            decreases len - end,
        {
            end += 1;
        }
        match read_number(&chars, pos, end, 16, 0, 255) {
            Ok(byte) => {
                proof {
                    if let Ok(bytes) = hex_from(input@, end + 1) {
                        assert(output@ + (seq![byte as u8] + bytes) =~= output@.push(byte as u8)
                            + bytes);
                    }
                }
                output.push(byte as u8);
                if end >= len {
                    return Ok(output);
                }
                pos = end + 1;
            },
            Err(kind) => {
                return Err(kind);
            },
        }
    }
}

impl REPL {
    /// The lines entered so far, in order.
    pub open spec fn lines(&self) -> Seq<Seq<char>> {
        Seq::new(self.command_buffer@.len(), |i: int| self.command_buffer@[i]@)
    }

    /// A console with a new machine and no lines entered.
    pub fn new() -> (repl: REPL)
        ensures
            repl.vm@ == Machine::fresh(),
            repl.lines() == Seq::<Seq<char>>::empty(),
    {
        let repl = REPL { command_buffer: Vec::new(), vm: VM::new() };
        assert(repl.lines() =~= Seq::<Seq<char>>::empty());
        repl
    }

    /// What `line` asks for. The line is taken as it stands: blanks around it are the
    /// caller's to take off.
    pub fn command(line: &str) -> (c: Command)
        ensures
            c@ == request(line@),
    {
        let chars = chars_of(line);
        if is_text(&chars, ".quit") || is_text(&chars, ".exit") {
            Command::Quit
        } else if is_text(&chars, ".history") {
            Command::History
        } else if is_text(&chars, ".program") {
            Command::Program
        } else if is_text(&chars, ".run") {
            Command::Run
        } else if is_text(&chars, ".registers") {
            Command::Registers
        } else if has_prefix(&chars, ".load ") {
            proof {
                reveal_strlit(".load ");
            }
            Command::Load(line.substring_char(6, chars.len()).to_owned())
        } else if has_prefix(&chars, ".reg") {
            proof {
                reveal_strlit(".reg");
            }
            Command::Register(register_number(&chars))
        } else {
            Command::Input
        }
    }

    /// Notes `line` as entered.
    pub fn remember(&mut self, line: &str)
        ensures
            final(self).lines() == old(self).lines().push(line@),
            final(self).vm == old(self).vm,
    {
        self.command_buffer.push(line.to_owned());
        assert(self.lines() =~= old(self).lines().push(line@));
    }

    /// The lines entered so far, in order.
    pub fn history(&self) -> (lines: &Vec<String>)
        ensures
            lines@.len() == self.lines().len(),
            forall|i: int| 0 <= i < lines@.len() ==> (#[trigger] lines@[i])@ == self.lines()[i],
    {
        &self.command_buffer
    }

    /// The value of register `n`, if there is such a register.
    pub fn register(&self, n: usize) -> (value: Option<i32>)
        ensures
            value == if n < 32 {
                Some(self.vm@.registers[n as int])
            } else {
                None
            },
    {
        if n < 32 {
            Some(self.vm.registers[n])
        } else {
            None
        }
    }

    /// Assembles `source` and installs the result as the program, with the program counter
    /// at its start. Where `source` does not assemble, nothing changes and the error comes
    /// back.
    pub fn load(&mut self, source: &str) -> (r: Result<(), crate::assembler::token::ParseError>)
        ensures
            final(self).lines() == old(self).lines(),
            match assemble_text(source@) {
                Ok(words) => r is Ok && final(self).vm@ == (Machine {
                    program: bytes_of(words),
                    pc: 0,
                    ..old(self).vm@
                }),
                Err(e) => r is Err && r->Err_0@ == e && final(self).vm@ == old(self).vm@,
            },
    {
        match assemble(source) {
            Ok(words) => {
                assert(flatten(words@) =~= bytes_of(word_bytes(words@)));
                self.vm.set_program(words);
                self.vm.pc = 0;
                Ok(())
            },
            Err(e) => Err(e),
        }
    }

    /// Takes `line` as input: appends the bytes it stands for to the program and executes
    /// one instruction. Returns why that step stopped the machine, if it did. A line that
    /// stands for no bytes changes nothing and gives `None`.
    pub fn enter(&mut self, line: &str) -> (stepped: Option<Option<Stop>>)
        ensures
            final(self).lines() == old(self).lines(),
            match input_bytes(line@) {
                Some(bytes) => {
                    let fed = Machine { program: old(self).vm@.program + bytes, ..old(self).vm@ };
                    &&& final(self).vm@ == fed.step().state
                    &&& stepped == Some(fed.step().exit)
                },
                None => final(self).vm@ == old(self).vm@ && stepped is None,
            },
    {
        let mut bytes: Vec<u8> = match assemble(line) {
            Ok(words) => {
                assert(flatten(words@) =~= bytes_of(word_bytes(words@)));
                bytes_of_words(&words)
            },
            Err(_) => match parse_hex(line) {
                Ok(bytes) => bytes,
                Err(_) => {
                    return None;
                },
            },
        };
        self.vm.program.append(&mut bytes);
        Some(self.vm.step())
    }
}

} // verus!
