//! Characters, words and numbers: what the assembler and the console read a text with.

use vstd::prelude::*;

verus! {

/// The six ASCII whitespace characters that separate tokens.
pub open spec fn is_space(c: char) -> bool {
    c == ' ' || c == '\t' || c == '\n' || c == '\r' || c == '\x0B' || c == '\x0C'
}

/// ASCII lower-casing of one character; every other character is kept.
pub open spec fn lower_char(c: char) -> char {
    if 'A' <= c && c <= 'Z' {
        ((c as int) + 32) as char
    } else {
        c
    }
}

/// ASCII lower-casing of a whole text.
pub open spec fn lowercase(s: Seq<char>) -> Seq<char> {
    Seq::new(s.len(), |i: int| lower_char(s[i]))
}

/// The value of a hexadecimal digit in either case, if `c` is one.
pub open spec fn hex_value(c: char) -> Option<int> {
    if '0' <= c && c <= '9' {
        Some((c as int) - ('0' as int))
    } else if 'a' <= c && c <= 'f' {
        Some((c as int) - ('a' as int) + 10)
    } else if 'A' <= c && c <= 'F' {
        Some((c as int) - ('A' as int) + 10)
    } else {
        None
    }
}

/// Why a text is not a number.
#[derive(Debug, PartialEq, Eq, Clone, Copy, Structural)]
pub enum IntErrorKind {
    /// The text is empty.
    Empty,
    /// A character is no digit, or the text is a lone sign.
    InvalidDigit,
    /// The number is above the largest value.
    PosOverflow,
    /// The number is below the smallest value.
    NegOverflow,
}

/// The value of `c` as a digit to the base `radix`, if it is one.
pub open spec fn digit_in(c: char, radix: int) -> Option<int> {
    match hex_value(c) {
        Some(d) => if d < radix {
            Some(d)
        } else {
            None
        },
        None => None,
    }
}

/// Reads `digits` from the left into `acc`, which grows away from zero, downward if
/// `negative`. It stops at the first character that is no digit, and at the first digit
/// that takes the value out of `min..=max`.
pub open spec fn accumulate(
    digits: Seq<char>,
    radix: int,
    acc: int,
    negative: bool,
    min: int,
    max: int,
) -> Result<int, IntErrorKind>
    decreases digits.len(),
{
    if digits.len() == 0 {
        Ok(acc)
    } else {
        match digit_in(digits[0], radix) {
            None => Err(IntErrorKind::InvalidDigit),
            Some(d) => {
                let next = if negative {
                    acc * radix - d
                } else {
                    acc * radix + d
                };
                if next > max {
                    Err(IntErrorKind::PosOverflow)
                } else if next < min {
                    Err(IntErrorKind::NegOverflow)
                } else {
                    accumulate(
                        digits.subrange(1, digits.len() as int),
                        radix,
                        next,
                        negative,
                        min,
                        max,
                    )
                }
            },
        }
    }
}

/// The number that `text` writes to the base `radix`, within `min..=max`: an optional sign
/// and one digit or more. A `-` is a sign only where `min` is negative.
pub open spec fn number(text: Seq<char>, radix: int, min: int, max: int) -> Result<
    int,
    IntErrorKind,
> {
    if text.len() == 0 {
        Err(IntErrorKind::Empty)
    } else if text.len() == 1 && (text[0] == '+' || text[0] == '-') {
        Err(IntErrorKind::InvalidDigit)
    } else if text[0] == '+' {
        accumulate(text.subrange(1, text.len() as int), radix, 0, false, min, max)
    } else if text[0] == '-' && min < 0 {
        accumulate(text.subrange(1, text.len() as int), radix, 0, true, min, max)
    } else {
        accumulate(text, radix, 0, false, min, max)
    }
}

/// The value that `digits` write to the base `radix`, the most significant digit first.
pub open spec fn positional(digits: Seq<char>, radix: int) -> int
    decreases digits.len(),
{
    if digits.len() == 0 {
        0
    } else {
        positional(digits.drop_last(), radix) * radix + match digit_in(digits.last(), radix) {
            Some(d) => d,
            None => 0,
        }
    }
}

/// Whether every character of `digits` is a digit to the base `radix`.
pub open spec fn all_digits(digits: Seq<char>, radix: int) -> bool {
    forall|i: int| 0 <= i < digits.len() ==> (#[trigger] digit_in(digits[i], radix)) is Some
}

/// The value of digits is not negative, and not below that of any of their prefixes.
pub proof fn lemma_positional_grows(digits: Seq<char>, k: int, radix: int)
    requires
        radix >= 2,
        0 <= k <= digits.len(),
    ensures
        0 <= positional(digits.take(k), radix) <= positional(digits, radix),
    decreases digits.len() - k,
{
    if k == digits.len() {
        assert(digits.take(k) =~= digits);
        lemma_positional_not_negative(digits, radix);
    } else {
        lemma_positional_grows(digits.drop_last(), k, radix);
        assert(digits.drop_last().take(k) =~= digits.take(k));
        let p = positional(digits.drop_last(), radix);
        assert(p <= p * radix) by (nonlinear_arith)
            requires
                p >= 0,
                radix >= 2,
        ;
    }
}

/// The value of digits is not negative.
pub proof fn lemma_positional_not_negative(digits: Seq<char>, radix: int)
    requires
        radix >= 2,
    ensures
        0 <= positional(digits, radix),
    decreases digits.len(),
{
    if digits.len() > 0 {
        lemma_positional_not_negative(digits.drop_last(), radix);
        let p = positional(digits.drop_last(), radix);
        assert(0 <= p * radix) by (nonlinear_arith)
            requires
                p >= 0,
                radix >= 2,
        ;
    }
}

/// Digits whose value, with its sign, lies in `min..=max` are read as that value: the
/// first `k` of them read already, the rest comes out the same.
proof fn lemma_accumulate_from(
    digits: Seq<char>,
    k: int,
    radix: int,
    negative: bool,
    min: int,
    max: int,
)
    requires
        radix >= 2,
        min <= 0 <= max,
        0 <= k <= digits.len(),
        all_digits(digits, radix),
        negative ==> min <= -positional(digits, radix),
        !negative ==> positional(digits, radix) <= max,
    ensures
        accumulate(
            digits.subrange(k, digits.len() as int),
            radix,
            if negative {
                -positional(digits.take(k), radix)
            } else {
                positional(digits.take(k), radix)
            },
            negative,
            min,
            max,
        ) == Ok::<int, IntErrorKind>(
            if negative {
                -positional(digits, radix)
            } else {
                positional(digits, radix)
            },
        ),
    decreases digits.len() - k,
{
    let rest = digits.subrange(k, digits.len() as int);
    if k == digits.len() {
        assert(digits.take(k) =~= digits);
    } else {
        let done = positional(digits.take(k), radix);
        let d = digit_in(digits[k], radix)->0;
        assert(rest[0] == digits[k]);
        assert(digits.take(k + 1).drop_last() =~= digits.take(k));
        assert(digits.take(k + 1).last() == digits[k]);
        assert(positional(digits.take(k + 1), radix) == done * radix + d);
        assert((-done) * radix - d == -(done * radix + d)) by (nonlinear_arith);
        lemma_positional_grows(digits, k + 1, radix);
        assert(rest.subrange(1, rest.len() as int) =~= digits.subrange(k + 1, digits.len() as int));
        lemma_accumulate_from(digits, k + 1, radix, negative, min, max);
    }
}

/// Digits whose value lies in `0..=max` are a number, alone or behind a `+`, and it is
/// that value.
pub proof fn lemma_number_value(digits: Seq<char>, radix: int, min: int, max: int)
    requires
        radix >= 2,
        min <= 0 <= max,
        digits.len() > 0,
        all_digits(digits, radix),
        positional(digits, radix) <= max,
    ensures
        number(digits, radix, min, max) == Ok::<int, IntErrorKind>(positional(digits, radix)),
        number(seq!['+'] + digits, radix, min, max) == Ok::<int, IntErrorKind>(
            positional(digits, radix),
        ),
{
    assert(digit_in(digits[0], radix) is Some);
    assert(digits.take(0) =~= Seq::<char>::empty());
    assert(digits.subrange(0, digits.len() as int) =~= digits);
    lemma_accumulate_from(digits, 0, radix, false, min, max);
    let signed = seq!['+'] + digits;
    assert(signed.subrange(1, signed.len() as int) =~= digits);
}

/// Digits behind a `-` whose value, negated, is not below `min` are a number where `min`
/// is negative, and it is that value negated.
pub proof fn lemma_negative_number_value(digits: Seq<char>, radix: int, min: int, max: int)
    requires
        radix >= 2,
        min < 0 <= max,
        digits.len() > 0,
        all_digits(digits, radix),
        min <= -positional(digits, radix),
    ensures
        number(seq!['-'] + digits, radix, min, max) == Ok::<int, IntErrorKind>(
            -positional(digits, radix),
        ),
{
    assert(digits.take(0) =~= Seq::<char>::empty());
    assert(digits.subrange(0, digits.len() as int) =~= digits);
    lemma_accumulate_from(digits, 0, radix, true, min, max);
    let signed = seq!['-'] + digits;
    assert(signed.subrange(1, signed.len() as int) =~= digits);
}

/// `first` before what `rest` holds; an error stays.
pub open spec fn following<T, E>(first: T, rest: Result<Seq<T>, E>) -> Result<Seq<T>, E> {
    match rest {
        Ok(items) => Ok(seq![first] + items),
        Err(e) => Err(e),
    }
}

/// `done` before what `rest` holds; an error stays.
pub open spec fn after<T, E>(done: Seq<T>, rest: Result<Seq<T>, E>) -> Result<Seq<T>, E> {
    match rest {
        Ok(items) => Ok(done + items),
        Err(e) => Err(e),
    }
}

/// Whether `c` separates tokens.
pub fn char_is_space(c: char) -> (b: bool)
    ensures
        b == is_space(c),
{
    c == ' ' || c == '\t' || c == '\n' || c == '\r' || c == '\x0B' || c == '\x0C'
}

/// `c` in lower case, if it is an ASCII capital; else `c`.
pub fn to_lower(c: char) -> (l: char)
    ensures
        l == lower_char(c),
{
    if 'A' <= c && c <= 'Z' {
        let b: u8 = c as u8;
        (b + 32) as char
    } else {
        c
    }
}

/// The value of `c` as a hexadecimal digit, if it is one.
pub fn hex_digit_of(c: char) -> (d: Option<u8>)
    ensures
        d is Some == hex_value(c) is Some,
        d is Some ==> d->0 as int == hex_value(c)->0,
{
    if '0' <= c && c <= '9' {
        Some((c as u8) - 48)
    } else if 'a' <= c && c <= 'f' {
        Some((c as u8) - 87)
    } else if 'A' <= c && c <= 'F' {
        Some((c as u8) - 55)
    } else {
        None
    }
}

/// The characters of `s`, in order.
pub fn chars_of(s: &str) -> (v: Vec<char>)
    ensures
        v@ == s@,
{
    let mut v: Vec<char> = Vec::new();
    for c in it: s.chars()
        invariant
            it.seq() == s@,
            v@ == s@.take(it.index() as int),
    {
        v.push(c);
    }
    v
}

/// Whether `word`, lower-cased, spells `text`.
pub fn spells(word: &Vec<char>, text: &str) -> (b: bool)
    ensures
        b == (lowercase(word@) == text@),
{
    let n = text.unicode_len();
    if word.len() != n {
        return false;
    }
    let mut i: usize = 0;
    while i < n
        invariant
            n == text@.len(),
            word@.len() == n,
            i <= n,
            forall|k: int| 0 <= k < i ==> lower_char(word@[k]) == text@[k],
        decreases n - i,
    {
        if to_lower(word[i]) != text.get_char(i) {
            assert(lowercase(word@)[i as int] != text@[i as int]);
            return false;
        }
        i += 1;
    }
    assert(lowercase(word@) =~= text@);
    true
}

/// Whether `word` is `text`, letter for letter.
pub fn is_text(word: &Vec<char>, text: &str) -> (b: bool)
    ensures
        b == (word@ == text@),
{
    let n = text.unicode_len();
    if word.len() != n {
        return false;
    }
    let mut i: usize = 0;
    while i < n
        invariant
            n == text@.len(),
            word@.len() == n,
            i <= n,
            forall|k: int| 0 <= k < i ==> word@[k] == text@[k],
        decreases n - i,
    {
        if word[i] != text.get_char(i) {
            return false;
        }
        i += 1;
    }
    assert(word@ =~= text@);
    true
}

/// Whether `word` starts with `text`.
pub fn has_prefix(word: &Vec<char>, text: &str) -> (b: bool)
    ensures
        b == (text@.len() <= word@.len() && word@.subrange(0, text@.len() as int) == text@),
{
    let n = text.unicode_len();
    if word.len() < n {
        return false;
    }
    let mut i: usize = 0;
    while i < n
        invariant
            n == text@.len(),
            n <= word@.len(),
            i <= n,
            forall|k: int| 0 <= k < i ==> word@[k] == text@[k],
        decreases n - i,
    {
        if word[i] != text.get_char(i) {
            assert(word@.subrange(0, n as int)[i as int] != text@[i as int]);
            return false;
        }
        i += 1;
    }
    assert(word@.subrange(0, n as int) =~= text@);
    true
}

/// Reads the number that the characters `from..to` of `chars` write.
pub fn read_number(
    chars: &Vec<char>,
    from: usize,
    to: usize,
    radix: u8,
    min: i128,
    max: i128,
) -> (r: Result<i128, IntErrorKind>)
    requires
        from <= to <= chars.len(),
        2 <= radix <= 16,
        -0x1_0000_0000_0000_0000 <= min <= 0 <= max <= 0x1_0000_0000_0000_0000,
    ensures
        match number(
            chars@.subrange(from as int, to as int),
            radix as int,
            min as int,
            max as int,
        ) {
            Ok(v) => r is Ok && r->Ok_0 == v && min <= v <= max,
            Err(kind) => r == Err::<i128, IntErrorKind>(kind),
        },
{
    let ghost text = chars@.subrange(from as int, to as int);
    let ghost goal = number(text, radix as int, min as int, max as int);
    if from == to {
        return Err(IntErrorKind::Empty);
    }
    let first = chars[from];
    assert(first == text[0]);
    if to - from == 1 && (first == '+' || first == '-') {
        return Err(IntErrorKind::InvalidDigit);
    }
    let negative = first == '-' && min < 0;
    let start: usize = if first == '+' || negative {
        from + 1
    } else {
        from
    };
    assert(chars@.subrange(start as int, to as int) =~= if start == from {
        text
    } else {
        text.subrange(1, text.len() as int)
    });
    assert(goal == accumulate(
        chars@.subrange(start as int, to as int),
        radix as int,
        0,
        negative,
        min as int,
        max as int,
    ));
    let mut acc: i128 = 0;
    let mut i: usize = start;
    while i < to
        invariant
            start <= i <= to <= chars.len(),
            2 <= radix <= 16,
            -0x1_0000_0000_0000_0000 <= min <= 0 <= max <= 0x1_0000_0000_0000_0000,
            min <= acc <= max,
            goal == number(
                chars@.subrange(from as int, to as int),
                radix as int,
                min as int,
                max as int,
            ),
            goal == accumulate(
                chars@.subrange(i as int, to as int),
                radix as int,
                acc as int,
                negative,
                min as int,
                max as int,
            ),
        decreases to - i,
    {
        let ghost rest = chars@.subrange(i as int, to as int);
        assert(rest[0] == chars@[i as int]);
        assert(rest.subrange(1, rest.len() as int) =~= chars@.subrange(i + 1, to as int));
        let d: u8 = match hex_digit_of(chars[i]) {
            Some(d) => d,
            None => {
                return Err(IntErrorKind::InvalidDigit);
            },
        };
        if d >= radix {
            return Err(IntErrorKind::InvalidDigit);
        }
        assert(-0x10_0000_0000_0000_0000 <= acc * radix <= 0x10_0000_0000_0000_0000)
            by (nonlinear_arith)
            requires
                -0x1_0000_0000_0000_0000 <= acc <= 0x1_0000_0000_0000_0000,
                2 <= radix <= 16,
        ;
        let next: i128 = if negative {
            acc * (radix as i128) - (d as i128)
        } else {
            acc * (radix as i128) + (d as i128)
        };
        if next > max {
            return Err(IntErrorKind::PosOverflow);
        }
        if next < min {
            return Err(IntErrorKind::NegOverflow);
        }
        acc = next;
        i += 1;
    }
    Ok(acc)
}

} // verus!
