//! Program bytes written as text: numbers in base sixteen with single spaces between
//! them.
//!
//! A number is an optional `+` and then one or more digits, `0` to `9` and `a` to `f` in
//! either case, and must not exceed 255. Everything here works on the bytes of the text.
use vstd::prelude::*;

verus! {

/// Why a piece of text is not a byte in base sixteen.
#[derive(Clone, Copy, Debug, PartialEq, Eq, Structural)]
pub enum HexError {
    /// There is nothing where a number should stand.
    Empty,
    /// A character is not a digit, or a sign stands alone.
    InvalidDigit,
    /// The number is larger than 255.
    Overflow,
}

/// The space that separates two numbers.
pub const SEPARATOR: u8 = 0x20;

/// The sign that may stand in front of a number.
pub const PLUS: u8 = 0x2b;

/// The value of the digit `c`, if it is one: `0` to `9` are the bytes from 0x30, `a` to
/// `f` those from 0x61, and `A` to `F` those from 0x41.
pub open spec fn digit_value(c: u8) -> Option<u8> {
    if 0x30 <= c <= 0x39 {
        Some((c - 0x30) as u8)
    } else if 0x61 <= c <= 0x66 {
        Some((c - 0x61 + 10) as u8)
    } else if 0x41 <= c <= 0x46 {
        Some((c - 0x41 + 10) as u8)
    } else {
        None
    }
}

/// The number that `digits` continue from `value`, read from left to right. The first
/// character that is no digit, or that makes the number exceed 255, ends the reading
/// with its error.
pub open spec fn read_digits(digits: Seq<u8>, value: nat) -> Result<u8, HexError>
    decreases digits.len(),
{
    if digits.len() == 0 {
        Ok(value as u8)
    } else {
        match digit_value(digits[0]) {
            None => Err(HexError::InvalidDigit),
            Some(digit) => if value * 16 + digit > 255 {
                Err(HexError::Overflow)
            } else {
                read_digits(digits.drop_first(), value * 16 + digit as nat)
            },
        }
    }
}

/// The byte that `token` denotes.
pub open spec fn read_byte(token: Seq<u8>) -> Result<u8, HexError> {
    if token.len() == 0 {
        Err(HexError::Empty)
    } else if token[0] == PLUS {
        if token.len() == 1 {
            Err(HexError::InvalidDigit)
        } else {
            read_digits(token.drop_first(), 0)
        }
    } else {
        read_digits(token, 0)
    }
}

/// The number of bytes of `line` before its first separator, or its length if it has
/// none.
pub open spec fn token_length(line: Seq<u8>) -> nat
    decreases line.len(),
{
    if line.len() == 0 || line[0] == SEPARATOR {
        0
    } else {
        1 + token_length(line.drop_first())
    }
}

/// The bytes that `line` denotes: one for each of the tokens that its separators part,
/// in their order; or the error of the first token that denotes none. A line of `n`
/// separators has `n + 1` tokens, so an empty line has one, which is empty.
pub open spec fn read_line(line: Seq<u8>) -> Result<Seq<u8>, HexError>
    decreases line.len(),
{
    let n = token_length(line);
    match read_byte(line.take(n as int)) {
        Err(error) => Err(error),
        Ok(byte) => if n >= line.len() {
            Ok(seq![byte])
        } else {
            match read_line(line.skip(n as int + 1)) {
                Err(error) => Err(error),
                Ok(rest) => Ok(seq![byte] + rest),
            }
        },
    }
}

/// `rest` with `done` in front of what it gives.
spec fn prepend(done: Seq<u8>, rest: Result<Seq<u8>, HexError>) -> Result<
    Seq<u8>,
    HexError,
> {
    match rest {
        Ok(bytes) => Ok(done + bytes),
        Err(error) => Err(error),
    }
}

/// The first separator of a line is not before its start, and not behind its end.
pub proof fn lemma_token_length_bounds(line: Seq<u8>)
    ensures
        token_length(line) <= line.len(),
        token_length(line) < line.len() ==> line[token_length(line) as int] == SEPARATOR,
        forall|i: int| 0 <= i < token_length(line) ==> line[i] != SEPARATOR,
    decreases line.len(),
{
    if line.len() > 0 && line[0] != SEPARATOR {
        let tail = line.drop_first();
        lemma_token_length_bounds(tail);
        assert forall|i: int| 0 <= i < token_length(line) implies line[i] != SEPARATOR by {
            if i > 0 {
                assert(line[i] == tail[i - 1]);
            }
        }
    }
}

/// The value of the digit `c`, if it is one.
fn digit(c: u8) -> (value: Option<u8>)
    ensures
        value == digit_value(c),
        value matches Some(v) ==> v < 16,
{
    if 0x30 <= c && c <= 0x39 {
        Some(c - 0x30)
    } else if 0x61 <= c && c <= 0x66 {
        Some(c - 0x61 + 10)
    } else if 0x41 <= c && c <= 0x46 {
        Some(c - 0x41 + 10)
    } else {
        None
    }
}

/// Reads the bytes of `line` from `from` up to `to` as one number.
fn parse_byte(line: &[u8], from: usize, to: usize) -> (result: Result<u8, HexError>)
    requires
        from <= to <= line@.len(),
    ensures
        result == read_byte(line@.subrange(from as int, to as int)),
{
    let ghost token = line@.subrange(from as int, to as int);
    if from == to {
        return Err(HexError::Empty);
    }
    let mut at = from;
    if line[from] == PLUS {
        if to - from == 1 {
            return Err(HexError::InvalidDigit);
        }
        at = from + 1;
    }
    let ghost digits = token.skip(at - from);
    assert(read_byte(token) == read_digits(digits, 0)) by {
        assert(token.drop_first() =~= token.skip(1));
        assert(token.skip(0) =~= token);
    }
    let mut value: u8 = 0;
    while at < to
        invariant
            from <= at <= to <= line@.len(),
            token == line@.subrange(from as int, to as int),
            read_byte(token) == read_digits(token.skip(at - from), value as nat),
        decreases to - at,
    {
        let ghost rest = token.skip(at - from);
        assert(rest.drop_first() =~= token.skip(at + 1 - from));
        match digit(line[at]) {
            None => {
                return Err(HexError::InvalidDigit);
            },
            Some(d) => {
                if value > 15 {
                    return Err(HexError::Overflow);
                }
                value = value * 16 + d;
            },
        }
        at += 1;
    }
    Ok(value)
}

/// Reads `line` as numbers with single spaces between them, and gives their bytes in
/// order, or the error of the first number that is none.
pub fn parse_hex_bytes(line: &[u8]) -> (result: Result<Vec<u8>, HexError>)
    ensures
        result is Ok <==> read_line(line@) is Ok,
        result matches Ok(bytes) ==> read_line(line@) == Ok::<Seq<u8>, HexError>(bytes@),
        result matches Err(error) ==> read_line(line@) == Err::<Seq<u8>, HexError>(error),
{
    let mut results: Vec<u8> = Vec::new();
    let mut start: usize = 0;
    assert(line@.skip(0) =~= line@);
    loop
        invariant
            start <= line@.len(),
            read_line(line@) == prepend(results@, read_line(line@.skip(start as int))),
        decreases line@.len() - start,
    {
        let ghost rest = line@.skip(start as int);
        let mut end = start;
        while end < line.len() && line[end] != SEPARATOR
            invariant
                start <= end <= line@.len(),
                rest == line@.skip(start as int),
                token_length(rest) == (end - start) + token_length(line@.skip(end as int)),
            decreases line@.len() - end,
        {
            assert(line@.skip(end as int).drop_first() =~= line@.skip(end + 1));
            end += 1;
        }
        proof {
            lemma_token_length_bounds(rest);
            assert(rest.take(end - start) =~= line@.subrange(start as int, end as int));
        }
        match parse_byte(line, start, end) {
            Err(error) => {
                return Err(error);
            },
            Ok(byte) => {
                proof {
                    let done = results@;
                    assert forall|more: Seq<u8>|
                        done + (seq![byte] + more) == done.push(byte) + more by {
                        assert(done + (seq![byte] + more) =~= done.push(byte) + more);
                    }
                    assert(done + seq![byte] =~= done.push(byte));
                    if end < line@.len() {
                        assert(rest.skip(end - start + 1) =~= line@.skip(end + 1));
                    }
                }
                results.push(byte);
            },
        }
        if end >= line.len() {
            return Ok(results);
        }
        start = end + 1;
    }
}

} // verus!
