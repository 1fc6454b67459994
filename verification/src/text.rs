//! Lines of text as a front end hands them over: what counts as white space, and a line
//! without the white space around it.
use vstd::prelude::*;
use vstd::string::StrSliceExecFns;

verus! {

/// Whether `c` is white space: one of the twenty-five characters that Unicode gives the
/// property `White_Space`.
pub open spec fn is_white_space(c: char) -> bool {
    let code = c as u32;
    ||| 0x09 <= code <= 0x0d
    ||| code == 0x20
    ||| code == 0x85
    ||| code == 0xa0
    ||| code == 0x1680
    ||| 0x2000 <= code <= 0x200a
    ||| code == 0x2028
    ||| code == 0x2029
    ||| code == 0x202f
    ||| code == 0x205f
    ||| code == 0x3000
}

/// `text` without the white space at its start.
pub open spec fn trim_start(text: Seq<char>) -> Seq<char>
    decreases text.len(),
{
    if text.len() > 0 && is_white_space(text.first()) {
        trim_start(text.drop_first())
    } else {
        text
    }
}

/// `text` without the white space at its end.
pub open spec fn trim_end(text: Seq<char>) -> Seq<char>
    decreases text.len(),
{
    if text.len() > 0 && is_white_space(text.last()) {
        trim_end(text.drop_last())
    } else {
        text
    }
}

/// `text` without the white space at its start and at its end.
pub open spec fn trimmed(text: Seq<char>) -> Seq<char> {
    trim_end(trim_start(text))
}

/// Whether `c` is white space.
pub fn is_whitespace(c: char) -> (white: bool)
    ensures
        white == is_white_space(c),
{
    let code = c as u32;
    (0x09 <= code && code <= 0x0d) || code == 0x20 || code == 0x85 || code == 0xa0 || code
        == 0x1680 || (0x2000 <= code && code <= 0x200a) || code == 0x2028 || code == 0x2029
        || code == 0x202f || code == 0x205f || code == 0x3000
}

/// The part of `line` between the white space at its start and at its end.
///
/// Each character that is looked at is found by counting from the start of the line, so
/// the time taken grows with the length of the line times the amount of white space
/// around it.
pub fn trim(line: &str) -> (inner: &str)
    ensures
        inner@ == trimmed(line@),
{
    let length = line.unicode_len();
    let mut from: usize = 0;
    assert(line@.subrange(0, length as int) =~= line@);
    while from < length && is_whitespace(line.get_char(from))
        invariant
            from <= length == line@.len(),
            trim_start(line@) == trim_start(line@.subrange(from as int, length as int)),
        decreases length - from,
    {
        assert(line@.subrange(from as int, length as int).drop_first() =~= line@.subrange(
            from + 1,
            length as int,
        ));
        from += 1;
    }
    let ghost tail = line@.subrange(from as int, length as int);
    let mut to: usize = length;
    while to > from && is_whitespace(line.get_char(to - 1))
        invariant
            from <= to <= length == line@.len(),
            trim_end(tail) == trim_end(line@.subrange(from as int, to as int)),
        decreases to - from,
    {
        assert(line@.subrange(from as int, to as int).drop_last() =~= line@.subrange(
            from as int,
            to - 1,
        ));
        to -= 1;
    }
    line.substring_char(from, to)
}

/// Whether `a` and `b` are the same text.
pub fn same_text(a: &str, b: &str) -> (same: bool)
    ensures
        same == (a@ == b@),
{
    a.to_owned() == b.to_owned()
}

} // verus!
