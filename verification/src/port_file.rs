//! The port file: one line, written by the server, that holds the port it chose.
//!
//! The file counts as written once its contents end with a line feed. The line is
//! then read as an unsigned 16-bit decimal number, white space around it ignored.

use vstd::prelude::*;
use crate::text::{
    all_digits, all_white_space, char_is_digit, char_is_white_space, chars_of, decimal,
    digits_value, is_digit, lemma_decimal_denotes, lemma_trim_end_strips,
    lemma_trim_start_strips, trim, trim_end, trim_start,
};

verus! {

/// The name of the port file inside the directory that is watched.
pub const PORT_FILE_NAME: &'static str = "pocketic.port";

/// What the contents of the port file say at one moment.
#[derive(Clone, Copy, Debug, PartialEq, Eq, Structural)]
pub enum PortReading {
    /// The line is not finished: the writer has not flushed a line feed yet.
    Pending,
    /// A finished line that holds this port.
    Port(u16),
    /// A finished line that holds no 16-bit number.
    Malformed,
}

/// Whether `contents` ends with a line feed.
pub open spec fn is_complete(contents: Seq<char>) -> bool {
    contents.len() > 0 && contents.last() == '\n'
}

/// `t` without one leading plus sign, if it has one.
pub open spec fn without_sign(t: Seq<char>) -> Seq<char> {
    if t.len() > 0 && t.first() == '+' {
        t.drop_first()
    } else {
        t
    }
}

/// The number that `t` denotes as an unsigned 16-bit decimal: an optional plus
/// sign, then at least one digit and nothing else, with a value of at most 65535.
pub open spec fn numeral_u16(t: Seq<char>) -> Option<u16> {
    let d = without_sign(t);
    if d.len() > 0 && all_digits(d) && digits_value(d) <= u16::MAX {
        Some(digits_value(d) as u16)
    } else {
        None
    }
}

/// What `contents` say: nothing yet while the line is unfinished, then the port
/// that the trimmed contents denote, or that they denote none.
pub open spec fn reading_of(contents: Seq<char>) -> PortReading {
    if !is_complete(contents) {
        PortReading::Pending
    } else {
        match numeral_u16(trim(contents)) {
            Some(port) => PortReading::Port(port),
            None => PortReading::Malformed,
        }
    }
}

/// A prefix of a digit string denotes no more than the whole string.
proof fn lemma_prefix_value(s: Seq<char>, k: int)
    requires
        0 <= k <= s.len(),
    ensures
        digits_value(s.take(k)) <= digits_value(s),
    decreases s.len() - k,
{
    if k == s.len() {
        assert(s.take(k) =~= s);
    } else {
        assert(s.drop_last().take(k) =~= s.take(k));
        lemma_prefix_value(s.drop_last(), k);
    }
}

/// The bounds of `s` without the white space at its two ends.
fn trim_bounds(s: &Vec<char>) -> (r: (usize, usize))
    ensures
        r.0 <= r.1 <= s.len(),
        s@.subrange(r.0 as int, r.1 as int) == trim(s@),
{
    let n = s.len();
    let mut start: usize = 0;
    assert(s@.skip(0) =~= s@);
    while start < n && char_is_white_space(s[start])
        invariant
            n == s.len(),
            start <= n,
            trim_start(s@) == trim_start(s@.skip(start as int)),
        decreases n - start,
    {
        proof {
            assert(s@.skip(start as int).drop_first() =~= s@.skip(start as int + 1));
        }
        start += 1;
    }
    let mut end: usize = n;
    while end > start && char_is_white_space(s[end - 1])
        invariant
            n == s.len(),
            start <= end <= n,
            trim_end(s@.skip(start as int)) == trim_end(s@.subrange(start as int, end as int)),
        decreases end,
    {
        proof {
            assert(s@.subrange(start as int, end as int).drop_last() =~= s@.subrange(
                start as int,
                end as int - 1,
            ));
        }
        end -= 1;
    }
    (start, end)
}

/// Reads `s[from..to]` as an unsigned 16-bit decimal.
fn parse_numeral(s: &Vec<char>, from: usize, to: usize) -> (r: Option<u16>)
    requires
        from <= to <= s.len(),
    ensures
        r == numeral_u16(s@.subrange(from as int, to as int)),
{
    let ghost t = s@.subrange(from as int, to as int);
    let first: usize = if from < to && s[from] == '+' {
        from + 1
    } else {
        from
    };
    let ghost d = without_sign(t);
    if first == to {
        return None;
    }
    let mut value: u32 = 0;
    let mut i: usize = first;
    while i < to
        invariant
            from <= first <= i <= to <= s.len(),
            d == s@.subrange(first as int, to as int),
            d == without_sign(s@.subrange(from as int, to as int)),
            d.len() > 0,
            all_digits(d.take(i - first)),
            value == digits_value(d.take(i - first)),
            value <= u16::MAX,
        decreases to - i,
    {
        let c = s[i];
        let ghost k = i - first;
        assert(d.take(k + 1).drop_last() =~= d.take(k));
        if !char_is_digit(c) {
            assert(!all_digits(d)) by {
                assert(!is_digit(d[k]));
            }
            return None;
        }
        let next: u32 = value * 10 + ((c as u32) - ('0' as u32));
        if next > 65535 {
            proof {
                lemma_prefix_value(d, k + 1);
            }
            return None;
        }
        value = next;
        i += 1;
    }
    assert(d.take(to - first) =~= d);
    Some(value as u16)
}

/// Reads the contents of the port file.
///
/// Nothing is reported before the contents end with a line feed, so a write
/// that is still under way is never taken for a port.
pub fn read_port_file(contents: &str) -> (r: PortReading)
    ensures
        r == reading_of(contents@),
{
    let chars = chars_of(contents);
    let n = chars.len();
    if n == 0 || chars[n - 1] != '\n' {
        return PortReading::Pending;
    }
    let (start, end) = trim_bounds(&chars);
    match parse_numeral(&chars, start, end) {
        Some(port) => PortReading::Port(port),
        None => PortReading::Malformed,
    }
}

/// A port written as a decimal numeral is read back as that port, whatever
/// white space stands before and after the numeral, once a line feed ends the
/// contents.
pub proof fn lemma_written_port_reads_back(port: u16, before: Seq<char>, after: Seq<char>)
    requires
        all_white_space(before),
        all_white_space(after),
    ensures
        reading_of(before + decimal(port as nat) + after + seq!['\n']) == PortReading::Port(port),
{
    let numeral = decimal(port as nat);
    let tail = after + seq!['\n'];
    let rest = numeral + tail;
    let contents = before + numeral + after + seq!['\n'];
    lemma_decimal_denotes(port as nat);
    assert(contents =~= before + rest);
    lemma_trim_start_strips(before, rest);
    lemma_trim_end_strips(numeral, tail);
}

/// A finished line is malformed exactly if what is left of it, without the
/// white space around it and without a plus sign in front, is empty, or holds
/// a character that is no digit, or denotes a number above 65535.
pub proof fn lemma_malformed_lines(contents: Seq<char>)
    requires
        is_complete(contents),
    ensures
        reading_of(contents) == PortReading::Malformed <==> {
            let d = without_sign(trim(contents));
            d.len() == 0 || !all_digits(d) || digits_value(d) > 65535
        },
        reading_of(contents) != PortReading::Pending,
{
}

/// A finished line is never read as pending, and an unfinished one always is.
pub proof fn lemma_pending_iff_unfinished(contents: Seq<char>)
    ensures
        reading_of(contents) == PortReading::Pending <==> !is_complete(contents),
{
}

} // verus!
