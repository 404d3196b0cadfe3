//! Building blocks of the text output: repetition, padding and column widths.

use vstd::prelude::*;
use vstd::string::*;
use vstd::utf8::encode_utf8;
use crate::text::text_views;

verus! {

/// `unit` written `n` times.
pub open spec fn repeated(unit: Seq<char>, n: nat) -> Seq<char>
    decreases n,
{
    if n == 0 {
        Seq::empty()
    } else {
        repeated(unit, (n - 1) as nat) + unit
    }
}

/// `s` followed by as many spaces as it takes to make it `width` characters
/// long; `s` itself where it is that long already.
pub open spec fn padded(s: Seq<char>, width: nat) -> Seq<char> {
    if s.len() >= width {
        s
    } else {
        s + repeated(" "@, (width - s.len()) as nat)
    }
}

/// The number of bytes that a text takes.
pub open spec fn byte_len(s: Seq<char>) -> nat {
    encode_utf8(s).len()
}

/// The width of a column: the largest number of bytes that one of its texts
/// takes, and at least `least`.
pub open spec fn column_width(texts: Seq<Seq<char>>, least: nat) -> nat
    decreases texts.len(),
{
    if texts.len() == 0 {
        least
    } else {
        let before = column_width(texts.drop_last(), least);
        if byte_len(texts.last()) > before {
            byte_len(texts.last())
        } else {
            before
        }
    }
}

/// Writes `unit` `n` times.
pub fn repeat(unit: &str, n: usize) -> (r: String)
    ensures
        r@ == repeated(unit@, n as nat),
{
    let mut r = String::new();
    let mut i: usize = 0;
    while i < n
        invariant
            i <= n,
            r@ == repeated(unit@, i as nat),
        decreases n - i,
    {
        r.append(unit);
        i += 1;
    }
    r
}

/// Pads `s` with spaces on the right to `width` characters.
pub fn pad(s: &str, width: usize) -> (r: String)
    ensures
        r@ == padded(s@, width as nat),
{
    let n = s.unicode_len();
    let mut r = s.to_owned();
    if n < width {
        let fill = repeat(" ", width - n);
        r.append(fill.as_str());
    }
    r
}

/// Appends a line to `lines`.
pub fn push_line(lines: &mut Vec<String>, line: String)
    ensures
        text_views(final(lines)@) == text_views(old(lines)@).push(line@),
{
    lines.push(line);
    proof {
        assert(text_views(lines@) =~= text_views(old(lines)@).push(line@));
    }
}

/// The text `a` followed by `b`.
pub fn join(a: &str, b: &str) -> (r: String)
    ensures
        r@ == a@ + b@,
{
    let mut r = a.to_owned();
    r.append(b);
    r
}

} // verus!
