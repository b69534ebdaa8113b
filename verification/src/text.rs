//! Lines of a text and their trimming, stated over sequences of characters.

use vstd::prelude::*;

verus! {

/// The views of a sequence of strings, in order.
pub open spec fn texts(v: Seq<String>) -> Seq<Seq<char>> {
    v.map_values(|s: String| s@)
}

/// Whether `c` is white space in Unicode's sense (the property `White_Space`).
pub open spec fn is_space(c: char) -> bool {
    let n = c as u32;
    ||| 0x09 <= n <= 0x0D
    ||| n == 0x20
    ||| n == 0x85
    ||| n == 0xA0
    ||| n == 0x1680
    ||| 0x2000 <= n <= 0x200A
    ||| n == 0x2028
    ||| n == 0x2029
    ||| n == 0x202F
    ||| n == 0x205F
    ||| n == 0x3000
}

/// How many characters of white space `s` starts with.
pub open spec fn leading_space(s: Seq<char>) -> nat
    decreases s.len(),
{
    if s.len() > 0 && is_space(s[0]) {
        1 + leading_space(s.drop_first())
    } else {
        0
    }
}

/// How many characters of white space `s` ends with.
pub open spec fn trailing_space(s: Seq<char>) -> nat
    decreases s.len(),
{
    if s.len() > 0 && is_space(s.last()) {
        1 + trailing_space(s.drop_last())
    } else {
        0
    }
}

/// `s` without the white space at its two ends.
pub open spec fn trimmed(s: Seq<char>) -> Seq<char> {
    if leading_space(s) >= s.len() {
        Seq::empty()
    } else {
        s.subrange(leading_space(s) as int, s.len() - trailing_space(s))
    }
}

/// The position of the first line feed in `s`, or the length of `s` where it
/// holds none.
pub open spec fn line_end(s: Seq<char>) -> nat
    decreases s.len(),
{
    if s.len() == 0 || s[0] == '\n' {
        0
    } else {
        1 + line_end(s.drop_first())
    }
}

/// `s` without one carriage return at its end, if it has one.
pub open spec fn without_carriage_return(s: Seq<char>) -> Seq<char> {
    if s.len() > 0 && s.last() == '\r' {
        s.drop_last()
    } else {
        s
    }
}

/// The lines of `s`. A line ends at a line feed, or at a carriage return
/// directly followed by one; neither belongs to the line. What follows the
/// last line feed is a line of its own unless it is empty.
pub open spec fn lines_of(s: Seq<char>) -> Seq<Seq<char>>
    decreases s.len(),
{
    if s.len() == 0 {
        Seq::empty()
    } else if line_end(s) >= s.len() {
        seq![s]
    } else {
        seq![without_carriage_return(s.subrange(0, line_end(s) as int))] + lines_of(
            s.subrange(line_end(s) as int + 1, s.len() as int),
        )
    }
}

/// The lines that carry content: each of `lines` trimmed, without those
/// that are empty after trimming.
pub open spec fn content_of(lines: Seq<Seq<char>>) -> Seq<Seq<char>> {
    lines.map_values(|l: Seq<char>| trimmed(l)).filter(|l: Seq<char>| l.len() > 0)
}

/// The trimmed, non-empty lines of a text.
pub open spec fn content_lines_of(text: Seq<char>) -> Seq<Seq<char>> {
    content_of(lines_of(text))
}

/// Calls `str::lines`, which splits a text at each line feed, drops the line
/// feed and a carriage return directly before it, and yields what follows the
/// last line feed only where that is not empty. The contract claims that the
/// lines handed back are `lines_of` the text.
#[verifier::external_body]
fn split_lines(text: &str) -> (r: Vec<String>)
    ensures
        texts(r@) == lines_of(text@),
{
    text.lines().map(|l| l.to_string()).collect()
}

/// Calls `str::trim`, which removes the white space, in Unicode's sense, at
/// both ends. The contract claims that the result is `trimmed` of the input.
#[verifier::external_body]
pub(crate) fn trim_text(s: &str) -> (r: String)
    ensures
        r@ == trimmed(s@),
{
    s.trim().to_string()
}

/// The trimmed, non-empty lines of `text`, in order.
pub fn content_lines(text: &str) -> (r: Vec<String>)
    ensures
        texts(r@) == content_lines_of(text@),
{
    let lines = split_lines(text);
    let mut out: Vec<String> = Vec::new();
    let ghost trim = |l: Seq<char>| trimmed(l);
    let ghost keep = |l: Seq<char>| l.len() > 0;
    proof {
        reveal(Seq::filter);
    }
    for i in 0..lines.len()
        invariant
            texts(lines@) == lines_of(text@),
            trim == |l: Seq<char>| trimmed(l),
            keep == |l: Seq<char>| l.len() > 0,
            texts(out@) == texts(lines@).take(i as int).map_values(trim).filter(keep),
    {
        let t = trim_text(lines[i].as_str());
        proof {
            reveal(Seq::filter);
            let before = texts(lines@).take(i as int).map_values(trim);
            let after = texts(lines@).take(i + 1).map_values(trim);
            assert(after.drop_last() =~= before);
        }
        if !t.as_str().is_empty() {
            out.push(t);
        }
    }
    proof {
        assert(texts(lines@).take(lines.len() as int) =~= texts(lines@));
    }
    out
}

} // verus!
