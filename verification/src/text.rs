//! Building blocks for lines of text: runs of a fill character and padding
//! to a minimum width. Widths count characters, not bytes.

use vstd::prelude::*;
use vstd::string::*;

verus! {

/// `String::push` of the standard library: the string afterwards is the
/// string before with `ch` added at its end. Nothing else is claimed.
pub assume_specification[ String::push ](s: &mut String, ch: char)
    ensures
        final(s)@ == old(s)@.push(ch),
;

/// What the standard library's `Debug` formatting writes for a string: the
/// string between double quotes, with escapes for the characters that could
/// not be read back otherwise. The escaping rules are the standard
/// library's; the name stands for their result.
pub uninterp spec fn debug_quoted(text: Seq<char>) -> Seq<char>;

/// Formats `text` with `{:?}` through `format!` of the standard library,
/// that is with `<str as Debug>::fmt`. The result depends on the characters
/// of `text` alone, and is what `debug_quoted` names.
#[verifier::external_body]
pub(crate) fn debug_quote(text: &str) -> (quoted: String)
    ensures
        quoted@ == debug_quoted(text@),
{
    format!("{:?}", text)
}

/// The texts of a list of strings, in the same order.
pub open spec fn lines(texts: Seq<String>) -> Seq<Seq<char>> {
    Seq::new(texts.len(), |i: int| texts[i]@)
}

/// `count` copies of `fill`.
pub open spec fn repeated(fill: char, count: nat) -> Seq<char> {
    Seq::new(count, |i: int| fill)
}

/// How many fill characters a text of `len` characters lacks to reach
/// `width`; zero where it is already as wide or wider.
pub open spec fn missing(len: nat, width: nat) -> nat {
    if len >= width {
        0
    } else {
        (width - len) as nat
    }
}

/// `text` moved to the right end of a field of `width` characters: the fill
/// stands in front of it. A text wider than the field is left as it is.
pub open spec fn padded_start(text: Seq<char>, width: nat, fill: char) -> Seq<char> {
    repeated(fill, missing(text.len(), width)) + text
}

/// `text` in the middle of a field of `width` characters. Where the fill
/// cannot be split evenly, the odd character goes to the right. A text wider
/// than the field is left as it is: the line grows, nothing is cut.
pub open spec fn centered(text: Seq<char>, width: nat, fill: char) -> Seq<char> {
    let pad = missing(text.len(), width);
    repeated(fill, pad / 2) + text + repeated(fill, (pad - pad / 2) as nat)
}

/// Adds `count` copies of `fill` to the end of `out`.
pub fn push_repeated(out: &mut String, fill: char, count: usize)
    ensures
        final(out)@ == old(out)@ + repeated(fill, count as nat),
{
    let mut done: usize = 0;
    while done < count
        invariant
            done <= count,
            out@ == old(out)@ + repeated(fill, done as nat),
        decreases count - done,
    {
        out.push(fill);
        done += 1;
        assert(out@ =~= old(out)@ + repeated(fill, done as nat));
    }
}

/// A line of `count` copies of `fill`.
pub fn repeat_char(fill: char, count: usize) -> (line: String)
    ensures
        line@ == repeated(fill, count as nat),
{
    let mut line = String::new();
    push_repeated(&mut line, fill, count);
    assert(line@ =~= repeated(fill, count as nat));
    line
}

/// Right-aligns `text` in a field of `width` characters.
pub fn pad_start(text: &str, width: usize, fill: char) -> (line: String)
    ensures
        line@ == padded_start(text@, width as nat, fill),
{
    let len = text.unicode_len();
    let pad: usize = if len >= width { 0 } else { width - len };
    let mut line = String::new();
    push_repeated(&mut line, fill, pad);
    line.append(text);
    assert(line@ =~= padded_start(text@, width as nat, fill));
    line
}

/// Centres `text` in a field of `width` characters.
pub fn center(text: &str, width: usize, fill: char) -> (line: String)
    ensures
        line@ == centered(text@, width as nat, fill),
{
    let len = text.unicode_len();
    let pad: usize = if len >= width { 0 } else { width - len };
    let left: usize = pad / 2;
    let mut line = String::new();
    push_repeated(&mut line, fill, left);
    line.append(text);
    push_repeated(&mut line, fill, pad - left);
    assert(line@ =~= centered(text@, width as nat, fill));
    line
}

} // verus!
