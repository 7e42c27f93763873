//! The banner formatter: the header line that announces a section and the
//! separator line that closes it.

use vstd::prelude::*;
use vstd::string::*;
use crate::text::{center, centered, missing, repeat_char, repeated};

verus! {

/// The width, in characters, of a banner in the standard report.
pub const TITLE_MAX_SIZE: usize = 80;

/// The character that banners and separators are filled with.
pub const FILL: char = '-';

/// A title with one space in front of it and one behind.
pub open spec fn spaced(title: Seq<char>) -> Seq<char> {
    seq![' '] + title + seq![' ']
}

/// The header line for `title`: the spaced title, centred between fill
/// characters in a line of `width` characters.
pub open spec fn title_line(title: Seq<char>, width: nat) -> Seq<char> {
    centered(spaced(title), width, FILL)
}

/// The separator line: `width` fill characters.
pub open spec fn separator_line(width: nat) -> Seq<char> {
    repeated(FILL, width)
}

/// The number of fill characters in front of the title in its header line.
pub open spec fn left_fill(title: Seq<char>, width: nat) -> nat {
    missing(title.len() + 2, width) / 2
}

/// The number of fill characters behind the title in its header line.
pub open spec fn right_fill(title: Seq<char>, width: nat) -> nat {
    (missing(title.len() + 2, width) - left_fill(title, width)) as nat
}

/// Renders the header line of a section: the title with one space on each
/// side, in the middle of a line of `width` fill characters. The line is
/// never shorter than `width`. The fill on the right is as long as the fill
/// on the left, or one longer where it cannot be split evenly. No title is
/// refused: one that does not fit gets a longer line and no fill.
pub fn render_title(title: &str, width: usize) -> (line: String)
    ensures
        line@ == title_line(title@, width as nat),
        line@ == repeated(FILL, left_fill(title@, width as nat)) + seq![' '] + title@ + seq![' ']
            + repeated(FILL, right_fill(title@, width as nat)),
        line@.len() >= width,
        title@.len() + 2 <= width ==> line@.len() == width,
        left_fill(title@, width as nat) <= right_fill(title@, width as nat) <= left_fill(
            title@,
            width as nat,
        ) + 1,
{
    let mut whitespaced = String::new();
    whitespaced.push(' ');
    whitespaced.append(title);
    whitespaced.push(' ');
    assert(whitespaced@ =~= spaced(title@));
    proof {
        lemma_title_line_parts(title@, width as nat);
        lemma_title_line_len(title@, width as nat);
        lemma_title_line_balanced(title@, width as nat);
    }
    center(whitespaced.as_str(), width, FILL)
}

/// Renders the line that closes a section: exactly `width` fill characters
/// and nothing else.
pub fn render_separator(width: usize) -> (line: String)
    ensures
        line@ == separator_line(width as nat),
        line@.len() == width,
        forall|i: int| 0 <= i < width ==> line@[i] == FILL,
{
    repeat_char(FILL, width)
}

/// A header line is made of five parts in this order: the left fill, a
/// space, the title, a space, the right fill.
pub proof fn lemma_title_line_parts(title: Seq<char>, width: nat)
    ensures
        title_line(title, width) == repeated(FILL, left_fill(title, width)) + seq![' '] + title
            + seq![' '] + repeated(FILL, right_fill(title, width)),
{
    assert(spaced(title).len() == title.len() + 2);
    assert(title_line(title, width) =~= repeated(FILL, left_fill(title, width)) + seq![' ']
        + title + seq![' '] + repeated(FILL, right_fill(title, width)));
}

/// A header line is never shorter than the width asked for. It has exactly
/// that width where the spaced title fits, and the spaced title's length
/// where it does not.
pub proof fn lemma_title_line_len(title: Seq<char>, width: nat)
    ensures
        title_line(title, width).len() >= width,
        title.len() + 2 <= width ==> title_line(title, width).len() == width,
        title.len() + 2 > width ==> title_line(title, width) == spaced(title),
{
    assert(spaced(title).len() == title.len() + 2);
    if title.len() + 2 > width {
        assert(title_line(title, width) =~= spaced(title));
    }
}

/// The fill is balanced: the right side has as many characters as the left
/// or one more, and exactly as many where the fill splits evenly, which in a
/// line of even width is where the spaced title's length is even too.
pub proof fn lemma_title_line_balanced(title: Seq<char>, width: nat)
    ensures
        right_fill(title, width) == left_fill(title, width) || right_fill(title, width)
            == left_fill(title, width) + 1,
        missing(title.len() + 2, width) % 2 == 0 ==> right_fill(title, width) == left_fill(
            title,
            width,
        ),
        left_fill(title, width) + title.len() + 2 + right_fill(title, width) == title_line(
            title,
            width,
        ).len(),
{
    assert(spaced(title).len() == title.len() + 2);
}

/// The title stands in its header line unbroken, directly behind the left
/// fill and one space, and directly in front of one space and the right
/// fill. Every character outside that stretch is the fill character.
pub proof fn lemma_title_line_holds_title(title: Seq<char>, width: nat)
    ensures
        ({
            let line = title_line(title, width);
            let start: int = left_fill(title, width) as int + 1;
            &&& start + title.len() < line.len()
            &&& line.subrange(start, start + title.len()) == title
            &&& line[start - 1] == ' '
            &&& line[start + title.len()] == ' '
            &&& forall|i: int| 0 <= i < start - 1 ==> line[i] == FILL
            &&& forall|i: int| start + title.len() < i < line.len() ==> line[i] == FILL
        }),
{
    lemma_title_line_parts(title, width);
    let line = title_line(title, width);
    let start: int = left_fill(title, width) as int + 1;
    assert(line.subrange(start, start + title.len()) =~= title);
}

/// A separator has exactly `width` characters, each of them the fill
/// character.
pub proof fn lemma_separator_line_fill(width: nat)
    ensures
        separator_line(width).len() == width,
        forall|i: int| 0 <= i < width ==> separator_line(width)[i] == FILL,
{
}

} // verus!
