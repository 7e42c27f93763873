//! Text for readers: what `{}` writes for a few small types, each of which
//! decides on its own form.

use vstd::prelude::*;
use vstd::string::*;
use crate::number::{decimal, push_decimal, push_unsigned};
use crate::text::lines;

verus! {

/// A single number, written as the number alone.
#[derive(Debug)]
pub struct Structure(pub i32);

/// Two numbers, written with a comma between them.
#[derive(Debug)]
pub struct MinMax(pub i64, pub i64);

/// A list of numbers, written in square brackets with commas between them.
#[derive(Debug)]
pub struct List(pub Vec<i32>);

/// The text of a `MinMax` for readers.
pub open spec fn min_max_display(low: int, high: int) -> Seq<char> {
    decimal(low) + ", "@ + decimal(high)
}

/// The debugging text of a `MinMax`.
pub open spec fn min_max_debug(low: int, high: int) -> Seq<char> {
    "MinMax("@ + decimal(low) + ", "@ + decimal(high) + ")"@
}

/// The text of the item at `index`: the number itself, with its index and a
/// colon in front of it where `indexed` is set.
pub open spec fn item_text(values: Seq<i32>, index: int, indexed: bool) -> Seq<char> {
    if indexed {
        decimal(index) + ": "@ + decimal(values[index] as int)
    } else {
        decimal(values[index] as int)
    }
}

/// The texts of the first `count` items with a comma and a space between
/// each two of them.
pub open spec fn items_text(values: Seq<i32>, count: nat, indexed: bool) -> Seq<char>
    decreases count,
{
    if count == 0 {
        Seq::empty()
    } else if count == 1 {
        item_text(values, 0, indexed)
    } else {
        items_text(values, (count - 1) as nat, indexed) + ", "@ + item_text(
            values,
            count - 1,
            indexed,
        )
    }
}

/// The text of a list: its items between square brackets.
pub open spec fn list_text(values: Seq<i32>, indexed: bool) -> Seq<char> {
    "["@ + items_text(values, values.len(), indexed) + "]"@
}

/// What `display_1` writes.
pub open spec fn display_1_lines() -> Seq<Seq<char>> {
    seq!["Now Structure(i32) implementing fmt::Dispaly looks like this: "@ + decimal(32)]
}

/// What `testcase_list` writes: the list of one, two and three.
pub open spec fn testcase_list_lines() -> Seq<Seq<char>> {
    seq![list_text(seq![1i32, 2i32, 3i32], false)]
}

/// What `testcase_list_activity` writes: the same list with indices.
pub open spec fn testcase_list_activity_lines() -> Seq<Seq<char>> {
    seq![list_text(seq![1i32, 2i32, 3i32], true)]
}

/// What `display_2` writes, given the two texts of the point.
pub open spec fn display_2_lines(point_display: Seq<char>, point_debug: Seq<char>) -> Seq<
    Seq<char>,
> {
    seq![
        "Compare structures:"@,
        "Display: "@ + min_max_display(0, 14),
        "Debug: "@ + min_max_debug(0, 14),
        "The big range is "@ + min_max_display(-300, 300) + " and the small is "@
            + min_max_display(-3, 3),
        "Compare points:"@,
        "Display: "@ + point_display,
        "Debug: "@ + point_debug,
    ]
}

impl Structure {
    /// What `{}` writes for this value.
    pub fn display_text(&self) -> (text: String)
        ensures
            text@ == decimal(self.0 as int),
    {
        let mut text = String::new();
        push_decimal(&mut text, self.0 as i64);
        assert(text@ =~= decimal(self.0 as int));
        text
    }
}

impl MinMax {
    /// What `{}` writes for this value.
    pub fn display_text(&self) -> (text: String)
        ensures
            text@ == min_max_display(self.0 as int, self.1 as int),
    {
        let mut text = String::new();
        push_decimal(&mut text, self.0);
        text.append(", ");
        push_decimal(&mut text, self.1);
        assert(text@ =~= min_max_display(self.0 as int, self.1 as int));
        text
    }

    /// What `{:?}` writes for this value.
    pub fn debug_text(&self) -> (text: String)
        ensures
            text@ == min_max_debug(self.0 as int, self.1 as int),
    {
        let mut text = "MinMax(".to_owned();
        push_decimal(&mut text, self.0);
        text.append(", ");
        push_decimal(&mut text, self.1);
        text.append(")");
        text
    }
}

impl List {
    fn text(&self, indexed: bool) -> (text: String)
        ensures
            text@ == list_text(self.0@, indexed),
    {
        let mut text = "[".to_owned();
        let mut count: usize = 0;
        assert(text@ =~= "["@ + items_text(self.0@, 0, indexed));
        while count < self.0.len()
            invariant
                count <= self.0.len(),
                text@ == "["@ + items_text(self.0@, count as nat, indexed),
            decreases self.0.len() - count,
        {
            let ghost before = text@;
            if count != 0 {
                text.append(", ");
            }
            if indexed {
                push_unsigned(&mut text, count as u64);
                text.append(": ");
            }
            push_decimal(&mut text, self.0[count] as i64);
            assert(text@ =~= "["@ + items_text(self.0@, (count + 1) as nat, indexed)) by {
                let item = item_text(self.0@, count as int, indexed);
                if count == 0 {
                    assert(text@ =~= before + item);
                } else {
                    assert(text@ =~= before + ", "@ + item);
                }
            }
            count += 1;
        }
        text.append("]");
        text
    }

    /// What `{}` writes for this list: the numbers in square brackets, a
    /// comma and a space between each two.
    pub fn display_text(&self) -> (text: String)
        ensures
            text@ == list_text(self.0@, false),
    {
        self.text(false)
    }

    /// The same with each number's index and a colon in front of it.
    pub fn indexed_text(&self) -> (text: String)
        ensures
            text@ == list_text(self.0@, true),
    {
        self.text(true)
    }
}

/// Shows a type that writes itself as its number alone.
pub fn display_1() -> (written: Vec<String>)
    ensures
        lines(written@) == display_1_lines(),
{
    let mut written: Vec<String> = Vec::new();
    let mut line = "Now Structure(i32) implementing fmt::Dispaly looks like this: ".to_owned();
    line.append(Structure(32).display_text().as_str());
    written.push(line);
    assert(lines(written@) =~= display_1_lines());
    written
}

/// Compares the two text forms of a pair of numbers and of a point. The
/// point's coordinates are not whole numbers, so its two texts come from the
/// caller.
pub fn display_2(point_display: &str, point_debug: &str) -> (written: Vec<String>)
    ensures
        lines(written@) == display_2_lines(point_display@, point_debug@),
{
    let mut written: Vec<String> = Vec::new();
    let minmax = MinMax(0, 14);
    written.push("Compare structures:".to_owned());

    let mut shown = "Display: ".to_owned();
    shown.append(minmax.display_text().as_str());
    written.push(shown);

    let mut debugged = "Debug: ".to_owned();
    debugged.append(minmax.debug_text().as_str());
    written.push(debugged);

    let big_range = MinMax(-300, 300);
    let small_range = MinMax(-3, 3);
    let mut ranges = "The big range is ".to_owned();
    ranges.append(big_range.display_text().as_str());
    ranges.append(" and the small is ");
    ranges.append(small_range.display_text().as_str());
    written.push(ranges);

    written.push("Compare points:".to_owned());

    let mut point_shown = "Display: ".to_owned();
    point_shown.append(point_display);
    written.push(point_shown);

    let mut point_debugged = "Debug: ".to_owned();
    point_debugged.append(point_debug);
    written.push(point_debugged);

    assert(lines(written@) =~= display_2_lines(point_display@, point_debug@));
    written
}

/// Shows a list that writes itself with commas between its numbers.
pub fn testcase_list() -> (written: Vec<String>)
    ensures
        lines(written@) == testcase_list_lines(),
{
    let mut values: Vec<i32> = Vec::new();
    values.push(1);
    values.push(2);
    values.push(3);
    assert(values@ =~= seq![1i32, 2i32, 3i32]);
    let v = List(values);
    let mut written: Vec<String> = Vec::new();
    written.push(v.display_text());
    assert(lines(written@) =~= testcase_list_lines());
    written
}

/// Shows a list that writes each number with its index.
pub fn testcase_list_activity() -> (written: Vec<String>)
    ensures
        lines(written@) == testcase_list_activity_lines(),
{
    let mut values: Vec<i32> = Vec::new();
    values.push(1);
    values.push(2);
    values.push(3);
    assert(values@ =~= seq![1i32, 2i32, 3i32]);
    let v = List(values);
    let mut written: Vec<String> = Vec::new();
    written.push(v.indexed_text());
    assert(lines(written@) =~= testcase_list_activity_lines());
    written
}

} // verus!
