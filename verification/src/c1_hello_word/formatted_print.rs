//! Formatted text: arguments by position and by name, another base, and
//! padding to a width.

use vstd::prelude::*;
use vstd::string::*;
use crate::number::{binary, binary_text, decimal, decimal_text, push_decimal};
use crate::text::{lines, pad_start, padded_start};

verus! {

/// What `formatted_print` writes, one entry for each line.
pub open spec fn formatted_print_lines() -> Seq<Seq<char>> {
    seq![
        decimal(31) + " days"@,
        decimal(31) + " days in i64"@,
        "the quick brown fox"@ + " "@ + "jumps over"@ + " "@ + "the lazy dog"@,
        decimal(1) + " if "@ + binary(2) + " people kwon binary, the other half doesn't"@,
        padded_start(decimal(1), 6, ' '),
        padded_start(decimal(1), 6, '0'),
        "My name is "@ + "Bond"@ + ", "@ + "James"@ + " "@ + "Bond"@,
    ]
}

/// Puts a subject, a verb and an object into a sentence, with one space
/// between each two.
pub fn sentence(subject: &str, verb: &str, object: &str) -> (text: String)
    ensures
        text@ == subject@ + " "@ + verb@ + " "@ + object@,
{
    let mut text = subject.to_owned();
    text.append(" ");
    text.append(verb);
    text.append(" ");
    text.append(object);
    text
}

/// Introduces someone by surname, then by first name and surname.
pub fn introduction(first: &str, last: &str) -> (text: String)
    ensures
        text@ == "My name is "@ + last@ + ", "@ + first@ + " "@ + last@,
{
    let mut text = "My name is ".to_owned();
    text.append(last);
    text.append(", ");
    text.append(first);
    text.append(" ");
    text.append(last);
    text
}

/// Shows numbers and strings put into text: in order, by name, in binary,
/// and moved to the right of a field filled with spaces or with zeros.
pub fn formatted_print() -> (written: Vec<String>)
    ensures
        lines(written@) == formatted_print_lines(),
{
    let mut written: Vec<String> = Vec::new();

    let mut days = String::new();
    push_decimal(&mut days, 31);
    days.append(" days");
    assert(days@ =~= decimal(31) + " days"@);
    written.push(days);

    let mut long_days = String::new();
    push_decimal(&mut long_days, 31i64);
    long_days.append(" days in i64");
    assert(long_days@ =~= decimal(31) + " days in i64"@);
    written.push(long_days);

    written.push(sentence("the quick brown fox", "jumps over", "the lazy dog"));

    let mut people = String::new();
    push_decimal(&mut people, 1);
    people.append(" if ");
    people.append(binary_text(2).as_str());
    people.append(" people kwon binary, the other half doesn't");
    assert(people@ =~= decimal(1) + " if "@ + binary(2)
        + " people kwon binary, the other half doesn't"@);
    written.push(people);

    let number = decimal_text(1);
    let width: usize = 6;
    written.push(pad_start(number.as_str(), width, ' '));
    written.push(pad_start(number.as_str(), width, '0'));

    written.push(introduction("James", "Bond"));

    assert(lines(written@) =~= formatted_print_lines());
    written
}

} // verus!
