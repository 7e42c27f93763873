//! Text for debugging: what `{:?}` and `{:#?}` write for a few small types.

use vstd::prelude::*;
use vstd::string::*;
use crate::number::{decimal, push_decimal};
use crate::text::{debug_quote, debug_quoted, lines};

verus! {

/// A type without any text form.
pub struct UnPrintable(pub i32);

/// A type whose debugging text is derived.
#[derive(Debug)]
pub struct DebugPrintable(pub i32);

/// A single number.
#[derive(Debug)]
pub struct Structure(pub i32);

/// A `Structure` inside another type.
#[derive(Debug)]
pub struct Deep(pub Structure);

/// A name and an age.
#[derive(Debug)]
pub struct Person<'a> {
    pub name: &'a str,
    pub age: u8,
}

/// The debugging text of a `Structure`: its name and its number in round
/// brackets.
pub open spec fn structure_debug(value: int) -> Seq<char> {
    "Structure("@ + decimal(value) + ")"@
}

/// The debugging text of a `Deep`: its name and, in round brackets, the
/// debugging text of what it holds.
pub open spec fn deep_debug(value: int) -> Seq<char> {
    "Deep("@ + structure_debug(value) + ")"@
}

/// The pretty debugging text of a `Person`, given its name in quotes: one
/// field to a line, each indented by four spaces and closed by a comma.
pub open spec fn person_pretty(quoted_name: Seq<char>, age: int) -> Seq<char> {
    "Person {\n    name: "@ + quoted_name + ",\n    age: "@ + decimal(age) + ",\n}"@
}

/// The sentence that names an actor, given the three names in quotes.
pub open spec fn actor_sentence(first: Seq<char>, last: Seq<char>, role: Seq<char>) -> Seq<
    char,
> {
    first + " "@ + last + " is the "@ + role + " name."@
}

/// What `debug_2` writes, one entry for each write.
pub open spec fn debug_2_lines() -> Seq<Seq<char>> {
    seq![
        "This `"@ + structure_debug(3) + "` is a struct"@,
        decimal(12) + " months in a year."@,
        actor_sentence(
            debug_quoted("Christian"@),
            debug_quoted("Slater"@),
            debug_quoted("actor's"@),
        ),
        "Now "@ + deep_debug(7) + " will print!"@,
        person_pretty(debug_quoted("Peter"@), 27),
    ]
}

impl Structure {
    /// What `{:?}` writes for this value.
    pub fn debug_text(&self) -> (text: String)
        ensures
            text@ == structure_debug(self.0 as int),
    {
        let mut text = "Structure(".to_owned();
        push_decimal(&mut text, self.0 as i64);
        text.append(")");
        text
    }
}

impl Deep {
    /// What `{:?}` writes for this value.
    pub fn debug_text(&self) -> (text: String)
        ensures
            text@ == deep_debug(self.0.0 as int),
    {
        let mut text = "Deep(".to_owned();
        let inner = self.0.debug_text();
        text.append(inner.as_str());
        text.append(")");
        text
    }
}

/// Lays out the pretty debugging text of a person from the person's name in
/// quotes and the age.
pub fn pretty_person(quoted_name: &str, age: u8) -> (text: String)
    ensures
        text@ == person_pretty(quoted_name@, age as int),
{
    let mut text = "Person {\n    name: ".to_owned();
    text.append(quoted_name);
    text.append(",\n    age: ");
    push_decimal(&mut text, age as i64);
    text.append(",\n}");
    text
}

/// Builds the sentence that names an actor from the three names in quotes.
pub fn actor_line(first: &str, last: &str, role: &str) -> (text: String)
    ensures
        text@ == actor_sentence(first@, last@, role@),
{
    let mut text = first.to_owned();
    text.append(" ");
    text.append(last);
    text.append(" is the ");
    text.append(role);
    text.append(" name.");
    text
}

impl<'a> Person<'a> {
    /// What `{:#?}` writes for this value.
    pub fn pretty_debug_text(&self) -> (text: String)
        ensures
            text@ == person_pretty(debug_quoted(self.name@), self.age as int),
    {
        let quoted = debug_quote(self.name);
        pretty_person(quoted.as_str(), self.age)
    }
}

/// Shows two types, one without a text form and one whose debugging text is
/// derived. It writes nothing.
pub fn debug_1() -> (written: Vec<String>)
    ensures
        written@.len() == 0,
{
    let _hidden = UnPrintable(0);
    let _shown = DebugPrintable(0);
    Vec::new()
}

/// Shows the debugging text of a number, of strings, of nested types and of
/// a type with named fields. The result holds what it writes, one entry for
/// each write, in order.
pub fn debug_2() -> (written: Vec<String>)
    ensures
        lines(written@) == debug_2_lines(),
{
    let mut written: Vec<String> = Vec::new();

    let mut first = "This `".to_owned();
    first.append(Structure(3).debug_text().as_str());
    first.append("` is a struct");
    written.push(first);

    let mut second = String::new();
    push_decimal(&mut second, 12);
    second.append(" months in a year.");
    assert(second@ =~= decimal(12) + " months in a year."@);
    written.push(second);

    let christian = debug_quote("Christian");
    let slater = debug_quote("Slater");
    let actor = debug_quote("actor's");
    written.push(actor_line(christian.as_str(), slater.as_str(), actor.as_str()));

    let mut fourth = "Now ".to_owned();
    fourth.append(Deep(Structure(7)).debug_text().as_str());
    fourth.append(" will print!");
    written.push(fourth);

    let name = "Peter";
    let age: u8 = 27;
    let peter = Person { name, age };
    written.push(peter.pretty_debug_text());

    assert(lines(written@) =~= debug_2_lines());
    written
}

} // verus!
