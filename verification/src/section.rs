//! Sections and the section runner.
//!
//! A section is a title and an ordered list of routines. Running it yields
//! the actions that make up its part of the report: the banner, one call per
//! routine in the order given, the separator, and a blank line.

use vstd::prelude::*;
use crate::banner::{render_separator, render_title, separator_line, title_line};

verus! {

/// The demonstrations that a report can call. A routine takes nothing and
/// returns nothing to the runner; all it does is write to the console.
#[derive(Clone, Copy, Debug, PartialEq, Eq, Structural)]
pub enum Routine {
    Hello,
    RustaceanGreeting,
    Comments,
    FormattedPrint,
    FormattedPrintActivity,
    Debug1,
    Debug2,
    Display1,
    Display2,
    DisplayActivity,
    TestcaseList,
    TestcaseListActivity,
    Formatting,
    Intro,
    Literals,
    Tuples,
    TuplesActivity,
    ArraysSlices,
}

/// A named group of routines that share a banner.
#[derive(Debug, PartialEq, Eq)]
pub struct Section {
    pub title: String,
    pub routines: Vec<Routine>,
}

/// What a section is, as plain values.
pub ghost struct SectionView {
    pub title: Seq<char>,
    pub routines: Seq<Routine>,
}

impl View for Section {
    type V = SectionView;

    open spec fn view(&self) -> SectionView {
        SectionView { title: self.title@, routines: self.routines@ }
    }
}

/// One thing for the caller to do: write a line to the console, or call a
/// routine and let it write.
#[derive(Debug, PartialEq, Eq)]
pub enum Action {
    Print(String),
    Call(Routine),
}

/// What an action is, as plain values.
pub ghost enum Step {
    Print(Seq<char>),
    Call(Routine),
}

impl View for Action {
    type V = Step;

    open spec fn view(&self) -> Step {
        match self {
            Action::Print(line) => Step::Print(line@),
            Action::Call(routine) => Step::Call(*routine),
        }
    }
}

/// The steps that a list of actions stands for, in the same order.
pub open spec fn steps(actions: Seq<Action>) -> Seq<Step> {
    Seq::new(actions.len(), |i: int| actions[i]@)
}

/// One call for each routine, in the order given.
pub open spec fn calls(routines: Seq<Routine>) -> Seq<Step> {
    Seq::new(routines.len(), |i: int| Step::Call(routines[i]))
}

/// The lines that close a section: the separator and a blank line.
pub open spec fn closing(width: nat) -> Seq<Step> {
    seq![Step::Print(separator_line(width)), Step::Print(Seq::empty())]
}

/// A section's part of the report: its banner, its calls, its closing.
pub open spec fn section_script(section: SectionView, width: nat) -> Seq<Step> {
    seq![Step::Print(title_line(section.title, width))] + calls(section.routines) + closing(
        width,
    )
}

impl Section {
    /// A section with the given title and routines.
    pub fn new(title: &str, routines: Vec<Routine>) -> (section: Section)
        ensures
            section@ == (SectionView { title: title@, routines: routines@ }),
    {
        Section { title: title.to_owned(), routines }
    }
}

/// What is performed of a section's part when the routine with index
/// `failed` fails: the banner and the calls up to that routine's own. The
/// routines after it are not called and the section is not closed. Where
/// the section has no routine with that index, nothing fails.
pub open spec fn script_until_failure(section: SectionView, width: nat, failed: nat) -> Seq<
    Step,
> {
    if failed < section.routines.len() {
        seq![Step::Print(title_line(section.title, width))] + calls(
            section.routines.take(failed as int + 1),
        )
    } else {
        section_script(section, width)
    }
}

fn push_calls(out: &mut Vec<Action>, routines: &Vec<Routine>, count: usize)
    requires
        count <= routines@.len(),
    ensures
        steps(final(out)@) == steps(old(out)@) + calls(routines@.take(count as int)),
{
    let ghost before = steps(out@);
    let mut next: usize = 0;
    assert(steps(out@) =~= before + calls(routines@.take(0)));
    while next < count
        invariant
            next <= count <= routines@.len(),
            steps(out@) == before + calls(routines@.take(next as int)),
        decreases count - next,
    {
        let ghost so_far = steps(out@);
        let routine = routines[next];
        out.push(Action::Call(routine));
        assert(steps(out@) =~= so_far.push(Step::Call(routine)));
        assert(calls(routines@.take(next + 1)) =~= calls(routines@.take(next as int)).push(
            Step::Call(routine),
        ));
        next += 1;
    }
}

/// Adds a section's part of the report to the end of `out`.
pub fn push_section(out: &mut Vec<Action>, section: &Section, width: usize)
    ensures
        steps(final(out)@) == steps(old(out)@) + section_script(section@, width as nat),
        final(out)@.len() == old(out)@.len() + section@.routines.len() + 3,
{
    let ghost before = steps(out@);
    out.push(Action::Print(render_title(section.title.as_str(), width)));
    push_calls(out, &section.routines, section.routines.len());
    assert(section@.routines.take(section@.routines.len() as int) =~= section@.routines);
    let ghost called = steps(out@);
    out.push(Action::Print(render_separator(width)));
    out.push(Action::Print(String::new()));
    assert(steps(out@) =~= called + closing(width as nat));
    assert(steps(out@) =~= before + section_script(section@, width as nat));
    assert(final(out)@.len() == steps(final(out)@).len());
    assert(old(out)@.len() == steps(old(out)@).len());
}

/// Runs one section: the banner, each routine strictly in the order in
/// which the section lists them, then the separator and a blank line. The
/// result is that sequence of actions, for the caller to perform from first
/// to last. A section without routines still has its banner and its
/// closing, with nothing between them.
pub fn run_section(section: &Section, width: usize) -> (actions: Vec<Action>)
    ensures
        steps(actions@) == section_script(section@, width as nat),
        actions@.len() == section@.routines.len() + 3,
        section@.routines.len() == 0 ==> steps(actions@) == seq![
            Step::Print(title_line(section@.title, width as nat)),
            Step::Print(separator_line(width as nat)),
            Step::Print(Seq::<char>::empty()),
        ],
{
    let mut actions: Vec<Action> = Vec::new();
    push_section(&mut actions, section, width);
    assert(steps(actions@) =~= section_script(section@, width as nat));
    proof {
        if section@.routines.len() == 0 {
            assert(section@.routines =~= Seq::<Routine>::empty());
            lemma_empty_section_script(section@.title, width as nat);
        }
    }
    actions
}

/// The part of a section that is performed when the routine with index
/// `failed` fails. A failure is not recovered from: the run of the section
/// ends with the call that failed.
pub fn run_section_until_failure(section: &Section, width: usize, failed: usize) -> (actions:
    Vec<Action>)
    ensures
        steps(actions@) == script_until_failure(section@, width as nat, failed as nat),
{
    if failed < section.routines.len() {
        let mut actions: Vec<Action> = Vec::new();
        actions.push(Action::Print(render_title(section.title.as_str(), width)));
        assert(steps(actions@) =~= seq![Step::Print(title_line(section@.title, width as nat))]);
        push_calls(&mut actions, &section.routines, failed + 1);
        actions
    } else {
        run_section(section, width)
    }
}

/// What is performed up to a failure is the beginning of the section's
/// part, ends with the call that failed, and leaves the section unclosed.
pub proof fn lemma_failure_cuts_section(section: SectionView, width: nat, failed: nat)
    requires
        failed < section.routines.len(),
    ensures
        ({
            let cut = script_until_failure(section, width, failed);
            &&& cut.len() == failed + 2
            &&& cut.is_prefix_of(section_script(section, width))
            &&& cut.last() == Step::Call(section.routines[failed as int])
            &&& cut.len() < section_script(section, width).len()
        }),
{
    let cut = script_until_failure(section, width, failed);
    assert(cut =~= section_script(section, width).subrange(0, cut.len() as int));
}

/// A section's part of the report has three actions more than the section
/// has routines, and the routines' calls stand between the banner and the
/// closing in the order in which the section lists them.
pub proof fn lemma_section_script_shape(section: SectionView, width: nat)
    ensures
        ({
            let script = section_script(section, width);
            let count: int = section.routines.len() as int;
            &&& script.len() == count + 3
            &&& script[0] == Step::Print(title_line(section.title, width))
            &&& forall|i: int| 0 <= i < count ==> script[i + 1] == Step::Call(section.routines[i])
            &&& script[count + 1] == Step::Print(separator_line(width))
            &&& script[count + 2] == Step::Print(Seq::<char>::empty())
        }),
{
}

/// A section without routines still has its banner and its closing, and
/// nothing stands between them.
pub proof fn lemma_empty_section_script(title: Seq<char>, width: nat)
    ensures
        section_script(SectionView { title, routines: Seq::empty() }, width) == seq![
            Step::Print(title_line(title, width)),
            Step::Print(separator_line(width)),
            Step::Print(Seq::<char>::empty()),
        ],
{
    assert(section_script(SectionView { title, routines: Seq::empty() }, width) =~= seq![
        Step::Print(title_line(title, width)),
        Step::Print(separator_line(width)),
        Step::Print(Seq::<char>::empty()),
    ]);
}

} // verus!
