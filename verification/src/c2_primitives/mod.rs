//! The second chapter: primitive types. Its report opens with a routine
//! that has no section of its own, and has three sections after it.

pub mod intro;

use vstd::prelude::*;
use crate::banner::TITLE_MAX_SIZE;
use crate::program::{program_script, Program};
use crate::section::{steps, Action, Routine, Section, SectionView, Step};

verus! {

/// The chapter's sections, in the order in which they run.
pub open spec fn report() -> Seq<SectionView> {
    seq![
        SectionView { title: "Literals and Operators"@, routines: seq![Routine::Literals] },
        SectionView {
            title: "Tuples"@,
            routines: seq![Routine::Tuples, Routine::TuplesActivity],
        },
        SectionView { title: "Arrays and slices"@, routines: seq![Routine::ArraysSlices] },
    ]
}

/// The chapter's whole report: the introduction's call, then the sections.
pub open spec fn script() -> Seq<Step> {
    seq![Step::Call(Routine::Intro)] + program_script(report(), TITLE_MAX_SIZE as nat)
}

/// The chapter's sections as a program, with banners of the standard width.
pub fn program() -> (program: Program)
    ensures
        program@ == report(),
        program.width == TITLE_MAX_SIZE,
{
    let mut sections: Vec<Section> = Vec::new();
    sections.push(Section::new("Literals and Operators", vec![Routine::Literals]));
    sections.push(Section::new("Tuples", vec![Routine::Tuples, Routine::TuplesActivity]));
    sections.push(Section::new("Arrays and slices", vec![Routine::ArraysSlices]));
    let program = Program { sections, width: TITLE_MAX_SIZE };
    assert(program@ =~= report()) by {
        assert forall|i: int| 0 <= i < 3 implies program@[i] == report()[i] by {
            assert(program@[i].routines =~= report()[i].routines);
        }
    }
    program
}

/// Runs the chapter: the introduction first, without a banner, then every
/// section once, in the order above. The result is the whole report as a
/// sequence of actions, for the caller to perform from first to last.
pub fn run() -> (actions: Vec<Action>)
    ensures
        steps(actions@) == script(),
{
    let mut actions: Vec<Action> = Vec::new();
    actions.push(Action::Call(Routine::Intro));
    assert(steps(actions@) =~= seq![Step::Call(Routine::Intro)]);
    program().push_script(&mut actions);
    actions
}

} // verus!
