//! The program driver: an ordered list of sections, run once from top to
//! bottom.
//!
//! A run is a line without branches: it has not started, it is in one of the
//! sections, or it is done. The driver decides what comes next; the caller
//! performs it and says how it went.

use vstd::prelude::*;
use crate::banner::title_line;
use crate::section::{push_section, section_script, steps, Action, Section, SectionView, Step};

verus! {

/// The sections of a report in the order in which they run, and the width of
/// their banners.
#[derive(Debug)]
pub struct Program {
    pub sections: Vec<Section>,
    pub width: usize,
}

/// What a list of sections is, as plain values.
pub open spec fn section_views(sections: Seq<Section>) -> Seq<SectionView> {
    Seq::new(sections.len(), |i: int| sections[i]@)
}

/// The report of the first `count` sections: their parts one after the
/// other.
pub open spec fn script_upto(sections: Seq<SectionView>, width: nat, count: nat) -> Seq<Step>
    decreases count,
{
    if count == 0 || count > sections.len() {
        Seq::empty()
    } else {
        script_upto(sections, width, (count - 1) as nat) + section_script(
            sections[count - 1],
            width,
        )
    }
}

/// The whole report: the part of every section, in the sections' order.
pub open spec fn program_script(sections: Seq<SectionView>, width: nat) -> Seq<Step> {
    script_upto(sections, width, sections.len())
}

/// Where a run stands.
#[derive(Clone, Copy, Debug, PartialEq, Eq, Structural)]
pub enum RunState {
    NotStarted,
    /// In the section with this index.
    Running(usize),
    Done,
}

/// How the actions of the state that a run is in went.
#[derive(Clone, Copy, Debug, PartialEq, Eq, Structural)]
pub enum Outcome {
    Completed,
    /// A routine failed; what was left of its section was not performed.
    Failed,
}

/// The state that follows `state` in a run over `count` sections. A run
/// starts in the first section and goes on to the next one after each that
/// completed. It is done after the last section, after a failure, and at
/// once where there is no section at all. Before the start nothing has been
/// performed, so the outcome does not count there.
pub open spec fn next_state(state: RunState, outcome: Outcome, count: nat) -> RunState {
    match state {
        RunState::NotStarted => if count == 0 {
            RunState::Done
        } else {
            RunState::Running(0)
        },
        RunState::Running(index) => if outcome == Outcome::Failed || index + 1 >= count {
            RunState::Done
        } else {
            RunState::Running((index + 1) as usize)
        },
        RunState::Done => RunState::Done,
    }
}

/// What is to be performed in `state`: the part of the section that the run
/// is in, and nothing before the start or when it is done.
pub open spec fn state_script(sections: Seq<SectionView>, width: nat, state: RunState) -> Seq<
    Step,
> {
    match state {
        RunState::Running(index) => if index < sections.len() {
            section_script(sections[index as int], width)
        } else {
            Seq::empty()
        },
        _ => Seq::empty(),
    }
}

/// The state of a run after `count` transitions, each section having
/// completed.
pub open spec fn state_after(sections: nat, count: nat) -> RunState
    decreases count,
{
    if count == 0 {
        RunState::NotStarted
    } else {
        next_state(state_after(sections, (count - 1) as nat), Outcome::Completed, sections)
    }
}

/// All that was to be performed in the states that a run went through in its
/// first `count` transitions, each section having completed.
pub open spec fn performed_after(sections: Seq<SectionView>, width: nat, count: nat) -> Seq<Step>
    decreases count,
{
    if count == 0 {
        Seq::empty()
    } else {
        performed_after(sections, width, (count - 1) as nat) + state_script(
            sections,
            width,
            state_after(sections.len(), count),
        )
    }
}

/// The place of the banner of the section with index `index` in the whole
/// report.
pub open spec fn banner_position(sections: Seq<SectionView>, width: nat, index: nat) -> nat {
    script_upto(sections, width, index).len()
}

impl View for Program {
    type V = Seq<SectionView>;

    open spec fn view(&self) -> Seq<SectionView> {
        section_views(self.sections@)
    }
}

impl Program {
    /// Runs every section once, top to bottom, in the order in which the
    /// program lists them. The result is the whole report as a sequence of
    /// actions, for the caller to perform from first to last.
    pub fn run(&self) -> (actions: Vec<Action>)
        ensures
            steps(actions@) == program_script(self@, self.width as nat),
    {
        let mut actions: Vec<Action> = Vec::new();
        self.push_script(&mut actions);
        assert(steps(actions@) =~= program_script(self@, self.width as nat));
        actions
    }

    /// Adds the whole report to the end of `out`.
    pub fn push_script(&self, out: &mut Vec<Action>)
        ensures
            steps(final(out)@) == steps(old(out)@) + program_script(self@, self.width as nat),
    {
        let ghost before = steps(out@);
        let mut index: usize = 0;
        assert(steps(out@) =~= before + script_upto(self@, self.width as nat, 0));
        while index < self.sections.len()
            invariant
                index <= self.sections.len(),
                steps(out@) == before + script_upto(self@, self.width as nat, index as nat),
            decreases self.sections.len() - index,
        {
            push_section(out, &self.sections[index], self.width);
            index += 1;
            assert(steps(out@) =~= before + script_upto(self@, self.width as nat, index as nat));
        }
    }

    /// Takes a run from one state to the next. The result is the next state
    /// and the actions to perform in it; their outcome is what the caller
    /// hands to the call after this one. After a failure the run is done and
    /// nothing more is to be performed.
    pub fn advance(&self, state: RunState, outcome: Outcome) -> (next: (RunState, Vec<Action>))
        ensures
            next.0 == next_state(state, outcome, self@.len()),
            steps(next.1@) == state_script(self@, self.width as nat, next.0),
    {
        let count = self.sections.len();
        let entered = match state {
            RunState::NotStarted => if count == 0 {
                RunState::Done
            } else {
                RunState::Running(0)
            },
            RunState::Running(index) => {
                let failed = match outcome {
                    Outcome::Failed => true,
                    Outcome::Completed => false,
                };
                if failed || count == 0 || index >= count - 1 {
                    RunState::Done
                } else {
                    RunState::Running(index + 1)
                }
            },
            RunState::Done => RunState::Done,
        };
        let mut actions: Vec<Action> = Vec::new();
        assert(steps(actions@) =~= Seq::<Step>::empty());
        match entered {
            RunState::Running(index) => {
                push_section(&mut actions, &self.sections[index], self.width);
                assert(steps(actions@) =~= section_script(self@[index as int], self.width as nat));
            },
            _ => {},
        }
        (entered, actions)
    }
}

/// The report of the first sections is the beginning of the report of more
/// of them.
pub proof fn lemma_script_upto_prefix(
    sections: Seq<SectionView>,
    width: nat,
    fewer: nat,
    more: nat,
)
    requires
        fewer <= more <= sections.len(),
    ensures
        script_upto(sections, width, fewer).is_prefix_of(script_upto(sections, width, more)),
    decreases more,
{
    if fewer < more {
        lemma_script_upto_prefix(sections, width, fewer, (more - 1) as nat);
    }
}

/// The banners stand in the report in the sections' order: the banner of
/// each section is where the report of the sections before it ends, the
/// section's own part follows it there, and the banner of the section after
/// it comes later by the section's number of routines and three.
pub proof fn lemma_banners_in_order(sections: Seq<SectionView>, width: nat, index: nat)
    requires
        index < sections.len(),
    ensures
        ({
            let script = program_script(sections, width);
            let at: int = banner_position(sections, width, index) as int;
            let part = section_script(sections[index as int], width);
            &&& at + part.len() <= script.len()
            &&& script[at] == Step::Print(title_line(sections[index as int].title, width))
            &&& script.subrange(at, at + part.len()) == part
            &&& banner_position(sections, width, index + 1) == at + sections[index as int].routines.len()
                + 3
        }),
{
    let script = program_script(sections, width);
    let at: int = banner_position(sections, width, index) as int;
    let part = section_script(sections[index as int], width);
    let through = script_upto(sections, width, index + 1);
    assert(through == script_upto(sections, width, index) + part);
    lemma_script_upto_prefix(sections, width, index + 1, sections.len());
    assert(through == script.subrange(0, through.len() as int));
    assert forall|j: int| 0 <= j < part.len() implies script[at + j] == part[j] by {
        assert(script[at + j] == through[at + j]);
    }
    assert(script.subrange(at, at + part.len()) =~= part);
    assert(script[at] == part[0]);
}

/// A run that nothing fails in goes through the sections in their order and
/// is then done: after as many transitions as there are sections and one
/// more, what was performed is the whole report, and it stays so.
pub proof fn lemma_run_performs_script(sections: Seq<SectionView>, width: nat, count: nat)
    requires
        sections.len() <= usize::MAX,
    ensures
        0 < count <= sections.len() ==> state_after(sections.len(), count) == RunState::Running(
            (count - 1) as usize,
        ),
        count <= sections.len() ==> performed_after(sections, width, count) == script_upto(
            sections,
            width,
            count,
        ),
        count > sections.len() ==> state_after(sections.len(), count) == RunState::Done,
        count > sections.len() ==> performed_after(sections, width, count) == program_script(
            sections,
            width,
        ),
    decreases count,
{
    if count > 0 {
        lemma_run_performs_script(sections, width, (count - 1) as nat);
        if count <= sections.len() {
            assert(performed_after(sections, width, count) =~= script_upto(
                sections,
                width,
                count,
            ));
        } else {
            assert(performed_after(sections, width, count) =~= program_script(sections, width));
        }
    }
}

/// A failure ends the run wherever it stands: the next state is done, and
/// nothing is to be performed in it.
pub proof fn lemma_failure_ends_run(sections: Seq<SectionView>, width: nat, index: usize)
    ensures
        next_state(RunState::Running(index), Outcome::Failed, sections.len()) == RunState::Done,
        state_script(sections, width, RunState::Done) == Seq::<Step>::empty(),
{
}

/// Running a program is free of state: two runs of the same sections give
/// the same report, and one after the other they give that report twice.
pub proof fn lemma_run_repeats(first: Seq<Step>, second: Seq<Step>, sections: Seq<SectionView>, width: nat)
    requires
        first == program_script(sections, width),
        second == program_script(sections, width),
    ensures
        first == second,
        first + second == program_script(sections, width) + program_script(sections, width),
{
}

} // verus!
