//! The first chapter: writing text. Its report has six sections.

pub mod debug;
pub mod display;
pub mod formatted_print;

use vstd::prelude::*;
use crate::banner::TITLE_MAX_SIZE;
use crate::program::{program_script, Program};
use crate::section::{steps, Action, Routine, Section, SectionView};

verus! {

/// The chapter's sections, in the order in which they run.
pub open spec fn report() -> Seq<SectionView> {
    seq![
        SectionView {
            title: "Hello World"@,
            routines: seq![Routine::Hello, Routine::RustaceanGreeting],
        },
        SectionView { title: "Comments"@, routines: seq![Routine::Comments] },
        SectionView {
            title: "Formatted Print"@,
            routines: seq![Routine::FormattedPrint, Routine::FormattedPrintActivity],
        },
        SectionView { title: "Debug"@, routines: seq![Routine::Debug1, Routine::Debug2] },
        SectionView {
            title: "Display"@,
            routines: seq![
                Routine::Display1,
                Routine::Display2,
                Routine::DisplayActivity,
                Routine::TestcaseList,
                Routine::TestcaseListActivity,
            ],
        },
        SectionView { title: "Formatting"@, routines: seq![Routine::Formatting] },
    ]
}

/// The chapter as a program: its sections, with banners of the standard
/// width.
pub fn program() -> (program: Program)
    ensures
        program@ == report(),
        program.width == TITLE_MAX_SIZE,
{
    let mut sections: Vec<Section> = Vec::new();
    sections.push(Section::new("Hello World", vec![Routine::Hello, Routine::RustaceanGreeting]));
    sections.push(Section::new("Comments", vec![Routine::Comments]));
    sections.push(
        Section::new(
            "Formatted Print",
            vec![Routine::FormattedPrint, Routine::FormattedPrintActivity],
        ),
    );
    sections.push(Section::new("Debug", vec![Routine::Debug1, Routine::Debug2]));
    sections.push(
        Section::new(
            "Display",
            vec![
                Routine::Display1,
                Routine::Display2,
                Routine::DisplayActivity,
                Routine::TestcaseList,
                Routine::TestcaseListActivity,
            ],
        ),
    );
    sections.push(Section::new("Formatting", vec![Routine::Formatting]));
    let program = Program { sections, width: TITLE_MAX_SIZE };
    assert(program@ =~= report()) by {
        assert forall|i: int| 0 <= i < 6 implies program@[i] == report()[i] by {
            assert(program@[i].routines =~= report()[i].routines);
        }
    }
    program
}

/// Runs the chapter: every section once, in the order above. The result is
/// the whole report as a sequence of actions, for the caller to perform
/// from first to last. Nothing is read and nothing is kept, so every call
/// gives the same report.
pub fn run() -> (actions: Vec<Action>)
    ensures
        steps(actions@) == program_script(report(), TITLE_MAX_SIZE as nat),
{
    program().run()
}

} // verus!
