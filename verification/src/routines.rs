//! From a routine to what it writes, for the routines whose text depends on
//! nothing but whole numbers and strings.

use vstd::prelude::*;
use crate::c1_hello_word::debug::{debug_1, debug_2, debug_2_lines};
use crate::c1_hello_word::display::{
    display_1,
    display_1_lines,
    testcase_list,
    testcase_list_activity,
    testcase_list_activity_lines,
    testcase_list_lines,
};
use crate::c1_hello_word::formatted_print::{formatted_print, formatted_print_lines};
use crate::c2_primitives::intro::intro;
use crate::section::Routine;
use crate::text::lines;

verus! {

/// What a routine writes, one entry for each write, where that is settled
/// here. It is not for a routine that writes numbers with a fraction, nor
/// for one whose text is kept elsewhere.
pub open spec fn routine_lines(routine: Routine) -> Option<Seq<Seq<char>>> {
    match routine {
        Routine::FormattedPrint => Some(formatted_print_lines()),
        Routine::Debug1 => Some(Seq::empty()),
        Routine::Debug2 => Some(debug_2_lines()),
        Routine::Display1 => Some(display_1_lines()),
        Routine::TestcaseList => Some(testcase_list_lines()),
        Routine::TestcaseListActivity => Some(testcase_list_activity_lines()),
        Routine::Intro => Some(Seq::empty()),
        _ => None,
    }
}

/// Calls the routine, where it is one of those above, and returns what it
/// writes. For every other routine the result is `None`, and the call is
/// the caller's to make.
pub fn written_by(routine: Routine) -> (written: Option<Vec<String>>)
    ensures
        match written {
            Some(texts) => routine_lines(routine) == Some(lines(texts@)),
            None => routine_lines(routine).is_none(),
        },
{
    match routine {
        Routine::FormattedPrint => Some(formatted_print()),
        Routine::Debug1 => {
            let texts = debug_1();
            assert(lines(texts@) =~= Seq::<Seq<char>>::empty());
            Some(texts)
        },
        Routine::Debug2 => Some(debug_2()),
        Routine::Display1 => Some(display_1()),
        Routine::TestcaseList => Some(testcase_list()),
        Routine::TestcaseListActivity => Some(testcase_list_activity()),
        Routine::Intro => {
            let texts = intro();
            assert(lines(texts@) =~= Seq::<Seq<char>>::empty());
            Some(texts)
        },
        _ => None,
    }
}

} // verus!
