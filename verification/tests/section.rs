use console_report::banner::{render_separator, render_title};
use console_report::section::{
    push_section, run_section, run_section_until_failure, Action, Routine, Section,
};

#[test]
fn section_without_routines_prints_banner_and_closing_only() {
    let section = Section::new("Empty", Vec::new());
    let actions = run_section(&section, 80);
    assert_eq!(
        actions,
        vec![
            Action::Print(render_title("Empty", 80)),
            Action::Print(render_separator(80)),
            Action::Print(String::new()),
        ]
    );
}

#[test]
fn section_new_keeps_title_and_routines() {
    let section = Section::new("Debug", vec![Routine::Debug1, Routine::Debug2]);
    assert_eq!(section.title, "Debug");
    assert_eq!(section.routines, vec![Routine::Debug1, Routine::Debug2]);
}

#[test]
fn section_calls_its_routines_in_the_order_given() {
    let section = Section::new(
        "Display",
        vec![Routine::TestcaseList, Routine::Display1, Routine::Display2, Routine::Display1],
    );
    let actions = run_section(&section, 80);
    assert_eq!(actions.len(), 7);
    assert_eq!(
        actions[0],
        Action::Print(format!("{} Display {}", "-".repeat(35), "-".repeat(36)))
    );
    assert_eq!(actions[1], Action::Call(Routine::TestcaseList));
    assert_eq!(actions[2], Action::Call(Routine::Display1));
    assert_eq!(actions[3], Action::Call(Routine::Display2));
    assert_eq!(actions[4], Action::Call(Routine::Display1));
    assert_eq!(actions[5], Action::Print("-".repeat(80)));
    assert_eq!(actions[6], Action::Print(String::new()));
}

#[test]
fn section_uses_the_width_it_is_given() {
    let section = Section::new("ab", vec![Routine::Hello]);
    let actions = run_section(&section, 10);
    assert_eq!(
        actions,
        vec![
            Action::Print("--- ab ---".to_string()),
            Action::Call(Routine::Hello),
            Action::Print("----------".to_string()),
            Action::Print(String::new()),
        ]
    );
}

#[test]
fn push_section_keeps_what_was_there() {
    let mut actions = vec![Action::Call(Routine::Intro)];
    push_section(&mut actions, &Section::new("ab", Vec::new()), 6);
    assert_eq!(
        actions,
        vec![
            Action::Call(Routine::Intro),
            Action::Print("- ab -".to_string()),
            Action::Print("------".to_string()),
            Action::Print(String::new()),
        ]
    );
}

#[test]
fn failure_of_a_routine_ends_the_section_there() {
    let section = Section::new(
        "ab",
        vec![Routine::Display1, Routine::Display2, Routine::DisplayActivity],
    );
    assert_eq!(
        run_section_until_failure(&section, 6, 0),
        vec![Action::Print("- ab -".to_string()), Action::Call(Routine::Display1)]
    );
    assert_eq!(
        run_section_until_failure(&section, 6, 1),
        vec![
            Action::Print("- ab -".to_string()),
            Action::Call(Routine::Display1),
            Action::Call(Routine::Display2),
        ]
    );
    assert_eq!(
        run_section_until_failure(&section, 6, 2),
        vec![
            Action::Print("- ab -".to_string()),
            Action::Call(Routine::Display1),
            Action::Call(Routine::Display2),
            Action::Call(Routine::DisplayActivity),
        ]
    );
}

#[test]
fn what_is_performed_up_to_a_failure_begins_the_section() {
    let section = Section::new("Debug", vec![Routine::Debug1, Routine::Debug2]);
    let whole = run_section(&section, 80);
    for failed in 0..2 {
        let cut = run_section_until_failure(&section, 80, failed);
        assert_eq!(cut.len(), failed + 2);
        assert_eq!(cut[..], whole[..failed + 2]);
    }
}

#[test]
fn without_a_routine_of_that_index_nothing_fails() {
    let section = Section::new("Debug", vec![Routine::Debug1, Routine::Debug2]);
    assert_eq!(run_section_until_failure(&section, 80, 2), run_section(&section, 80));
    assert_eq!(run_section_until_failure(&section, 80, usize::MAX), run_section(&section, 80));
    let empty = Section::new("Empty", Vec::new());
    assert_eq!(run_section_until_failure(&empty, 80, 0), run_section(&empty, 80));
}
