use console_report::banner::{render_separator, render_title, FILL, TITLE_MAX_SIZE};
use console_report::text::{center, pad_start, repeat_char};

fn dashes(count: usize) -> String {
    "-".repeat(count)
}

#[test]
fn standard_width_is_eighty_and_fill_is_a_dash() {
    assert_eq!(TITLE_MAX_SIZE, 80);
    assert_eq!(FILL, '-');
}

#[test]
fn hello_world_title_at_standard_width() {
    let line = render_title("Hello World", 80);
    let expected = format!("{} Hello World {}", dashes(33), dashes(34));
    assert_eq!(line, expected);
    assert_eq!(line.chars().count(), 80);
    assert_eq!(line, format!("{:-^80}", " Hello World "));
}

#[test]
fn hello_world_title_with_fill_of_34_and_35() {
    let line = render_title("Hello World", 82);
    assert_eq!(
        line,
        "---------------------------------- Hello World -----------------------------------"
    );
    assert_eq!(line.chars().count(), 82);
}

#[test]
fn title_with_even_fill_is_symmetric() {
    let line = render_title("Tuples", 80);
    assert_eq!(line, format!("{} Tuples {}", dashes(36), dashes(36)));
    let reversed: String = line.chars().rev().collect();
    assert_eq!(reversed, format!("{} selpuT {}", dashes(36), dashes(36)));
}

#[test]
fn title_with_odd_fill_has_the_odd_dash_on_the_right() {
    let line = render_title("Debug", 80);
    assert_eq!(line, format!("{} Debug {}", dashes(36), dashes(37)));
    assert_eq!(line.chars().count(), 80);
}

#[test]
fn title_is_surrounded_by_exactly_one_space() {
    let line = render_title("Display", 80);
    let at = line.find("Display").unwrap();
    let bytes = line.as_bytes();
    assert_eq!(bytes[at - 1], b' ');
    assert_eq!(bytes[at - 2], b'-');
    assert_eq!(bytes[at + 7], b' ');
    assert_eq!(bytes[at + 8], b'-');
}

#[test]
fn empty_title_is_two_spaces_in_the_middle() {
    let line = render_title("", 80);
    assert_eq!(line, format!("{}  {}", dashes(39), dashes(39)));
}

#[test]
fn title_that_fits_exactly_gets_no_fill() {
    let title = "t".repeat(78);
    let line = render_title(&title, 80);
    assert_eq!(line, format!(" {} ", title));
    assert_eq!(line.chars().count(), 80);
}

#[test]
fn title_one_short_of_the_width_gets_one_dash_on_the_right() {
    let title = "t".repeat(77);
    let line = render_title(&title, 80);
    assert_eq!(line, format!(" {} -", title));
}

#[test]
fn title_wider_than_the_line_is_not_cut() {
    let title = "w".repeat(100);
    let line = render_title(&title, 80);
    assert_eq!(line, format!(" {} ", title));
    assert_eq!(line.chars().count(), 102);
}

#[test]
fn title_at_width_zero_is_the_spaced_title() {
    assert_eq!(render_title("Comments", 0), " Comments ");
}

#[test]
fn title_width_counts_characters_not_bytes() {
    let line = render_title("héllo wörld ∞", 80);
    assert_eq!(line.chars().count(), 80);
    assert_eq!(line, format!("{:-^80}", " héllo wörld ∞ "));
}

#[test]
fn titles_agree_with_the_formatter_of_the_standard_library() {
    let titles = ["", "a", "ab", "Hello World", "Formatted Print", "Arrays and slices"];
    for title in titles {
        for width in [0usize, 1, 2, 3, 4, 5, 16, 17, 18, 19, 20, 79, 80, 81] {
            let spaced = format!(" {} ", title);
            let expected = format!("{1:-^0$}", width, spaced);
            assert_eq!(render_title(title, width), expected);
        }
    }
}

#[test]
fn separator_of_eighty_is_eighty_dashes() {
    let line = render_separator(80);
    assert_eq!(line.chars().count(), 80);
    assert!(line.chars().all(|c| c == '-'));
    assert_eq!(line, dashes(80));
    assert_eq!(line, format!("{1:-^0$}", 80, '-'));
}

#[test]
fn separator_has_exactly_the_width_asked_for() {
    assert_eq!(render_separator(0), "");
    assert_eq!(render_separator(1), "-");
    assert_eq!(render_separator(7), "-------");
    assert_eq!(render_separator(1000).chars().count(), 1000);
}

#[test]
fn rendering_is_deterministic() {
    assert_eq!(render_title("Debug", 80), render_title("Debug", 80));
    assert_eq!(render_separator(80), render_separator(80));
}

#[test]
fn repeat_char_repeats() {
    assert_eq!(repeat_char('x', 0), "");
    assert_eq!(repeat_char('x', 3), "xxx");
    assert_eq!(repeat_char('∞', 2), "∞∞");
}

#[test]
fn pad_start_moves_text_to_the_right() {
    assert_eq!(pad_start("1", 6, ' '), "     1");
    assert_eq!(pad_start("1", 6, '0'), "000001");
    assert_eq!(pad_start("-1", 6, '0'), "0000-1");
    assert_eq!(pad_start("1234567", 6, '0'), "1234567");
    assert_eq!(pad_start("123456", 6, '0'), "123456");
    assert_eq!(pad_start("", 3, '.'), "...");
    assert_eq!(pad_start("é", 3, '.'), "..é");
    assert_eq!(pad_start("1", 6, ' '), format!("{:>6}", 1));
    assert_eq!(pad_start("1", 6, '0'), format!("{:0>6}", 1));
}

#[test]
fn center_puts_the_odd_fill_on_the_right() {
    assert_eq!(center("ab", 5, '*'), "*ab**");
    assert_eq!(center("ab", 6, '*'), "**ab**");
    assert_eq!(center("ab", 2, '*'), "ab");
    assert_eq!(center("ab", 1, '*'), "ab");
    assert_eq!(center("", 3, '*'), "***");
    assert_eq!(center("ab", 5, '*'), format!("{:*^5}", "ab"));
}
