use dd_bot::detect::{
    count_pouches, read_findings, read_gold, read_pouch_findings, read_region_leniently,
    was_detected, Finding, Region,
};
use dd_bot::text::{
    chars_of, count_lines, parse_i32_text, reads_as, same_text, split_at_char, split_words,
    trim_str, trimmed,
};

fn text_of(v: &Vec<char>) -> String {
    v.iter().collect()
}

#[test]
fn trims_whitespace_at_both_ends() {
    assert_eq!(trim_str("  10 20 30 40\n"), "10 20 30 40");
    assert_eq!(trim_str("\t\r\n"), "");
    assert_eq!(trim_str("a b"), "a b");
    assert_eq!(text_of(&trimmed(&chars_of(" \u{3000}x y\u{a0} "))), "x y");
}

#[test]
fn compares_texts() {
    assert!(same_text(&chars_of("abc"), &chars_of("abc")));
    assert!(!same_text(&chars_of("abc"), &chars_of("abd")));
    assert!(!same_text(&chars_of("abc"), &chars_of("ab")));
    assert!(reads_as(&chars_of("Could not detect"), "Could not detect"));
    assert!(!reads_as(&chars_of("Could not detect "), "Could not detect"));
}

#[test]
fn splits_on_a_character_keeping_empty_pieces() {
    let parts: Vec<String> = split_at_char(&chars_of("a\n\nb\n"), '\n').iter().map(text_of).collect();
    assert_eq!(parts, vec!["a", "", "b", ""]);
    let one: Vec<String> = split_at_char(&chars_of(""), '\n').iter().map(text_of).collect();
    assert_eq!(one, vec![""]);
}

#[test]
fn splits_words_on_whitespace() {
    let ws: Vec<String> = split_words(&chars_of("  10\t20   30 40 ")).iter().map(text_of).collect();
    assert_eq!(ws, vec!["10", "20", "30", "40"]);
    assert!(split_words(&chars_of("   ")).is_empty());
}

#[test]
fn parses_i32_as_std_does() {
    assert_eq!(parse_i32_text(&chars_of("123")), Some(123));
    assert_eq!(parse_i32_text(&chars_of("-45")), Some(-45));
    assert_eq!(parse_i32_text(&chars_of("+7")), Some(7));
    assert_eq!(parse_i32_text(&chars_of("2147483647")), Some(i32::MAX));
    assert_eq!(parse_i32_text(&chars_of("-2147483648")), Some(i32::MIN));
    assert_eq!(parse_i32_text(&chars_of("2147483648")), None);
    assert_eq!(parse_i32_text(&chars_of("")), None);
    assert_eq!(parse_i32_text(&chars_of("-")), None);
    assert_eq!(parse_i32_text(&chars_of("12a")), None);
    for s in ["0", "99", "-1", "+0", "007", "x", " 1"] {
        assert_eq!(parse_i32_text(&chars_of(s)), s.parse::<i32>().ok());
    }
}

#[test]
fn counts_lines_as_str_lines_does() {
    for s in ["", "a", "a\n", "a\nb", "a\n\nb\n", "\n"] {
        assert_eq!(count_lines(&chars_of(s)), s.lines().count());
    }
}

#[test]
fn tells_a_detection_from_a_miss() {
    assert!(!was_detected("Could not detect"));
    assert!(!was_detected("  Could not detect\n"));
    assert!(was_detected("10 20 30 40"));
    assert!(was_detected(""));
}

#[test]
fn reads_each_line_of_a_detector_output() {
    let fs = read_findings("10 20 30 40\nCould not detect\n\n1 2\n5 6 7 8");
    assert_eq!(
        fs,
        vec![
            Finding::Found(Region { x1: 10, y1: 20, x2: 30, y2: 40 }),
            Finding::Missing,
            Finding::Missing,
            Finding::Ignored,
            Finding::Found(Region { x1: 5, y1: 6, x2: 7, y2: 8 }),
        ]
    );
    assert_eq!(read_findings("Could not detect\n"), vec![Finding::Missing]);
    assert_eq!(read_findings("1 2 x 4"), vec![Finding::Malformed]);
}

#[test]
fn reads_pouch_lines_without_misses() {
    let fs = read_pouch_findings(&chars_of("1 2 3 4\n\n9"));
    assert_eq!(
        fs,
        vec![Finding::Found(Region { x1: 1, y1: 2, x2: 3, y2: 4 }), Finding::Ignored, Finding::Ignored]
    );
}

#[test]
fn reads_a_region_leniently() {
    assert_eq!(read_region_leniently("10 20 30 40"), Region { x1: 10, y1: 20, x2: 30, y2: 40 });
    assert_eq!(read_region_leniently("  10 x 30\n"), Region { x1: 10, y1: 0, x2: 30, y2: 0 });
    assert_eq!(read_region_leniently(""), Region { x1: 0, y1: 0, x2: 0, y2: 0 });
}

#[test]
fn reads_the_gold_shown() {
    assert_eq!(read_gold("No text detected"), Some(0));
    assert_eq!(read_gold(" 0\n"), Some(0));
    assert_eq!(read_gold("150\n"), Some(150));
    assert_eq!(read_gold("-5"), Some(-5));
    assert_eq!(read_gold("1,000"), None);
}

#[test]
fn counts_pouches_one_per_line() {
    assert_eq!(count_pouches("Could not detect"), 0);
    assert_eq!(count_pouches("1 1 2 2\n3 3 4 4\n"), 2);
    assert_eq!(count_pouches("1 1 2 2"), 1);
    assert_eq!(count_pouches(""), 0);
}
