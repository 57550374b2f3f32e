use launch_nvim::display::{TaskDisplay, TaskDisplayFloatSize};
use launch_nvim::error::Error;
use launch_nvim::notify::{LogLevel, _send};
use launch_nvim::text::{
    blank, ends_with, i32_to_string, join_lines, join_with, pad_center, pad_left, parse_usize,
    split_lines, split_once, trim_ascii, trim_end_matches, usize_to_string,
};

fn strings(v: &[&str]) -> Vec<String> {
    v.iter().map(|s| s.to_string()).collect()
}

#[test]
fn decimal_formatting() {
    assert_eq!(usize_to_string(0), "0");
    assert_eq!(usize_to_string(1234), "1234");
    assert_eq!(i32_to_string(-42), "-42");
    assert_eq!(i32_to_string(0), "0");
    assert_eq!(i32_to_string(i32::MIN), "-2147483648");
    assert_eq!(i32_to_string(i32::MAX), "2147483647");
}

#[test]
fn parse_usize_cases() {
    assert_eq!(parse_usize("12"), Some(12));
    assert_eq!(parse_usize("+7"), Some(7));
    assert_eq!(parse_usize("007"), Some(7));
    assert_eq!(parse_usize(""), None);
    assert_eq!(parse_usize("+"), None);
    assert_eq!(parse_usize("1a"), None);
    assert_eq!(parse_usize("-1"), None);
    assert_eq!(parse_usize("NAME"), None);
    assert_eq!(parse_usize("99999999999999999999999999"), None);
    assert_eq!(parse_usize(&usize::MAX.to_string()), Some(usize::MAX));
}

#[test]
fn parse_gives_back_formatted_number() {
    for n in [0usize, 1, 9, 10, 99, 100, 4096, usize::MAX] {
        assert_eq!(parse_usize(&usize_to_string(n)), Some(n));
    }
}

#[test]
fn trimming_and_blank_text() {
    assert_eq!(trim_ascii("  a b \t\n"), "a b");
    assert_eq!(trim_ascii("   "), "");
    assert!(blank("  \n\t"));
    assert!(blank(""));
    assert!(!blank(" x "));
    assert_eq!(trim_end_matches("A==", '='), "A");
    assert_eq!(trim_end_matches("=", '='), "");
    assert!(ends_with("FOO=", '='));
    assert!(!ends_with("", '='));
}

#[test]
fn split_once_at_first_separator() {
    assert_eq!(split_once("K=V=W", '='), Some(("K".to_string(), "V=W".to_string())));
    assert_eq!(split_once("=V", '='), Some(("".to_string(), "V".to_string())));
    assert_eq!(split_once("abc", '='), None);
}

#[test]
fn split_and_join_lines() {
    assert_eq!(split_lines("a\nb"), strings(&["a", "b"]));
    assert_eq!(split_lines(""), strings(&[""]));
    assert_eq!(split_lines("a\n"), strings(&["a", ""]));
    assert_eq!(join_lines(&strings(&["a", "b"])), "a\nb\n");
    assert_eq!(join_lines(&Vec::new()), "");
}

#[test]
fn joining_lines_after_splitting_adds_a_line_feed() {
    for s in ["", "{}", "{\n  \"version\": 1\n}", "a\n\nb\n"] {
        assert_eq!(join_lines(&split_lines(s)), format!("{s}\n"));
    }
}

#[test]
fn join_words() {
    assert_eq!(join_with(&strings(&["x", "y", "z"]), " "), "x y z");
    assert_eq!(join_with(&Vec::new(), " "), "");
    assert_eq!(join_with(&strings(&["a", "b"]), "|"), "a|b");
}

#[test]
fn padding_like_format() {
    assert_eq!(pad_center("q", 4), format!("{:^4}", "q"));
    assert_eq!(pad_center("q", 4), " q  ");
    assert_eq!(pad_center("ab", 4), " ab ");
    assert_eq!(pad_center("<CR>", 4), "<CR>");
    assert_eq!(pad_center("toolong", 4), "toolong");
    assert_eq!(pad_left("5", 2), " 5");
    assert_eq!(pad_left("12", 2), "12");
}

#[test]
fn display_names() {
    assert_eq!(TaskDisplay::from("float"), TaskDisplay::Float);
    assert_eq!(TaskDisplay::from("hsplit"), TaskDisplay::HSplit);
    assert_eq!(TaskDisplay::from("vsplit"), TaskDisplay::VSplit);
    assert_eq!(TaskDisplay::from("xyz"), TaskDisplay::Float);
    assert_eq!(TaskDisplay::from_name("xyz"), None);
    assert_eq!(TaskDisplay::HSplit.name(), "hsplit");
}

#[test]
fn display_name_round_trip() {
    for d in [TaskDisplay::Float, TaskDisplay::VSplit, TaskDisplay::HSplit] {
        assert_eq!(TaskDisplay::from(d.name()), d);
        assert_eq!(TaskDisplay::from_name(d.name()), Some(d));
    }
}

#[test]
fn float_sizes() {
    assert_eq!(TaskDisplayFloatSize::Small.percent(), 45);
    assert_eq!(TaskDisplayFloatSize::Medium.percent(), 65);
    assert_eq!(TaskDisplayFloatSize::Large.percent(), 85);
    assert_eq!(TaskDisplayFloatSize::from_name("large"), Some(TaskDisplayFloatSize::Large));
    assert_eq!(TaskDisplayFloatSize::from_name("huge"), None);
}

#[test]
fn notification_texts() {
    assert_eq!(_send(LogLevel::Warn, "No task configurations found."), "[launch.nvim] WARN: No task configurations found.");
    assert_eq!(_send(LogLevel::Error, "x"), "[launch.nvim] ERROR: x");
    assert_eq!(_send(LogLevel::Debug, ""), "[launch.nvim] DEBUG: ");
}

#[test]
fn error_texts() {
    assert_eq!(Error::new::<()>("boom".to_string()), Err(Error::Internal("boom".to_string())));
    assert_eq!(Error::Io("no file".to_string()).message(), "(std::io): no file");
    assert_eq!(Error::Json("bad".to_string()).message(), "(serde_json): bad");
    assert_eq!(Error::Nvim("E5108".to_string()).message(), "(nvim_oxi): E5108");
    assert_eq!(Error::Internal("oops".to_string()).message(), "(internal): oops");
}
