use stickie::text::trim_text;

#[test]
fn trims_spaces_from_both_ends() {
    assert_eq!(trim_text("  hello world  "), String::from("hello world"));
}

#[test]
fn keeps_inner_whitespace() {
    assert_eq!(trim_text(" a  b "), String::from("a  b"));
}

#[test]
fn trims_tabs_and_newlines() {
    assert_eq!(trim_text("\t\n note \r\n"), String::from("note"));
}

#[test]
fn empty_stays_empty() {
    assert_eq!(trim_text(""), String::new());
}

#[test]
fn all_whitespace_trims_to_nothing() {
    assert_eq!(trim_text("   \t  "), String::new());
}

#[test]
fn already_trimmed_is_unchanged() {
    assert_eq!(trim_text("note"), String::from("note"));
}

#[test]
fn non_ascii_text_survives() {
    assert_eq!(trim_text("  caf\u{e9} \u{1f4dd}  "), String::from("caf\u{e9} \u{1f4dd}"));
}
