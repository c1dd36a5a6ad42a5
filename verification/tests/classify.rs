use nbroute::classify::{is_printout, is_shell_code, is_shell_code_cell};
use nbroute::model::{kind_of_cell_type, BlockKind};

#[test]
fn printout_bare_word() {
    assert!(is_printout("x"));
}

#[test]
fn printout_rejects_digit() {
    assert!(!is_printout("x1"));
}

#[test]
fn printout_trims_surrounding_whitespace() {
    assert!(is_printout("  x  "));
}

#[test]
fn printout_rejects_empty() {
    assert!(!is_printout(""));
}

#[test]
fn printout_rejects_all_whitespace() {
    assert!(!is_printout("   "));
}

#[test]
fn printout_rejects_inner_space() {
    assert!(!is_printout("x y"));
}

#[test]
fn printout_rejects_underscore() {
    assert!(!is_printout("foo_bar"));
}

#[test]
fn printout_rejects_punctuation() {
    assert!(!is_printout("f()"));
}

#[test]
fn printout_accepts_unicode_letters() {
    assert!(is_printout("café"));
}

#[test]
fn shell_line_bang() {
    assert!(is_shell_code("!ls"));
}

#[test]
fn shell_line_percent_after_whitespace() {
    assert!(is_shell_code("  %magic"));
}

#[test]
fn shell_line_plain_rejected() {
    assert!(!is_shell_code("x = 1"));
}

#[test]
fn shell_line_empty_rejected() {
    assert!(!is_shell_code(""));
}

#[test]
fn shell_cell_marker() {
    assert!(is_shell_code_cell(&vec!["%%bash".to_string()]));
}

#[test]
fn shell_cell_marker_after_whitespace() {
    assert!(is_shell_code_cell(&vec!["  %%sh  ".to_string()]));
}

#[test]
fn shell_cell_single_percent_rejected() {
    assert!(!is_shell_code_cell(&vec!["%bash".to_string()]));
}

#[test]
fn shell_cell_empty_block_rejected() {
    assert!(!is_shell_code_cell(&Vec::new()));
}

#[test]
fn shell_cell_marker_not_on_first_line_rejected() {
    assert!(!is_shell_code_cell(&vec!["x".to_string(), "%%bash".to_string()]));
}

#[test]
fn cell_type_code() {
    assert_eq!(kind_of_cell_type("code"), BlockKind::Code);
}

#[test]
fn cell_type_markdown() {
    assert_eq!(kind_of_cell_type("markdown"), BlockKind::Markdown);
}

#[test]
fn cell_type_other() {
    assert_eq!(kind_of_cell_type("raw"), BlockKind::Other);
}
