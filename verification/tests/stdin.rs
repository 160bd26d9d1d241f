use libcmd::{stdin_steps, StdinStep};

fn fed(line: &str) -> Vec<u8> {
    let mut bytes = Vec::new();
    for step in stdin_steps(line) {
        match step {
            StdinStep::Write { bytes: more } => bytes.extend(more),
            StdinStep::Flush => {}
        }
    }
    bytes
}

fn is_white_space(c: char) -> bool {
    matches!(
        c,
        '\u{9}'..='\u{d}'
            | ' '
            | '\u{85}'
            | '\u{a0}'
            | '\u{1680}'
            | '\u{2000}'..='\u{200a}'
            | '\u{2028}'
            | '\u{2029}'
            | '\u{202f}'
            | '\u{205f}'
            | '\u{3000}'
    )
}

#[test]
fn a_line_is_written_then_a_newline_then_flushed() {
    let steps = stdin_steps("  echo hi\n");
    assert_eq!(steps.len(), 3);
    assert!(matches!(&steps[0], StdinStep::Write { bytes } if bytes == b"echo hi"));
    assert!(matches!(&steps[1], StdinStep::Write { bytes } if bytes == b"\n"));
    assert!(matches!(&steps[2], StdinStep::Flush));
}

#[test]
fn white_space_around_a_line_makes_no_difference() {
    let expected = b"a b\n".to_vec();
    for line in ["a b", " a b", "a b\n", "\t a b \r\n", "\u{3000}a b\u{a0}"] {
        assert_eq!(fed(line), expected);
    }
}

#[test]
fn white_space_inside_a_line_is_kept() {
    assert_eq!(fed("a  \t b"), b"a  \t b\n".to_vec());
}

#[test]
fn a_blank_line_is_a_newline_alone() {
    assert_eq!(fed(""), b"\n".to_vec());
    assert_eq!(fed(" \t\r\n "), b"\n".to_vec());
}

#[test]
fn a_line_is_written_in_utf8() {
    assert_eq!(fed("grüße €"), "grüße €\n".as_bytes().to_vec());
}

#[test]
fn a_line_without_newlines_is_fed_as_one_line() {
    let bytes = fed(" größer → \u{10ffff} ");
    assert_eq!(bytes.iter().filter(|b| **b == b'\n').count(), 1);
    assert_eq!(bytes.last(), Some(&b'\n'));
}

#[test]
fn exactly_the_white_space_characters_are_dropped() {
    for c in '\0'..=char::MAX {
        let dropped = fed(&format!("{c}x{c}")) == b"x\n".to_vec();
        assert_eq!(dropped, is_white_space(c), "{:?}", c);
    }
}

#[test]
fn what_is_left_of_a_line_is_left_as_it_is() {
    let once = fed(" \t a b \n");
    let text = String::from_utf8(once.clone()).unwrap();
    assert_eq!(fed(&text), once);
}
