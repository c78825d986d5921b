use livegrep::parse::parse_line;
use livegrep::parse::parse_u32;

#[test]
fn parse_plain_line() {
    let line = b"a.txt:3:1:foo bar".to_vec();
    let rec = parse_line(line.clone());
    assert_eq!(rec.display, line);
    assert_eq!(rec.file_path.as_deref(), Some("a.txt"));
    assert_eq!(rec.line_number, Some(3));
}

#[test]
fn parse_no_colon_is_inert() {
    let line = b"no separators here".to_vec();
    let rec = parse_line(line.clone());
    assert_eq!(rec.display, line);
    assert_eq!(rec.file_path, None);
    assert_eq!(rec.line_number, None);
}

#[test]
fn parse_one_colon_is_inert() {
    let rec = parse_line(b"a.txt:3".to_vec());
    assert_eq!(rec.file_path, None);
    assert_eq!(rec.line_number, None);
}

#[test]
fn parse_empty_line_is_inert() {
    let rec = parse_line(Vec::new());
    assert_eq!(rec.display, Vec::<u8>::new());
    assert_eq!(rec.file_path, None);
    assert_eq!(rec.line_number, None);
}

#[test]
fn parse_strips_ansi_styling() {
    // The path and the line number are styled; the separators are not.
    let line = b"\x1b[35ma.txt\x1b[0m:\x1b[32m12\x1b[0m:1:\x1b[1mhit\x1b[0m".to_vec();
    let rec = parse_line(line.clone());
    assert_eq!(rec.display, line);
    assert_eq!(rec.file_path.as_deref(), Some("a.txt"));
    assert_eq!(rec.line_number, Some(12));
}

#[test]
fn parse_non_numeric_line_number_is_inert() {
    let rec = parse_line(b"a.txt:xx:1:y".to_vec());
    assert_eq!(rec.file_path, None);
    assert_eq!(rec.line_number, None);
}

#[test]
fn parse_empty_fields_are_inert() {
    let rec = parse_line(b"::1:x".to_vec());
    assert_eq!(rec.file_path, None);
    assert_eq!(rec.line_number, None);
}

#[test]
fn parse_content_may_hold_more_colons() {
    let rec = parse_line(b"a.txt:3:1:foo:bar:baz".to_vec());
    assert_eq!(rec.file_path.as_deref(), Some("a.txt"));
    assert_eq!(rec.line_number, Some(3));
}

#[test]
fn parse_u32_exact_values() {
    assert_eq!(parse_u32(b"0"), Some(0));
    assert_eq!(parse_u32(b"307"), Some(307));
    assert_eq!(parse_u32(b"4294967295"), Some(u32::MAX));
}

#[test]
fn parse_u32_rejects_overflow() {
    assert_eq!(parse_u32(b"4294967296"), None);
    assert_eq!(parse_u32(b"99999999999999999999"), None);
}

#[test]
fn parse_u32_rejects_non_digits() {
    assert_eq!(parse_u32(b""), None);
    assert_eq!(parse_u32(b"-3"), None);
    assert_eq!(parse_u32(b"12a"), None);
    assert_eq!(parse_u32(b" 12"), None);
}

#[test]
fn parse_line_number_overflow_is_inert() {
    let rec = parse_line(b"a.txt:4294967296:1:x".to_vec());
    assert_eq!(rec.file_path, None);
    assert_eq!(rec.line_number, None);
}
