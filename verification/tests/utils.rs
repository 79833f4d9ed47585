use kanshi_profile::utils::indent;

#[test]
fn test_indent() {
    let input = "foo\nbar\nbaz";
    let expected = "    foo\n    bar\n    baz";
    assert_eq!(indent(input, 1), expected);
}

#[test]
fn test_multiple_indent() {
    let input = "foo\nbar\nbaz";
    let expected = "        foo\n        bar\n        baz";
    assert_eq!(indent(input, 2), expected);
}

#[test]
fn indent_keeps_zero_levels() {
    assert_eq!(indent("foo\nbar", 0), "foo\nbar");
}

#[test]
fn indent_drops_a_final_line_terminator() {
    assert_eq!(indent("foo\n", 1), "    foo");
    assert_eq!(indent("foo\r\n", 1), "    foo");
}

#[test]
fn indent_of_empty_text_is_empty() {
    assert_eq!(indent("", 1), "");
}
