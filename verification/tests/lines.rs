use logview::lines::split_lines;

#[test]
fn lines_end_with_a_line_feed() {
    assert_eq!(split_lines("a\nb\nc"), vec!["a", "b", "c"]);
    assert_eq!(split_lines("a\nb\nc\n"), vec!["a", "b", "c"]);
}

#[test]
fn empty_text_has_no_lines() {
    assert_eq!(split_lines(""), Vec::<String>::new());
}

#[test]
fn empty_lines_are_kept() {
    assert_eq!(split_lines("\n"), vec![""]);
    assert_eq!(split_lines("\n\n"), vec!["", ""]);
    assert_eq!(split_lines("a\n\nb"), vec!["a", "", "b"]);
}

#[test]
fn carriage_return_before_a_line_feed_goes() {
    assert_eq!(split_lines("a\r\nb\r\n"), vec!["a", "b"]);
    assert_eq!(split_lines("a\r\r\nb"), vec!["a\r", "b"]);
    assert_eq!(split_lines("\r\n"), vec![""]);
}

#[test]
fn carriage_return_elsewhere_stays() {
    assert_eq!(split_lines("a\rb\nc\r"), vec!["a\rb", "c\r"]);
    assert_eq!(split_lines("\r"), vec!["\r"]);
}

#[test]
fn lines_are_those_of_the_standard_library() {
    let texts = [
        "", "x", "\n", "\r", "\r\n", "\n\r", "a\nb", "a\r\nb\r", "\n\n\n", "\r\r\n\r", "caf\u{e9}\n\u{2713}\r\n",
        "\u{e9}\r\n\u{20ac}\n\u{1f600}\r\n\r", "\u{1f600}", "\u{20ac}\r",
        "one\ntwo\r\n\r\nfour\n",
    ];
    for text in texts {
        let expected: Vec<String> = text.lines().map(str::to_string).collect();
        assert_eq!(split_lines(text), expected, "{text:?}");
    }
}
