use logview::text::{chars_of, contains, len_utf8, matches_at};
use logview::title::push_decimal;

fn chars(s: &str) -> Vec<char> {
    s.chars().collect()
}

#[test]
fn chars_of_a_string() {
    assert_eq!(chars_of(""), Vec::<char>::new());
    assert_eq!(chars_of("a\u{e9}\u{2713}"), vec!['a', '\u{e9}', '\u{2713}']);
}

#[test]
fn push_decimal_appends_the_digits() {
    let mut text = String::from("n=");
    push_decimal(&mut text, 0);
    push_decimal(&mut text, 407);
    assert_eq!(text, "n=0407");
}

#[test]
fn bytes_of_a_character() {
    for c in ['\u{0}', 'a', '\u{7f}', '\u{80}', '\u{e9}', '\u{7ff}', '\u{800}', '\u{20ac}', '\u{ffff}', '\u{10000}', '\u{10ffff}'] {
        assert_eq!(len_utf8(c), c.len_utf8());
    }
}

#[test]
fn matches_at_an_index() {
    let text = chars("section_start:1");
    assert!(matches_at(&text, 0, &chars("section")));
    assert!(matches_at(&text, 8, &chars("start:1")));
    assert!(matches_at(&text, 15, &chars("")));
    assert!(!matches_at(&text, 16, &chars("")));
    assert!(!matches_at(&text, 9, &chars("start:1")));
    assert!(!matches_at(&text, 1, &chars("section")));
    assert!(!matches_at(&text, usize::MAX, &chars("s")));
}

#[test]
fn contains_a_pattern() {
    let text = chars("abcabd");
    for found in ["", "a", "abd", "cab", "abcabd", "d"] {
        assert!(contains(&text, &chars(found)), "{found}");
    }
    for missing in ["abcabda", "ac", "e", "dd", "bca "] {
        assert!(!contains(&text, &chars(missing)), "{missing}");
    }
    assert!(contains(&chars(""), &chars("")));
    assert!(!contains(&chars(""), &chars("a")));
}

#[test]
fn contains_agrees_with_the_standard_library() {
    let texts = ["", "a", "aa", "ab", "aab", "abab", "ababab", "baaab", "\u{e9}a\u{e9}"];
    for text in texts {
        for pattern in texts {
            assert_eq!(contains(&chars(text), &chars(pattern)), text.contains(pattern), "{text} {pattern}");
        }
    }
}
