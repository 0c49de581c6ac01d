use logview::timestamp::{
    digit, find_timestamp, format_timestamp, process_log_line, space, TimestampDisplayMode,
};

const LINE: &str = "2024-01-15T10:30:45.123Z hello";

#[test]
fn hidden_removes_the_timestamp() {
    assert_eq!(format_timestamp(LINE, TimestampDisplayMode::Hidden), "hello");
}

#[test]
fn date_only_keeps_the_date() {
    assert_eq!(format_timestamp(LINE, TimestampDisplayMode::DateOnly), "2024-01-15 hello");
}

#[test]
fn full_keeps_date_and_time() {
    assert_eq!(format_timestamp(LINE, TimestampDisplayMode::Full), "2024-01-15 10:30:45 hello");
}

#[test]
fn zone_with_offset_is_recognised() {
    let line = "2024-01-15T10:30:45+00:00 started";
    assert_eq!(format_timestamp(line, TimestampDisplayMode::Hidden), "started");
    assert_eq!(format_timestamp(line, TimestampDisplayMode::DateOnly), "2024-01-15 started");
    assert_eq!(format_timestamp(line, TimestampDisplayMode::Full), "2024-01-15 10:30:45 started");
    let line = "2024-01-15T10:30:45.5-07:30 started";
    assert_eq!(format_timestamp(line, TimestampDisplayMode::Full), "2024-01-15 10:30:45 started");
}

#[test]
fn fraction_and_zone_are_optional() {
    assert_eq!(format_timestamp("2024-01-15T10:30:45 x", TimestampDisplayMode::Hidden), "x");
    assert_eq!(format_timestamp("2024-01-15T10:30:45Z x", TimestampDisplayMode::Hidden), "x");
    assert_eq!(format_timestamp("2024-01-15T10:30:45.000001 x", TimestampDisplayMode::Hidden), "x");
}

#[test]
fn all_white_space_behind_the_timestamp_goes() {
    assert_eq!(format_timestamp("2024-01-15T10:30:45Z \t  x", TimestampDisplayMode::Hidden), "x");
    assert_eq!(
        format_timestamp("2024-01-15T10:30:45Z \t  x", TimestampDisplayMode::DateOnly),
        "2024-01-15 x"
    );
    assert_eq!(
        format_timestamp("2024-01-15T10:30:45Z\u{a0}x", TimestampDisplayMode::Full),
        "2024-01-15 10:30:45 x"
    );
}

#[test]
fn timestamp_alone_with_trailing_space() {
    assert_eq!(format_timestamp("2024-01-15T10:30:45Z ", TimestampDisplayMode::Hidden), "");
    assert_eq!(format_timestamp("2024-01-15T10:30:45Z ", TimestampDisplayMode::DateOnly), "2024-01-15 ");
    assert_eq!(
        format_timestamp("2024-01-15T10:30:45Z ", TimestampDisplayMode::Full),
        "2024-01-15 10:30:45 "
    );
}

#[test]
fn timestamp_without_trailing_space_is_none() {
    for mode in [TimestampDisplayMode::Hidden, TimestampDisplayMode::DateOnly, TimestampDisplayMode::Full] {
        assert_eq!(format_timestamp("2024-01-15T10:30:45Z", mode), "2024-01-15T10:30:45Z");
        assert_eq!(format_timestamp("2024-01-15T10:30:45", mode), "2024-01-15T10:30:45");
        assert_eq!(format_timestamp("2024-01-15T10:30:45.123Zhello", mode), "2024-01-15T10:30:45.123Zhello");
    }
}

#[test]
fn malformed_timestamps_are_left_alone() {
    let lines = [
        "",
        "hello",
        " 2024-01-15T10:30:45Z late",
        "2024-01-15 10:30:45 x",
        "2024-1-15T10:30:45Z x",
        "2024-01-15T10:30:4 x",
        "2024-01-15t10:30:45Z x",
        "2024-01-15T10:30:45. x",
        "2024-01-15T10:30:45.Z x",
        "2024-01-15T10:30:45ZZ x",
        "2024-01-15T10:30:45+0000 x",
        "2024-01-15T10:30:45+00:0 x",
        "2024-01-15T10:30:45z x",
        "2024/01/15T10:30:45Z x",
        "\u{664}\u{660}\u{662}\u{664}-01-15T10:30:45Z x",
    ];
    for line in lines {
        for mode in [TimestampDisplayMode::Hidden, TimestampDisplayMode::DateOnly, TimestampDisplayMode::Full] {
            assert_eq!(format_timestamp(line, mode), line);
        }
    }
}

#[test]
fn timestamp_in_the_middle_is_left_alone() {
    let line = "step 2024-01-15T10:30:45Z done";
    assert_eq!(format_timestamp(line, TimestampDisplayMode::Hidden), line);
}

#[test]
fn find_timestamp_gives_the_length_of_the_match() {
    let chars: Vec<char> = LINE.chars().collect();
    assert_eq!(find_timestamp(&chars), Some(25));
    let chars: Vec<char> = "2024-01-15T10:30:45   x".chars().collect();
    assert_eq!(find_timestamp(&chars), Some(22));
    let chars: Vec<char> = "2024-01-15T10:30:45".chars().collect();
    assert_eq!(find_timestamp(&chars), None);
    let chars: Vec<char> = "plain".chars().collect();
    assert_eq!(find_timestamp(&chars), None);
}

#[test]
fn digits_and_spaces() {
    for c in '0'..='9' {
        assert!(digit(c));
    }
    for c in ['/', ':', 'a', ' ', '\u{660}'] {
        assert!(!digit(c));
    }
    let all = (0u32..=0x10ffff).filter_map(char::from_u32);
    for c in all {
        assert_eq!(space(c), c.is_whitespace());
    }
}

#[test]
fn raw_line_is_normalised_before_its_timestamp_is_read() {
    assert_eq!(
        process_log_line("\u{0}0E2024-01-15T10:30:45.123Z hello", &TimestampDisplayMode::Hidden),
        "hello"
    );
    assert_eq!(
        process_log_line("00O2024-01-15T10:30:45.123Z hello", &TimestampDisplayMode::DateOnly),
        "2024-01-15 hello"
    );
    assert_eq!(
        process_log_line("2024-01-15T10:30:45.123Z hello", &TimestampDisplayMode::Full),
        "2024-01-15 10:30:45 hello"
    );
    assert_eq!(process_log_line("section_start:17:x", &TimestampDisplayMode::Full), "");
}

#[test]
fn line_without_prefix_or_timestamp_is_unchanged() {
    for line in ["hello", "$ make", "", "  2024", "error: bad thing \u{1b}[0m", "0x00"] {
        for mode in [TimestampDisplayMode::Hidden, TimestampDisplayMode::DateOnly, TimestampDisplayMode::Full] {
            assert_eq!(process_log_line(line, &mode), line);
        }
    }
}

fn by_pattern(re: &regex::Regex, line: &str, mode: TimestampDisplayMode) -> String {
    match (mode, re.captures(line)) {
        (_, None) => line.to_string(),
        (TimestampDisplayMode::Hidden, Some(c)) => line[c.get(0).unwrap().end()..].to_string(),
        (TimestampDisplayMode::DateOnly, Some(c)) => {
            format!("{} {}", &c[1], &line[c.get(0).unwrap().end()..])
        }
        (TimestampDisplayMode::Full, Some(c)) => {
            format!("{} {} {}", &c[1], &c[2], &line[c.get(0).unwrap().end()..])
        }
    }
}

#[test]
fn scanner_agrees_with_the_regular_expression() {
    let re = regex::Regex::new(
        r"^(\d{4}-\d{2}-\d{2})T(\d{2}:\d{2}:\d{2})(?:\.\d+)?(?:Z|[+-]\d{2}:\d{2})?\s+",
    )
    .unwrap();
    let heads = [
        "2024-01-15T10:30:45",
        "2024-01-15T10:30:4",
        "2024-01-15 10:30:45",
        "0000-00-00T00:00:00",
        "9999-99-99T99:99:99",
        "2024-01-15T10:30:45x",
        "x2024-01-15T10:30:45",
    ];
    let fractions = ["", ".", ".1", ".123456789", ".12a"];
    let zones = ["", "Z", "z", "+00:00", "-12:34", "+0000", "+00:0", "Z+01:00"];
    let tails = ["", " ", "\t ", " x", "\u{a0}y", "\u{2003} z", "x", " \u{e9}t\u{e9} "];
    for head in heads {
        for fraction in fractions {
            for zone in zones {
                for tail in tails {
                    let line = format!("{head}{fraction}{zone}{tail}");
                    for mode in [
                        TimestampDisplayMode::Hidden,
                        TimestampDisplayMode::DateOnly,
                        TimestampDisplayMode::Full,
                    ] {
                        assert_eq!(format_timestamp(&line, mode), by_pattern(&re, &line, mode), "{line:?}");
                    }
                }
            }
        }
    }
}
