use logview::viewport::{offset_for_line, scroll_position, visible_range};

#[test]
fn offset_beyond_the_end_is_clamped() {
    assert_eq!(visible_range(100, 20, 500), (80, 100));
}

#[test]
fn short_log_is_shown_whole() {
    assert_eq!(visible_range(5, 20, 0), (0, 5));
}

#[test]
fn empty_log_has_an_empty_range() {
    assert_eq!(visible_range(0, 20, 0), (0, 0));
    assert_eq!(visible_range(0, 20, 7), (0, 0));
}

#[test]
fn offset_inside_is_kept() {
    assert_eq!(visible_range(100, 20, 30), (30, 50));
    assert_eq!(visible_range(100, 20, 80), (80, 100));
    assert_eq!(visible_range(100, 20, 81), (80, 100));
}

#[test]
fn viewport_without_rows_shows_nothing() {
    assert_eq!(visible_range(10, 0, 4), (4, 4));
    assert_eq!(visible_range(10, 0, 40), (10, 10));
}

#[test]
fn scroll_position_is_one_based() {
    assert_eq!(scroll_position(100, 20, 0), Some((1, 81)));
    assert_eq!(scroll_position(100, 20, 500), Some((81, 81)));
    assert_eq!(scroll_position(100, 20, 30), Some((31, 81)));
}

#[test]
fn scroll_position_is_hidden_when_all_fits() {
    assert_eq!(scroll_position(5, 20, 0), None);
    assert_eq!(scroll_position(20, 20, 3), None);
    assert_eq!(scroll_position(0, 0, 0), None);
}

#[test]
fn offset_for_a_line_puts_it_in_the_middle() {
    assert_eq!(offset_for_line(50, 100, 20), 40);
    assert_eq!(offset_for_line(51, 100, 21), 41);
    assert_eq!(offset_for_line(3, 100, 20), 0);
    assert_eq!(offset_for_line(99, 100, 20), 80);
    assert_eq!(offset_for_line(2, 5, 20), 0);
    assert_eq!(offset_for_line(7, 10, 1), 7);
    assert_eq!(offset_for_line(7, 10, 0), 7);
}

#[test]
fn offset_for_a_line_brings_it_into_view() {
    for total in 1..15usize {
        for height in 1..7usize {
            for line in 0..total {
                let offset = offset_for_line(line, total, height);
                let (start, end) = visible_range(total, height, offset);
                assert_eq!(start, offset);
                assert!(start <= line && line < end);
            }
        }
    }
}
