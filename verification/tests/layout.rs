use tran::layout::{
    card_width, centered_rect, clamp_scroll, content_width, cursor_position, drawer_columns, footer_length,
    history_columns, input_content_width, is_compact_layout, rule_length, Rect,
};

#[test]
fn input_width_matches_responsive_breakpoint() {
    assert_eq!(input_content_width(80), 76);
    assert_eq!(input_content_width(120), 51);
}

#[test]
fn input_width_is_at_least_one() {
    assert_eq!(input_content_width(0), 1);
    assert_eq!(input_content_width(4), 1);
    assert_eq!(input_content_width(100), 42);
}

#[test]
fn compact_layout_below_breakpoints() {
    assert!(is_compact_layout(80, 24));
    assert!(is_compact_layout(120, 15));
    assert!(!is_compact_layout(120, 30));
}

#[test]
fn centered_popup_stays_inside() {
    let area = Rect { x: 0, y: 0, width: 100, height: 40 };
    let r = centered_rect(84, 78, area);
    assert_eq!(r, Rect { x: 8, y: 4, width: 84, height: 31 });
    let small = Rect { x: 2, y: 3, width: 40, height: 12 };
    let r = centered_rect(84, 78, small);
    assert_eq!(r, Rect { x: 3, y: 4, width: 38, height: 10 });
}

#[test]
fn card_widths_are_clamped() {
    assert_eq!(card_width(10), 30);
    assert_eq!(card_width(80), 76);
    assert_eq!(card_width(200), 88);
    assert_eq!(content_width(80), 70);
    assert_eq!(content_width(10), 24);
    assert_eq!(rule_length(4, 76), 67);
    assert_eq!(rule_length(80, 76), 2);
    assert_eq!(footer_length(76), 75);
}

#[test]
fn history_columns_split_the_width() {
    assert_eq!(history_columns(70, 19), (24, 17));
    assert_eq!(history_columns(50, 19), (20, 1));
    assert_eq!(drawer_columns(100), (28, 62));
    assert_eq!(drawer_columns(40), (16, 14));
}

#[test]
fn cursor_follows_display_width() {
    let inner = Rect { x: 1, y: 1, width: 20, height: 5 };
    let before: Vec<char> = "你好a".chars().collect();
    assert_eq!(cursor_position(inner, &before, 2), (6, 3));
    let long: Vec<char> = "x".repeat(40).chars().collect();
    assert_eq!(cursor_position(inner, &long, 9), (20, 5));
    let empty = Rect { x: 5, y: 5, width: 0, height: 0 };
    assert_eq!(cursor_position(empty, &long, 3), (5, 5));
    let edge = Rect { x: 65530, y: 0, width: 6, height: 1 };
    assert_eq!(cursor_position(edge, &long, 0), (65535, 0));
}

#[test]
fn scroll_is_clamped_to_content() {
    assert_eq!(clamp_scroll(10, 30, 25), 5);
    assert_eq!(clamp_scroll(3, 30, 25), 3);
    assert_eq!(clamp_scroll(3, 10, 25), 0);
    assert_eq!(clamp_scroll(u16::MAX, usize::MAX, 0), u16::MAX);
}
