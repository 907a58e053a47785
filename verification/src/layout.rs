//! Layout arithmetic of the full-screen interface and the command-line
//! cards: pane and column widths, centered popups, and the small pieces of
//! text that the screens show.
use vstd::prelude::*;

use crate::app_state::AppState;

verus! {

/// Below this terminal width the interface stacks its panes.
pub const WIDE_LAYOUT_MIN_WIDTH: u16 = 100;

/// Below this terminal height the interface uses the compact layout.
pub const COMPACT_LAYOUT_MIN_HEIGHT: u16 = 16;

/// `a * b`, saturating at `u16::MAX`.
pub open spec fn sat_mul_u16(a: u16, b: u16) -> u16 {
    if a as int * b as int > u16::MAX {
        u16::MAX
    } else {
        (a * b) as u16
    }
}

fn saturating_mul_u16(a: u16, b: u16) -> (r: u16)
    ensures
        r == sat_mul_u16(a, b),
{
    assert((a as u32) * (b as u32) <= 65535 * 65535) by (nonlinear_arith)
        requires
            a <= 65535,
            b <= 65535,
    ;
    let p = (a as u32) * (b as u32);
    if p > 65535 {
        65535
    } else {
        p as u16
    }
}

/// `a * b`, saturating at `usize::MAX`.
pub open spec fn sat_mul_usize(a: usize, b: usize) -> usize {
    if a as int * b as int > usize::MAX {
        usize::MAX
    } else {
        (a * b) as usize
    }
}

fn saturating_mul_usize(a: usize, b: usize) -> (r: usize)
    ensures
        r == sat_mul_usize(a, b),
{
    match a.checked_mul(b) {
        Some(p) => p,
        None => usize::MAX,
    }
}

/// The width of the input text: the whole terminal in the stacked layout,
/// 46 percent of it side by side; minus borders and padding, at least 1.
pub open spec fn input_content_width_spec(terminal_width: u16) -> u16 {
    let pane = if terminal_width < WIDE_LAYOUT_MIN_WIDTH {
        terminal_width
    } else {
        (sat_mul_u16(terminal_width, 46) / 100) as u16
    };
    let inner = pane.saturating_sub(4);
    if inner < 1 {
        1
    } else {
        inner
    }
}

/// The width at which input text wraps; it matches the responsive layout
/// so text wraps where it is shown.
pub fn input_content_width(terminal_width: u16) -> (r: u16)
    ensures
        r == input_content_width_spec(terminal_width),
        r >= 1,
{
    let pane = if terminal_width < WIDE_LAYOUT_MIN_WIDTH {
        terminal_width
    } else {
        saturating_mul_u16(terminal_width, 46) / 100
    };
    let inner = pane.saturating_sub(4);
    if inner < 1 {
        1
    } else {
        inner
    }
}

/// Whether the interface uses the compact, stacked layout.
pub fn is_compact_layout(width: u16, height: u16) -> (r: bool)
    ensures
        r == (width < WIDE_LAYOUT_MIN_WIDTH || height < COMPACT_LAYOUT_MIN_HEIGHT),
{
    width < WIDE_LAYOUT_MIN_WIDTH || height < COMPACT_LAYOUT_MIN_HEIGHT
}

/// A rectangle of terminal cells.
#[derive(Debug, Clone, Copy, PartialEq, Eq, Structural)]
pub struct Rect {
    pub x: u16,
    pub y: u16,
    pub width: u16,
    pub height: u16,
}

/// One side of a centered popup: nearly all of a small area, else the
/// given percentage (at least 1), never more than the area.
pub open spec fn popup_extent(total: u16, percent: u16, small_below: u16) -> u16 {
    let e = if total < small_below {
        total.saturating_sub(2)
    } else {
        let p = (sat_mul_u16(total, percent) / 100) as u16;
        if p < 1 {
            1
        } else {
            p
        }
    };
    if e < total {
        e
    } else {
        total
    }
}

fn popup_extent_exec(total: u16, percent: u16, small_below: u16) -> (r: u16)
    ensures
        r == popup_extent(total, percent, small_below),
        r <= total,
{
    let e = if total < small_below {
        total.saturating_sub(2)
    } else {
        let p = saturating_mul_u16(total, percent) / 100;
        if p < 1 {
            1
        } else {
            p
        }
    };
    if e < total {
        e
    } else {
        total
    }
}

/// A popup centered in `area`, `percent_x` by `percent_y` percent of it
/// (areas narrower than 60 or lower than 18 cells leave a margin of one
/// cell instead). The popup lies inside the area.
pub fn centered_rect(percent_x: u16, percent_y: u16, area: Rect) -> (r: Rect)
    requires
        area.x + area.width <= u16::MAX,
        area.y + area.height <= u16::MAX,
    ensures
        r.width == popup_extent(area.width, percent_x, 60),
        r.height == popup_extent(area.height, percent_y, 18),
        r.x == area.x + (area.width - r.width) / 2,
        r.y == area.y + (area.height - r.height) / 2,
        area.x <= r.x,
        r.x + r.width <= area.x + area.width,
        area.y <= r.y,
        r.y + r.height <= area.y + area.height,
{
    let width = popup_extent_exec(area.width, percent_x, 60);
    let height = popup_extent_exec(area.height, percent_y, 18);
    Rect {
        x: area.x + (area.width - width) / 2,
        y: area.y + (area.height - height) / 2,
        width,
        height,
    }
}

/// The width of the query column in a history list of `width` columns:
/// at most `cap` on wide lists (leaving `reserve` columns), two fifths of
/// narrow ones, and at least 1.
pub open spec fn query_column_spec(width: usize, wide_from: usize, cap: usize, reserve: usize) -> usize {
    if width >= wide_from {
        let rest = width.saturating_sub(reserve);
        let rest1 = if rest < 1 {
            1
        } else {
            rest
        };
        if cap < rest1 {
            cap
        } else {
            rest1
        }
    } else {
        let two_fifths = sat_mul_usize(width, 2) / 5;
        let hi = if width < 1 {
            1
        } else {
            width
        };
        if two_fifths < 1 {
            1
        } else if two_fifths > hi {
            hi
        } else {
            two_fifths
        }
    }
}

fn query_column(width: usize, wide_from: usize, cap: usize, reserve: usize) -> (r: usize)
    ensures
        r == query_column_spec(width, wide_from, cap, reserve),
{
    if width >= wide_from {
        let rest = width.saturating_sub(reserve);
        let rest1 = if rest < 1 {
            1
        } else {
            rest
        };
        if cap < rest1 {
            cap
        } else {
            rest1
        }
    } else {
        let two_fifths = saturating_mul_usize(width, 2) / 5;
        let hi = if width < 1 {
            1
        } else {
            width
        };
        if two_fifths < 1 {
            1
        } else if two_fifths > hi {
            hi
        } else {
            two_fifths
        }
    }
}

/// The columns of the history drawer's rows for an inner width: the query
/// column and the summary column, each at least 1 wide.
pub fn drawer_columns(inner_width: usize) -> (r: (usize, usize))
    ensures
        r.0 == query_column_spec(inner_width, 70, 28, 10),
        r.1 == (if inner_width as int - (r.0 + 10) < 1 {
            1
        } else {
            inner_width - (r.0 + 10)
        }),
        r.0 >= 1,
        r.1 >= 1,
{
    let q = query_column(inner_width, 70, 28, 10);
    let rest = inner_width.saturating_sub(q.saturating_add(10));
    assert(q <= 28 || q <= inner_width || q == 1);
    let s = if rest < 1 {
        1
    } else {
        rest
    };
    (q, s)
}

/// The columns of the command-line history list for a content width and
/// the widest timestamp: the query column and the summary column.
pub fn history_columns(width: usize, timestamp_width: usize) -> (r: (usize, usize))
    requires
        timestamp_width + 10 <= usize::MAX,
        query_column_spec(width, 60, 24, (timestamp_width + 10) as usize) + timestamp_width + 10
            <= usize::MAX,
    ensures
        r.0 == query_column_spec(width, 60, 24, (timestamp_width + 10) as usize),
        r.1 == (if width as int - (r.0 + timestamp_width + 10) < 1 {
            1
        } else {
            width - (r.0 + timestamp_width + 10)
        }),
{
    let q = query_column(width, 60, 24, timestamp_width + 10);
    let rest = width.saturating_sub(q + timestamp_width + 10);
    let s = if rest < 1 {
        1
    } else {
        rest
    };
    (q, s)
}

/// The width of a command-line card: the terminal width less 4, kept
/// between 30 and 88.
pub open spec fn card_width_spec(terminal_width: usize) -> usize {
    let w = terminal_width.saturating_sub(4);
    if w < 30 {
        30
    } else if w > 88 {
        88
    } else {
        w
    }
}

/// The width of a command-line card.
pub fn card_width(terminal_width: usize) -> (r: usize)
    ensures
        r == card_width_spec(terminal_width),
        30 <= r <= 88,
{
    let w = terminal_width.saturating_sub(4);
    if w < 30 {
        30
    } else if w > 88 {
        88
    } else {
        w
    }
}

/// The width of a card's text: the card width less 6, at least 20.
pub fn content_width(terminal_width: usize) -> (r: usize)
    ensures
        r == (if card_width_spec(terminal_width) - 6 < 20 {
            20
        } else {
            card_width_spec(terminal_width) - 6
        }),
        20 <= r <= 82,
{
    let c = card_width(terminal_width);
    let w = c - 6;
    if w < 20 {
        20
    } else {
        w
    }
}

/// The length of the rule after a card's title: the card width less the
/// title and its frame, at least 2.
pub fn rule_length(title_width: usize, card_width: usize) -> (r: usize)
    ensures
        r == (if card_width as int - (title_width + 5) < 2 {
            2
        } else {
            card_width - (title_width + 5)
        }),
{
    let rest = card_width.saturating_sub(title_width.saturating_add(5));
    if rest < 2 {
        2
    } else {
        rest
    }
}

/// The length of a card's bottom rule: the card width less 1, at least 2.
pub fn footer_length(card_width: usize) -> (r: usize)
    ensures
        r == (if card_width as int - 1 < 2 {
            2
        } else {
            card_width - 1
        }),
{
    let rest = card_width.saturating_sub(1);
    if rest < 2 {
        2
    } else {
        rest
    }
}

} // verus!

verus! {

/// The smaller of two numbers.
pub open spec fn min_int(a: int, b: int) -> int {
    if a < b {
        a
    } else {
        b
    }
}

/// Where the terminal cursor goes in the input pane's inner area: after the
/// display width of the text before the cursor on its row, and on the
/// cursor's row, both kept inside the area.
pub open spec fn cursor_position_spec(inner: Rect, before: Seq<char>, row: usize) -> (int, int) {
    (
        inner.x + min_int(crate::width::width_sum(before) as int, inner.width.saturating_sub(1) as int),
        inner.y + min_int((row as u16) as int, inner.height.saturating_sub(1) as int),
    )
}

/// The cell of the terminal cursor for the input pane, where `before` is
/// the text of the cursor's row in front of the cursor and `row` the
/// cursor's row.
pub fn cursor_position(inner: Rect, before: &[char], row: usize) -> (r: (u16, u16))
    requires
        inner.width == 0 || inner.x + inner.width - 1 <= u16::MAX,
        inner.height == 0 || inner.y + inner.height - 1 <= u16::MAX,
        before@.len() <= usize::MAX / 4,
    ensures
        (r.0 as int, r.1 as int) == cursor_position_spec(inner, before@, row),
{
    let n = before.len();
    let mut w: usize = 0;
    for i in 0..n
        invariant
            n == before@.len() <= usize::MAX / 4,
            w == crate::width::width_sum(before@.take(i as int)),
            w <= 3 * i,
    {
        assert(before@.take(i + 1).drop_last() == before@.take(i as int));
        let c = crate::width::char_columns(before[i]);
        w = w + c;
    }
    assert(before@.take(n as int) == before@);
    let max_x = inner.width.saturating_sub(1);
    let dx: u16 = if w < max_x as usize {
        w as u16
    } else {
        max_x
    };
    let max_y = inner.height.saturating_sub(1);
    let r16 = row as u16;
    let dy: u16 = if r16 < max_y {
        r16
    } else {
        max_y
    };
    (inner.x + dx, inner.y + dy)
}

/// The most the result pane scrolls: the wrapped line count less the
/// visible height, capped to `u16::MAX`.
pub open spec fn max_scroll_spec(line_count: usize, viewport_height: u16) -> u16 {
    let over = line_count.saturating_sub(viewport_height as usize);
    if over > u16::MAX as usize {
        u16::MAX
    } else {
        over as u16
    }
}

/// Whether the result pane shows a scrollable result, whose offset is then
/// kept within the content: only when no search runs, no error is shown and
/// a result is there (the waiting, error and welcome texts do not scroll).
pub fn result_scrolls(s: &AppState) -> (r: bool)
    ensures
        r == (!s.is_searching && s.error_message is None && s.current_result is Some),
{
    !s.is_searching && s.error_message.is_none() && s.current_result.is_some()
}

/// The scroll offset kept within what the content allows.
pub fn clamp_scroll(offset: u16, line_count: usize, viewport_height: u16) -> (r: u16)
    ensures
        r == (if offset < max_scroll_spec(line_count, viewport_height) {
            offset
        } else {
            max_scroll_spec(line_count, viewport_height)
        }),
{
    let over = line_count.saturating_sub(viewport_height as usize);
    let max = if over > u16::MAX as usize {
        u16::MAX
    } else {
        over as u16
    };
    if offset < max {
        offset
    } else {
        max
    }
}

} // verus!

