//! The virtualized scroll region: row ranges, clamping, scroll-to and
//! stick-to-end.

use uikit::scroll::clamp_offset;
use uikit::scroll::rows_in_viewport;
use uikit::scroll::scroll_to_offset;
use uikit::scroll::show_rows_frame;
use uikit::scroll::Align;
use uikit::scroll::ScrollAxis;
use uikit::scroll::ScrollRequest;
use uikit::scroll::ScrollState;
use uikit::Vec2;

#[test]
fn row_range_mid_viewport() {
    // Viewport y in [500, 800] over 10000 rows of height 20.
    let (first, last) = rows_in_viewport(500, 800, 20, 10000);
    assert_eq!(first, 25);
    assert_eq!(last, 41);
}

#[test]
fn row_range_clamps_to_content() {
    let (first, last) = rows_in_viewport(0, 300, 20, 10);
    assert_eq!(first, 0);
    assert_eq!(last, 10);
    // Viewport entirely below the content.
    let (first, last) = rows_in_viewport(1000, 1300, 20, 10);
    assert_eq!(first, 10);
    assert_eq!(last, 10);
}

#[test]
fn row_range_negative_viewport() {
    let (first, last) = rows_in_viewport(-100, -10, 20, 10000);
    assert_eq!(first, 0);
    assert_eq!(last, 0);
    // Straddling zero still includes the first rows.
    let (first, last) = rows_in_viewport(-100, 50, 20, 10000);
    assert_eq!(first, 0);
    assert_eq!(last, 4);
}

#[test]
fn row_range_no_rows() {
    let (first, last) = rows_in_viewport(0, 300, 20, 0);
    assert_eq!(first, 0);
    assert_eq!(last, 0);
}

#[test]
fn row_range_includes_boundary_rows() {
    // Row 24 spans [480, 500): it only touches the viewport edge at 500,
    // while row 25 is the first intersecting one; the slack row past the
    // bottom (row 40, spanning [800, 820)) is included.
    let (first, last) = rows_in_viewport(500, 800, 20, 10000);
    for row in 25..40 {
        assert!(first <= row && row < last);
    }
}

#[test]
fn offset_clamped_to_extent() {
    assert_eq!(clamp_offset(700, 500, 200), 300);
    assert_eq!(clamp_offset(-5, 500, 200), 0);
    assert_eq!(clamp_offset(100, 500, 200), 100);
    // Content smaller than the viewport pins the offset at zero.
    assert_eq!(clamp_offset(50, 100, 200), 0);
}

#[test]
fn scroll_to_alignments() {
    // Item spanning [500, 520] in a 200 tall viewport.
    assert_eq!(scroll_to_offset(0, 500, 520, Some(Align::Min), 200), 500);
    assert_eq!(scroll_to_offset(0, 500, 520, Some(Align::Center), 200), 410);
    assert_eq!(scroll_to_offset(0, 500, 520, Some(Align::Max), 200), 320);
}

#[test]
fn bring_into_view_minimal_adjustment() {
    // Already fully visible: no movement.
    assert_eq!(scroll_to_offset(490, 500, 520, None, 200), 490);
    // Above the viewport: scroll up just enough.
    assert_eq!(scroll_to_offset(600, 500, 520, None, 200), 500);
    // Below the viewport: scroll down just enough.
    assert_eq!(scroll_to_offset(0, 500, 520, None, 200), 320);
}

#[test]
fn explicit_offset_and_delta() {
    let s = ScrollAxis::new(false);
    let s = s.step(ScrollRequest::ToOffset(120), 1000, 200);
    assert_eq!(s.offset, 120);
    let s = s.step(ScrollRequest::ByDelta(64), 1000, 200);
    assert_eq!(s.offset, 184);
    let s = s.step(ScrollRequest::ByDelta(-300), 1000, 200);
    assert_eq!(s.offset, 0);
    // A request past the end clamps to the extent.
    let s = s.step(ScrollRequest::ToOffset(5000), 1000, 200);
    assert_eq!(s.offset, 800);
}

#[test]
fn stick_to_end_follows_growth() {
    // Outer height 200, rows of height 20 entering one per frame: once
    // content reaches 500, the offset sits at 300.
    let mut s = ScrollAxis::new(true);
    for n_rows in 1..=25i64 {
        s = s.step(ScrollRequest::Idle, 20 * n_rows, 200);
    }
    assert_eq!(s.offset, 300);
}

#[test]
fn stick_to_end_suppressed_by_manual_scroll() {
    let mut s = ScrollAxis::new(true);
    s = s.step(ScrollRequest::Idle, 500, 200);
    assert_eq!(s.offset, 300);
    // The user scrolls away: growth no longer drags the view down.
    s = s.step(ScrollRequest::ToOffset(50), 500, 200);
    assert_eq!(s.offset, 50);
    s = s.step(ScrollRequest::Idle, 600, 200);
    assert_eq!(s.offset, 50);
    // Scrolling back to the end re-arms it.
    s = s.step(ScrollRequest::ToOffset(400), 600, 200);
    assert_eq!(s.offset, 400);
    s = s.step(ScrollRequest::Idle, 700, 200);
    assert_eq!(s.offset, 500);
}

#[test]
fn stick_to_end_disabled() {
    let mut s = ScrollAxis::new(false);
    s = s.step(ScrollRequest::Idle, 500, 200);
    assert_eq!(s.offset, 0);
}

#[test]
fn scroll_to_item_through_step() {
    // Track item 25 of 500 rows of height 20, centered in a 200 viewport:
    // the item spans [480, 500], its center 490 sits at the viewport's
    // center, so the offset becomes 390.
    let s = ScrollAxis::new(false);
    let s = s.step(
        ScrollRequest::ToSpan(480, 500, Some(Align::Center)),
        10_000,
        200,
    );
    assert_eq!(s.offset, 390);
}

#[test]
fn show_rows_whole_frame() {
    // A row-mode region: 10000 rows of height 20, outer 300 tall, scrolled
    // to offset 500.
    let state = ScrollState::new(false, false);
    let outer = Vec2 { x: 400, y: 300 };
    let (state, (first, last)) =
        show_rows_frame(state, outer, 20, 10000, ScrollRequest::ToOffset(500));
    assert_eq!(state.y.offset, 500);
    assert_eq!(first, 25);
    assert_eq!(last, 41);
    // The full logical extent is reserved: the maximum offset reflects it.
    assert_eq!(state.y.last_max, 20 * 10000 - 300);
}

#[test]
fn viewport_from_state() {
    let state = ScrollState::new(false, false);
    let state = state.step(
        ScrollRequest::ToOffset(40),
        ScrollRequest::ToOffset(500),
        Vec2 { x: 1000, y: 2000 },
        Vec2 { x: 400, y: 300 },
    );
    let vp = state.viewport(Vec2 { x: 400, y: 300 });
    assert_eq!(vp.min, Vec2 { x: 40, y: 500 });
    assert_eq!(vp.max, Vec2 { x: 440, y: 800 });
}
