//! The spinner: point count, repaint requests, and showing.

use uikit::input::InputState;
use uikit::response::LayoutCursor;
use uikit::response::LayoutDirection;
use uikit::response::WidgetType;
use uikit::spinner::Spinner;
use uikit::Rect;
use uikit::Rgba;
use uikit::Vec2;

fn cursor_at(x: i64, y: i64) -> LayoutCursor {
    LayoutCursor {
        next_pos: Vec2 { x, y },
        direction: LayoutDirection::TopDown,
        item_spacing: Vec2 { x: 8, y: 6 },
    }
}

#[test]
fn forty_point_polyline_at_radius_forty() {
    // A rect of height 84 gives radius 84/2 - 2 = 40, inside the clamp
    // range, so the polyline gets exactly 40 points, and a repaint is
    // requested every visible frame.
    let rect = Rect {
        min: Vec2 { x: 0, y: 0 },
        max: Vec2 { x: 84, y: 84 },
    };
    let p = Spinner::new().paint_at(rect, true, Rgba::white()).unwrap();
    assert_eq!(p.radius, 40);
    assert_eq!(p.n_points, 40);
    assert!(p.repaint_requested);
    assert_eq!(p.center, Vec2 { x: 42, y: 42 });
    assert_eq!(p.stroke_width, 3);
}

#[test]
fn point_count_clamped() {
    // Tiny radius clamps up to 8 points.
    let rect = Rect {
        min: Vec2 { x: 0, y: 0 },
        max: Vec2 { x: 10, y: 10 },
    };
    let p = Spinner::new().paint_at(rect, true, Rgba::white()).unwrap();
    assert_eq!(p.n_points, 8);
    // Huge radius clamps down to 128.
    let rect = Rect {
        min: Vec2 { x: 0, y: 0 },
        max: Vec2 { x: 600, y: 600 },
    };
    let p = Spinner::new().paint_at(rect, true, Rgba::white()).unwrap();
    assert_eq!(p.n_points, 128);
}

#[test]
fn invisible_spinner_paints_nothing() {
    let rect = Rect {
        min: Vec2 { x: 0, y: 0 },
        max: Vec2 { x: 84, y: 84 },
    };
    assert!(Spinner::new().paint_at(rect, false, Rgba::white()).is_none());
}

#[test]
fn spinner_color_and_fallback() {
    let rect = Rect {
        min: Vec2 { x: 0, y: 0 },
        max: Vec2 { x: 84, y: 84 },
    };
    let fallback = Rgba::new(200, 200, 200, 255);
    let p = Spinner::new().paint_at(rect, true, fallback).unwrap();
    assert_eq!(p.color, fallback);
    let p = Spinner::new()
        .color(Rgba::new(10, 20, 30, 255))
        .paint_at(rect, true, fallback)
        .unwrap();
    assert_eq!(p.color, Rgba::new(10, 20, 30, 255));
}

#[test]
fn show_reserves_square() {
    let mut cursor = cursor_at(5, 5);
    let (r, paint) = Spinner::new().size(84).show(
        18,
        Rgba::white(),
        &mut cursor,
        &InputState::idle(),
        true,
        true,
    );
    assert_eq!(r.rect.min, Vec2 { x: 5, y: 5 });
    assert_eq!(r.rect.max, Vec2 { x: 89, y: 89 });
    assert_eq!(r.widget_type, WidgetType::ProgressIndicator);
    let p = paint.unwrap();
    assert_eq!(p.n_points, 40);
    assert!(p.repaint_requested);
    // Without an explicit size the style's interact height is used.
    let mut cursor = cursor_at(0, 0);
    let (r, _) = Spinner::new().show(
        18,
        Rgba::white(),
        &mut cursor,
        &InputState::idle(),
        true,
        true,
    );
    assert_eq!(r.rect.max, Vec2 { x: 18, y: 18 });
}
