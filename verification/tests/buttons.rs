//! The button widget end to end: builders, showing, frame appearance,
//! content layout, tinting, and image errors.

use uikit::button::Button;
use uikit::button::select_frame_appearance;
use uikit::button::layout_button_content;
use uikit::button::ShapedContent;
use uikit::color::resolve_image_tint;
use uikit::image::Image;
use uikit::image::LoadResult;
use uikit::input::InputState;
use uikit::response::LayoutCursor;
use uikit::response::LayoutDirection;
use uikit::response::WidgetType;
use uikit::style::CornerRadius;
use uikit::style::CursorIcon;
use uikit::style::Galley;
use uikit::style::SelectionVisuals;
use uikit::style::Spacing;
use uikit::style::Stroke;
use uikit::style::TextStyle;
use uikit::style::Visuals;
use uikit::style::WidgetText;
use uikit::style::WrapMode;
use uikit::Rect;
use uikit::Rgba;
use uikit::Sense;
use uikit::Vec2;

fn spacing() -> Spacing {
    Spacing {
        button_padding: Vec2 { x: 4, y: 2 },
        item_spacing: Vec2 { x: 8, y: 6 },
        icon_spacing: 4,
        interact_size: Vec2 { x: 40, y: 18 },
    }
}

fn visuals() -> Visuals {
    Visuals {
        weak_bg_fill: Rgba::new(60, 60, 60, 255),
        bg_stroke: Stroke::new(1, Rgba::new(90, 90, 90, 255)),
        corner_radius: CornerRadius::same(3),
        expansion: 1,
        text_color: Rgba::new(220, 220, 220, 255),
    }
}

fn selection() -> SelectionVisuals {
    SelectionVisuals {
        bg_fill: Rgba::new(0, 92, 128, 255),
        stroke: Stroke::new(1, Rgba::new(192, 222, 255, 255)),
    }
}

fn cursor_at(x: i64, y: i64) -> LayoutCursor {
    LayoutCursor {
        next_pos: Vec2 { x, y },
        direction: LayoutDirection::TopDown,
        item_spacing: Vec2 { x: 8, y: 6 },
    }
}

fn shaped_text(w: i64, h: i64) -> ShapedContent {
    ShapedContent {
        galley: Some(Galley {
            size: Vec2 { x: w, y: h },
            text: String::from("Click me"),
        }),
        right_galley: None,
        text_font_height: 18,
        right_font_height: 18,
    }
}

#[test]
fn builders_set_fields() {
    let b = Button::new(WidgetText::new(String::from("hi")));
    assert_eq!(b.text.as_ref().unwrap().text, "hi");
    assert!(b.image.is_none());
    assert!(b.right_text.text.is_empty());
    assert_eq!(b.sense, Sense::click());
    assert_eq!(b.min_size, Vec2 { x: 0, y: 0 });
    assert!(!b.selected && !b.small);

    let b = b
        .wrap()
        .fill(Rgba::new(1, 2, 3, 255))
        .stroke(Stroke::new(2, Rgba::new(9, 9, 9, 255)))
        .sense(Sense::drag())
        .min_size(Vec2 { x: 5, y: 7 })
        .corner_radius(CornerRadius::same(4))
        .image_tint_follows_text_color(true)
        .selected(true);
    assert_eq!(b.wrap_mode, Some(WrapMode::Wrap));
    assert_eq!(b.fill, Some(Rgba::new(1, 2, 3, 255)));
    assert_eq!(b.stroke, Some(Stroke::new(2, Rgba::new(9, 9, 9, 255))));
    // Setting a fill or stroke turns the frame on.
    assert_eq!(b.frame, Some(true));
    assert_eq!(b.sense, Sense::drag());
    assert_eq!(b.min_size, Vec2 { x: 5, y: 7 });
    assert_eq!(b.corner_radius, Some(CornerRadius::same(4)));
    assert!(b.image_tint_follows_text_color);
    assert!(b.selected);

    let b = b.truncate();
    assert_eq!(b.wrap_mode, Some(WrapMode::Truncate));
    let b = b.wrap_mode(WrapMode::Extend).frame(false);
    assert_eq!(b.wrap_mode, Some(WrapMode::Extend));
    assert_eq!(b.frame, Some(false));
    let b = b.rounding(CornerRadius::same(9));
    assert_eq!(b.corner_radius, Some(CornerRadius::same(9)));
}

#[test]
fn small_switches_text_to_body_style() {
    let b = Button::new(WidgetText::new(String::from("x"))).small();
    assert!(b.small);
    assert_eq!(b.text.unwrap().style, Some(TextStyle::Body));
}

#[test]
fn shortcut_text_is_weak() {
    let b = Button::new(WidgetText::new(String::from("Save")))
        .shortcut_text(WidgetText::new(String::from("Ctrl+S")));
    assert_eq!(b.right_text.text, "Ctrl+S");
    assert!(b.right_text.weak);
    let b = Button::new(WidgetText::new(String::from("Save")))
        .right_text(WidgetText::new(String::from("beta")));
    assert!(!b.right_text.weak);
}

#[test]
fn show_sizes_and_clicks() {
    // Scenario: "Click me", frame on, padding 4x2, line height 18, text
    // 60x18; a press/release cycle inside the rect clicks exactly once.
    let release_inside = InputState {
        pointer: Some(Vec2 { x: 30, y: 30 }),
        press_origin: Some(Vec2 { x: 30, y: 30 }),
        released: true,
        dragging: false,
    };
    let mut cursor = cursor_at(10, 20);
    let b = Button::new(WidgetText::new(String::from("Click me")));
    let (r, _) = b.show(
        shaped_text(60, 18),
        Vec2 { x: 500, y: 400 },
        &spacing(),
        &visuals(),
        &selection(),
        true,
        None,
        &mut cursor,
        &release_inside,
        true,
    );
    assert_eq!(r.rect.min, Vec2 { x: 10, y: 20 });
    assert_eq!(r.rect.max, Vec2 { x: 78, y: 42 });
    assert!(r.clicked);
    assert_eq!(r.widget_type, WidgetType::Button);
    assert_eq!(r.label.as_deref(), Some("Click me"));
    // The frame after the release no longer clicks.
    let mut cursor = cursor_at(10, 20);
    let b = Button::new(WidgetText::new(String::from("Click me")));
    let (r, _) = b.show(
        shaped_text(60, 18),
        Vec2 { x: 500, y: 400 },
        &spacing(),
        &visuals(),
        &selection(),
        true,
        None,
        &mut cursor,
        &InputState::idle(),
        true,
    );
    assert!(!r.clicked);
}

#[test]
fn show_disabled_keeps_layout() {
    let hover_inside = InputState {
        pointer: Some(Vec2 { x: 30, y: 30 }),
        press_origin: None,
        released: false,
        dragging: false,
    };
    let mut cursor = cursor_at(10, 20);
    let b = Button::new(WidgetText::new(String::from("Click me")));
    let (r, _) = b.show(
        shaped_text(60, 18),
        Vec2 { x: 500, y: 400 },
        &spacing(),
        &visuals(),
        &selection(),
        true,
        None,
        &mut cursor,
        &hover_inside,
        false,
    );
    assert_eq!(r.rect.max, Vec2 { x: 78, y: 42 });
    assert!(!r.hovered && !r.clicked);
}

#[test]
fn frame_appearance_priorities() {
    // Selected wins over everything: selection palette, no expansion,
    // square corners.
    let a = select_frame_appearance(true, true, None, None, None, &visuals(), &selection());
    assert!(a.paint_frame);
    assert_eq!(a.expansion, 0);
    assert_eq!(a.fill, selection().bg_fill);
    assert_eq!(a.stroke, selection().stroke);
    assert_eq!(a.corner_radius, CornerRadius::zero());
    // Framed: the interaction-resolved visuals.
    let a = select_frame_appearance(false, true, None, None, None, &visuals(), &selection());
    assert_eq!(a.expansion, 1);
    assert_eq!(a.fill, visuals().weak_bg_fill);
    assert_eq!(a.stroke, visuals().bg_stroke);
    assert_eq!(a.corner_radius, CornerRadius::same(3));
    // No frame: nothing painted.
    let a = select_frame_appearance(false, false, None, None, None, &visuals(), &selection());
    assert!(!a.paint_frame);
    // Explicit overrides win in every case.
    let a = select_frame_appearance(
        true,
        true,
        Some(Rgba::new(7, 7, 7, 255)),
        Some(Stroke::new(5, Rgba::new(8, 8, 8, 255))),
        Some(CornerRadius::same(2)),
        &visuals(),
        &selection(),
    );
    assert_eq!(a.fill, Rgba::new(7, 7, 7, 255));
    assert_eq!(a.stroke, Stroke::new(5, Rgba::new(8, 8, 8, 255)));
    assert_eq!(a.corner_radius, CornerRadius::same(2));
}

#[test]
fn content_layout_positions() {
    let rect = Rect {
        min: Vec2 { x: 10, y: 20 },
        max: Vec2 { x: 140, y: 44 },
    };
    let l = layout_button_content(
        rect,
        Vec2 { x: 4, y: 2 },
        Some(Vec2 { x: 20, y: 20 }),
        Some(Vec2 { x: 60, y: 18 }),
        Some(Vec2 { x: 30, y: 14 }),
        4,
    );
    // Image flush left inside the padding, vertically centered.
    let ir = l.image_rect.unwrap();
    assert_eq!(ir.min, Vec2 { x: 14, y: 22 });
    assert_eq!(ir.max, Vec2 { x: 34, y: 42 });
    // Text after the image plus the icon gap.
    let tp = l.text_pos.unwrap();
    assert_eq!(tp.x, 14 + 20 + 4);
    assert_eq!(tp.y, 23);
    // Trailing text anchored to the right edge.
    let rp = l.right_pos.unwrap();
    assert_eq!(rp.x, 140 - 4 - 30);
    assert_eq!(rp.y, 25);
}

#[test]
fn sole_text_is_centered() {
    let rect = Rect {
        min: Vec2 { x: 0, y: 0 },
        max: Vec2 { x: 100, y: 30 },
    };
    let l = layout_button_content(
        rect,
        Vec2 { x: 4, y: 2 },
        None,
        Some(Vec2 { x: 60, y: 18 }),
        None,
        4,
    );
    let tp = l.text_pos.unwrap();
    // (100 - 8 - 60) / 2 = 16 of slack inside the padding.
    assert_eq!(tp.x, 4 + 16);
    assert_eq!(tp.y, 2 + 4);
}

#[test]
fn white_tint_keeps_text_color() {
    // The gamma-space multiply runs in the paint backend; multiplying by
    // opaque white must hand back the other color unchanged.
    let text_color = Rgba::new(100, 50, 25, 255);
    let tinted = resolve_image_tint(true, Rgba::white(), text_color);
    assert_eq!(tinted, text_color);
    // Without the coupling the tint is untouched.
    let plain = resolve_image_tint(false, Rgba::white(), text_color);
    assert_eq!(plain, Rgba::white());
    // A black tint extinguishes every channel.
    let dark = resolve_image_tint(true, Rgba::new(0, 0, 0, 0), text_color);
    assert_eq!(dark, Rgba::new(0, 0, 0, 0));
}

#[test]
fn image_button_show_surfaces_load_error() {
    let img = Image {
        load: LoadResult::Failed(String::from("not found")),
        alt_text: Some(String::from("a cat")),
        tint: Rgba::white(),
        show_loading_spinner: true,
    };
    let mut cursor = cursor_at(0, 0);
    let b = Button::image(img);
    let shaped = ShapedContent {
        galley: None,
        right_galley: None,
        text_font_height: 18,
        right_font_height: 18,
    };
    let (r, paint) = b.show(
        shaped,
        Vec2 { x: 500, y: 400 },
        &spacing(),
        &visuals(),
        &selection(),
        true,
        None,
        &mut cursor,
        &InputState::idle(),
        true,
    );
    assert_eq!(r.image_error.as_deref(), Some("not found"));
    // With no galley the accessibility label falls back to the alt text.
    assert_eq!(r.label.as_deref(), Some("a cat"));
    assert_eq!(paint.show_loading_spinner, Some(true));
    assert!(paint.image_tint.is_some());
}

#[test]
fn image_and_text_constructors() {
    let img = Image::new(LoadResult::Pending);
    let b = Button::image_and_text(img.clone(), WidgetText::new(String::from("Open")));
    assert!(b.image.is_some());
    assert_eq!(b.text.as_ref().unwrap().text, "Open");
    let b = Button::opt_image_and_text(Some(img), None);
    assert!(b.image.is_some() && b.text.is_none());
    let b = Button::opt_image_and_text(None, None);
    assert!(b.image.is_none() && b.text.is_none());
}

#[test]
fn show_with_trailing_text() {
    // A menu button: label plus a shortcut hint anchored to the right.
    let b = Button::new(WidgetText::new(String::from("Save")))
        .shortcut_text(WidgetText::new(String::from("Ctrl+S")));
    let shaped = ShapedContent {
        galley: Some(Galley {
            size: Vec2 { x: 40, y: 18 },
            text: String::from("Save"),
        }),
        right_galley: Some(Galley {
            size: Vec2 { x: 50, y: 18 },
            text: String::from("Ctrl+S"),
        }),
        text_font_height: 18,
        right_font_height: 18,
    };
    let mut cursor = cursor_at(0, 0);
    let (r, paint) = b.show(
        shaped,
        Vec2 { x: 500, y: 400 },
        &spacing(),
        &visuals(),
        &selection(),
        true,
        None,
        &mut cursor,
        &InputState::idle(),
        true,
    );
    // 40 + 8 (gap) + 50 + 8 (padding): the trailing text keeps its full
    // measured width.
    assert_eq!(r.rect.max.x - r.rect.min.x, 106);
    let rp = paint.layout.right_pos.unwrap();
    assert_eq!(rp.x, r.rect.max.x - 4 - 50);
}

#[test]
fn hovered_button_requests_cursor_icon() {
    let hover_inside = InputState {
        pointer: Some(Vec2 { x: 30, y: 30 }),
        press_origin: None,
        released: false,
        dragging: false,
    };
    let mut cursor = cursor_at(10, 20);
    let b = Button::new(WidgetText::new(String::from("Click me")));
    let (_, paint) = b.show(
        shaped_text(60, 18),
        Vec2 { x: 500, y: 400 },
        &spacing(),
        &visuals(),
        &selection(),
        true,
        Some(CursorIcon::PointingHand),
        &mut cursor,
        &hover_inside,
        true,
    );
    assert_eq!(paint.cursor_icon, Some(CursorIcon::PointingHand));
    // Not hovered: no cursor request.
    let mut cursor = cursor_at(10, 20);
    let b = Button::new(WidgetText::new(String::from("Click me")));
    let (_, paint) = b.show(
        shaped_text(60, 18),
        Vec2 { x: 500, y: 400 },
        &spacing(),
        &visuals(),
        &selection(),
        true,
        Some(CursorIcon::PointingHand),
        &mut cursor,
        &InputState::idle(),
        true,
    );
    assert_eq!(paint.cursor_icon, None);
}

#[test]
fn image_ready_uses_loader_size() {
    let img = Image {
        load: LoadResult::Ready(Vec2 { x: 24, y: 16 }),
        alt_text: None,
        tint: Rgba::white(),
        show_loading_spinner: false,
    };
    let mut cursor = cursor_at(0, 0);
    let b = Button::image(img);
    let shaped = ShapedContent {
        galley: None,
        right_galley: None,
        text_font_height: 18,
        right_font_height: 18,
    };
    let (r, _) = b.show(
        shaped,
        Vec2 { x: 500, y: 400 },
        &spacing(),
        &visuals(),
        &selection(),
        true,
        None,
        &mut cursor,
        &InputState::idle(),
        true,
    );
    // Width: image 24 plus padding 8; height: the image's 16 plus padding
    // 4, already past the interactive minimum of 18.
    assert_eq!(r.rect.max.x - r.rect.min.x, 32);
    assert_eq!(r.rect.max.y - r.rect.min.y, 20);
    assert!(r.image_error.is_none());
}
