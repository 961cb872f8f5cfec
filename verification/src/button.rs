//! The button-class widget: builder-pattern configuration, the sizing
//! policy, and the paint composer.

use vstd::prelude::*;
use crate::color::Rgba;
use crate::color::gamma_mul_channel;
use crate::color::resolve_image_tint;
use crate::geom::Rect;
use crate::geom::SIZE_LIMIT;
use crate::geom::Vec2;
use crate::geom::max_i64;
use crate::image::Image;
use crate::image::LoadResult;
use crate::input::InputState;
use crate::response::LayoutCursor;
use crate::response::Response;
use crate::response::WidgetType;
use crate::response::spec_clicked;
use crate::response::spec_dragged;
use crate::response::spec_hovered;
use crate::sense::Sense;
use crate::style::CornerRadius;
use crate::style::CursorIcon;
use crate::style::Galley;
use crate::style::SelectionVisuals;
use crate::style::Spacing;
use crate::style::Stroke;
use crate::style::TextStyle;
use crate::style::Visuals;
use crate::style::WidgetText;
use crate::style::WrapMode;

verus! {

/// A clickable button: the per-call configuration of one widget instance,
/// built by chaining the methods below and consumed when it is shown.
#[derive(Clone, PartialEq, Eq, Debug)]
pub struct Button {
    pub image: Option<Image>,
    pub text: Option<WidgetText>,
    /// Shown at the far end of the main axis; empty means absent.
    pub right_text: WidgetText,
    pub wrap_mode: Option<WrapMode>,
    /// `None` means the fill the style resolves for the interaction state.
    pub fill: Option<Rgba>,
    /// `None` means the stroke the style resolves for the interaction state.
    pub stroke: Option<Stroke>,
    pub sense: Sense,
    pub small: bool,
    /// `None` means the style's default for button frames.
    pub frame: Option<bool>,
    pub min_size: Vec2,
    pub corner_radius: Option<CornerRadius>,
    pub selected: bool,
    pub image_tint_follows_text_color: bool,
}

impl Button {
    /// The defaults every builder starts from, given its image and text.
    pub open spec fn spec_is_default_with(
        b: Button,
        image: Option<Image>,
        text: Option<WidgetText>,
    ) -> bool {
        &&& b.image == image
        &&& b.text == text
        &&& b.right_text.spec_is_empty()
        &&& !b.right_text.weak
        &&& b.right_text.style is None
        &&& b.wrap_mode is None
        &&& b.fill is None
        &&& b.stroke is None
        &&& b.sense == (Sense { click: true, drag: false, focusable: true })
        &&& !b.small
        &&& b.frame is None
        &&& b.min_size == (Vec2 { x: 0, y: 0 })
        &&& b.corner_radius is None
        &&& !b.selected
        &&& !b.image_tint_follows_text_color
    }

    /// A button showing `text`.
    pub fn new(text: WidgetText) -> (b: Self)
        ensures
            Self::spec_is_default_with(b, None, Some(text)),
    {
        Self::opt_image_and_text(None, Some(text))
    }

    /// A button showing only an image.
    pub fn image(image: Image) -> (b: Self)
        ensures
            Self::spec_is_default_with(b, Some(image), None),
    {
        Self::opt_image_and_text(Some(image), None)
    }

    /// A button with an image to the left of the text.
    pub fn image_and_text(image: Image, text: WidgetText) -> (b: Self)
        ensures
            Self::spec_is_default_with(b, Some(image), Some(text)),
    {
        Self::opt_image_and_text(Some(image), Some(text))
    }

    pub fn opt_image_and_text(image: Option<Image>, text: Option<WidgetText>) -> (b: Self)
        ensures
            Self::spec_is_default_with(b, image, text),
    {
        Button {
            image,
            text,
            right_text: WidgetText::empty(),
            wrap_mode: None,
            fill: None,
            stroke: None,
            sense: Sense::click(),
            small: false,
            frame: None,
            min_size: Vec2 { x: 0, y: 0 },
            corner_radius: None,
            selected: false,
            image_tint_follows_text_color: false,
        }
    }

    /// Set the wrap mode for the text.
    pub fn wrap_mode(self, wrap_mode: WrapMode) -> (b: Self)
        ensures
            b == (Button { wrap_mode: Some(wrap_mode), ..self }),
    {
        Button { wrap_mode: Some(wrap_mode), ..self }
    }

    /// Let the text wrap onto further lines.
    pub fn wrap(self) -> (b: Self)
        ensures
            b == (Button { wrap_mode: Some(WrapMode::Wrap), ..self }),
    {
        Button { wrap_mode: Some(WrapMode::Wrap), ..self }
    }

    /// Keep the text on one line, truncating with an ellipsis.
    pub fn truncate(self) -> (b: Self)
        ensures
            b == (Button { wrap_mode: Some(WrapMode::Truncate), ..self }),
    {
        Button { wrap_mode: Some(WrapMode::Truncate), ..self }
    }

    /// Override the background fill color; also turns the frame on.
    pub fn fill(self, fill: Rgba) -> (b: Self)
        ensures
            b == (Button { fill: Some(fill), frame: Some(true), ..self }),
    {
        Button { fill: Some(fill), frame: Some(true), ..self }
    }

    /// Override the frame stroke; also turns the frame on.
    pub fn stroke(self, stroke: Stroke) -> (b: Self)
        ensures
            b == (Button { stroke: Some(stroke), frame: Some(true), ..self }),
    {
        Button { stroke: Some(stroke), frame: Some(true), ..self }
    }

    /// Make this a small button, suitable for embedding into text: the text
    /// falls back to the body style and vertical padding is dropped.
    pub fn small(self) -> (b: Self)
        ensures
            b.small,
            self.text is Some ==> b.text == Some(
                WidgetText {
                    style: Some(TextStyle::Body),
                    ..self.text->Some_0
                },
            ),
            self.text is None ==> b.text is None,
            b.image == self.image,
            b.right_text == self.right_text,
            b.wrap_mode == self.wrap_mode,
            b.fill == self.fill,
            b.stroke == self.stroke,
            b.sense == self.sense,
            b.frame == self.frame,
            b.min_size == self.min_size,
            b.corner_radius == self.corner_radius,
            b.selected == self.selected,
            b.image_tint_follows_text_color == self.image_tint_follows_text_color,
    {
        let text = match self.text {
            Some(t) => Some(t.text_style(TextStyle::Body)),
            None => None,
        };
        Button { text, small: true, ..self }
    }

    /// Turn the frame on or off explicitly.
    pub fn frame(self, frame: bool) -> (b: Self)
        ensures
            b == (Button { frame: Some(frame), ..self }),
    {
        Button { frame: Some(frame), ..self }
    }

    /// Which interactions the button tracks; by default it senses clicks.
    pub fn sense(self, sense: Sense) -> (b: Self)
        ensures
            b == (Button { sense, ..self }),
    {
        Button { sense, ..self }
    }

    /// Set the minimum size of the button.
    pub fn min_size(self, min_size: Vec2) -> (b: Self)
        ensures
            b == (Button { min_size, ..self }),
    {
        Button { min_size, ..self }
    }

    /// Set the rounding of the button's corners.
    pub fn corner_radius(self, corner_radius: CornerRadius) -> (b: Self)
        ensures
            b == (Button { corner_radius: Some(corner_radius), ..self }),
    {
        Button { corner_radius: Some(corner_radius), ..self }
    }

    /// Older name of [`Self::corner_radius`].
    pub fn rounding(self, corner_radius: CornerRadius) -> (b: Self)
        ensures
            b == (Button { corner_radius: Some(corner_radius), ..self }),
    {
        self.corner_radius(corner_radius)
    }

    /// Multiply the image tint by the resolved text color, coupling the
    /// image's appearance to the interaction state.
    pub fn image_tint_follows_text_color(self, image_tint_follows_text_color: bool) -> (b: Self)
        ensures
            b == (Button { image_tint_follows_text_color, ..self }),
    {
        Button { image_tint_follows_text_color, ..self }
    }

    /// Show a keyboard-shortcut hint on the right side, in weak color.
    pub fn shortcut_text(self, shortcut_text: WidgetText) -> (b: Self)
        ensures
            b.right_text == (WidgetText { weak: true, ..shortcut_text }),
            b == (Button { right_text: b.right_text, ..self }),
    {
        Button { right_text: shortcut_text.weak(), ..self }
    }

    /// Show some text on the right side of the button.
    pub fn right_text(self, right_text: WidgetText) -> (b: Self)
        ensures
            b == (Button { right_text, ..self }),
    {
        Button { right_text, ..self }
    }

    /// Mark this button as selected.
    pub fn selected(self, selected: bool) -> (b: Self)
        ensures
            b == (Button { selected, ..self }),
    {
        Button { selected, ..self }
    }
}

/// The measured footprints of a button's content, as the font and image
/// collaborators report them.
#[derive(Clone, Copy, PartialEq, Eq, Structural, Debug)]
pub struct ContentMetrics {
    /// Display size of the image, if the button has one.
    pub image_size: Option<Vec2>,
    /// Footprint of the primary text shaped at the computed wrap width.
    pub galley_size: Option<Vec2>,
    /// Line height of the primary text's font (or the default font).
    pub text_font_height: i64,
    /// Footprint of the trailing text shaped at unbounded width.
    pub right_size: Option<Vec2>,
    /// Line height of the trailing text's font.
    pub right_font_height: i64,
}

impl ContentMetrics {
    pub open spec fn wf(self) -> bool {
        &&& match self.image_size {
            Some(s) => s.small_extent(),
            None => true,
        }
        &&& match self.galley_size {
            Some(s) => s.small_extent(),
            None => true,
        }
        &&& match self.right_size {
            Some(s) => s.small_extent(),
            None => true,
        }
        &&& 0 <= self.text_font_height <= SIZE_LIMIT
        &&& 0 <= self.right_font_height <= SIZE_LIMIT
    }
}

/// The padding a button gets: none without a frame, the style's padding
/// with one, and no vertical padding on a small button.
pub open spec fn spec_button_padding(frame: bool, small: bool, style_padding: Vec2) -> Vec2 {
    Vec2 {
        x: if frame {
            style_padding.x
        } else {
            0
        },
        y: if frame && !small {
            style_padding.y
        } else {
            0
        },
    }
}

/// Resolve the button padding from the frame flag, the small flag and the
/// style's default. Without a frame the padding is exactly zero on both
/// axes, whatever the style says.
pub fn resolve_button_padding(frame: bool, small: bool, style_padding: Vec2) -> (r: Vec2)
    ensures
        r == spec_button_padding(frame, small, style_padding),
        !frame ==> r == (Vec2 { x: 0, y: 0 }),
        small ==> r.y == 0,
{
    let mut padding = if frame {
        style_padding
    } else {
        Vec2 { x: 0, y: 0 }
    };
    if small {
        padding.y = 0;
    }
    padding
}

/// The space offered to an image: a square derived from the text's line
/// height when there is text, else all the available space minus padding.
pub open spec fn spec_space_for_image(
    has_text: bool,
    text_font_height: i64,
    avail: Vec2,
    padding: Vec2,
) -> Vec2 {
    if has_text {
        Vec2 { x: text_font_height, y: text_font_height }
    } else {
        Vec2 {
            x: max_i64((avail.x - 2 * padding.x) as i64, 0),
            y: max_i64((avail.y - 2 * padding.y) as i64, 0),
        }
    }
}

pub fn space_for_image(has_text: bool, text_font_height: i64, avail: Vec2, padding: Vec2) -> (r:
    Vec2)
    requires
        avail.wf(),
        padding.small_extent(),
    ensures
        r == spec_space_for_image(has_text, text_font_height, avail, padding),
{
    if has_text {
        Vec2 { x: text_font_height, y: text_font_height }
    } else {
        Vec2 {
            x: crate::geom::max(avail.x - 2 * padding.x, 0),
            y: crate::geom::max(avail.y - 2 * padding.y, 0),
        }
    }
}

/// The wrap width offered to the primary text: the available width minus
/// padding, minus the image and its gap, minus the trailing text and its
/// gap. The trailing text is measured first at unbounded width and its full
/// width is subtracted here, so it wins space contention: the primary
/// text's wrap width shrinks and the trailing text is never reduced.
pub open spec fn spec_text_wrap_width(
    avail_w: i64,
    padding_x: i64,
    image_width: Option<i64>,
    icon_spacing: i64,
    right_width: Option<i64>,
    gap: i64,
) -> int {
    avail_w - 2 * padding_x - (match image_width {
        Some(w) => w + icon_spacing,
        None => 0,
    }) - (match right_width {
        Some(w) => gap + w,
        None => 0,
    })
}

pub fn text_wrap_width(
    avail_w: i64,
    padding_x: i64,
    image_width: Option<i64>,
    icon_spacing: i64,
    right_width: Option<i64>,
    gap: i64,
) -> (r: i64)
    requires
        -crate::geom::COORD_LIMIT <= avail_w <= crate::geom::COORD_LIMIT,
        0 <= padding_x <= SIZE_LIMIT,
        0 <= icon_spacing <= SIZE_LIMIT,
        0 <= gap <= SIZE_LIMIT,
        match image_width {
            Some(w) => 0 <= w <= SIZE_LIMIT,
            None => true,
        },
        match right_width {
            Some(w) => 0 <= w <= SIZE_LIMIT,
            None => true,
        },
    ensures
        r == spec_text_wrap_width(avail_w, padding_x, image_width, icon_spacing, right_width, gap),
{
    let mut width: i64 = avail_w - 2 * padding_x;
    match image_width {
        Some(w) => {
            width = width - (w + icon_spacing);
        },
        None => {},
    }
    match right_width {
        Some(w) => {
            width = width - (gap + w);
        },
        None => {},
    }
    width
}

/// The width the content accumulates left to right: image, gap, primary
/// text, gap, trailing text; absent parts contribute nothing.
pub open spec fn spec_content_width(m: ContentMetrics, icon_spacing: i64, gap: i64) -> int {
    (match m.image_size {
        Some(s) => s.x as int,
        None => 0,
    }) + (if m.image_size is Some && m.galley_size is Some {
        icon_spacing as int
    } else {
        0
    }) + (match m.galley_size {
        Some(s) => s.x as int,
        None => 0,
    }) + (match m.right_size {
        Some(s) => gap + s.x,
        None => 0,
    })
}

/// The height the content needs: the maximum over the present parts, each
/// text part at least its font's line height.
pub open spec fn spec_content_height(m: ContentMetrics) -> int {
    let h_image: int = match m.image_size {
        Some(s) => s.y as int,
        None => 0,
    };
    let h_text: int = match m.galley_size {
        Some(s) => if s.y >= m.text_font_height {
            s.y as int
        } else {
            m.text_font_height as int
        },
        None => 0,
    };
    let h_right: int = match m.right_size {
        Some(s) => if s.y >= m.right_font_height {
            s.y as int
        } else {
            m.right_font_height as int
        },
        None => 0,
    };
    let h1 = if h_image >= h_text {
        h_image
    } else {
        h_text
    };
    if h1 >= h_right {
        h1
    } else {
        h_right
    }
}

/// The sizing policy's result before the minimum-size floor: content plus
/// padding, with the interactive minimum height unless the button is small.
pub open spec fn spec_padded_size(
    m: ContentMetrics,
    padding: Vec2,
    icon_spacing: i64,
    gap: i64,
    small: bool,
    interact_height: i64,
) -> (int, int) {
    let w = spec_content_width(m, icon_spacing, gap) + 2 * padding.x;
    let h = spec_content_height(m) + 2 * padding.y;
    let h2 = if !small && h < interact_height {
        interact_height as int
    } else {
        h
    };
    (w, h2)
}

/// The full sizing policy: padded content size, floored by the caller's
/// minimum size.
pub open spec fn spec_desired_size(
    m: ContentMetrics,
    padding: Vec2,
    icon_spacing: i64,
    gap: i64,
    small: bool,
    interact_height: i64,
    min_size: Vec2,
) -> (int, int) {
    let (w, h) = spec_padded_size(m, padding, icon_spacing, gap, small, interact_height);
    (
        if w >= min_size.x {
            w
        } else {
            min_size.x as int
        },
        if h >= min_size.y {
            h
        } else {
            min_size.y as int
        },
    )
}

/// Compute a button's desired size from its content metrics, padding and
/// the style's spacing.
pub fn compute_desired_size(
    m: &ContentMetrics,
    padding: Vec2,
    spacing: &Spacing,
    small: bool,
    min_size: Vec2,
) -> (r: Vec2)
    requires
        m.wf(),
        padding.small_extent(),
        spacing.wf(),
        min_size.small_extent(),
    ensures
        ({
            let (w, h) = spec_desired_size(
                *m,
                padding,
                spacing.icon_spacing,
                spacing.item_spacing.x,
                small,
                spacing.interact_size.y,
                min_size,
            );
            r.x == w && r.y == h
        }),
        r.x >= min_size.x && r.y >= min_size.y,
        r.is_extent(),
        r.wf(),
{
    let mut w: i64 = 0;
    let mut h: i64 = 0;
    match &m.image_size {
        Some(s) => {
            w = w + s.x;
            h = crate::geom::max(h, s.y);
        },
        None => {},
    }
    if m.image_size.is_some() && m.galley_size.is_some() {
        w = w + spacing.icon_spacing;
    }
    match &m.galley_size {
        Some(s) => {
            w = w + s.x;
            h = crate::geom::max(h, crate::geom::max(s.y, m.text_font_height));
        },
        None => {},
    }
    match &m.right_size {
        Some(s) => {
            w = w + spacing.item_spacing.x + s.x;
            h = crate::geom::max(h, crate::geom::max(s.y, m.right_font_height));
        },
        None => {},
    }
    w = w + 2 * padding.x;
    h = h + 2 * padding.y;
    if !small {
        h = crate::geom::max(h, spacing.interact_size.y);
    }
    Vec2 { x: crate::geom::max(w, min_size.x), y: crate::geom::max(h, min_size.y) }
}

/// The sizing policy is non-decreasing in the minimum size, and its result
/// is at least the minimum size, component-wise, for all inputs.
pub proof fn lemma_desired_size_monotone_in_min_size(
    m: ContentMetrics,
    padding: Vec2,
    icon_spacing: i64,
    gap: i64,
    small: bool,
    interact_height: i64,
    min_a: Vec2,
    min_b: Vec2,
)
    requires
        min_a.x <= min_b.x,
        min_a.y <= min_b.y,
    ensures
        ({
            let (wa, ha) = spec_desired_size(m, padding, icon_spacing, gap, small, interact_height, min_a);
            let (wb, hb) = spec_desired_size(m, padding, icon_spacing, gap, small, interact_height, min_b);
            wa <= wb && ha <= hb && wa >= min_a.x && ha >= min_a.y && wb >= min_b.x && hb >= min_b.y
        }),
{
}

/// Only the trailing text's presence changes the primary text's wrap
/// width: it shrinks by exactly the trailing width plus its gap, while the
/// trailing text keeps its full measured width in the desired size.
pub proof fn lemma_trailing_text_wins_space(
    avail_w: i64,
    padding_x: i64,
    image_width: Option<i64>,
    icon_spacing: i64,
    right_w: i64,
    gap: i64,
    m: ContentMetrics,
)
    requires
        m.wf(),
        0 <= icon_spacing,
        0 <= gap,
        m.right_size is Some,
        m.right_size->Some_0.x == right_w,
    ensures
        spec_text_wrap_width(avail_w, padding_x, image_width, icon_spacing, Some(right_w), gap)
            == spec_text_wrap_width(avail_w, padding_x, image_width, icon_spacing, None, gap) - gap
            - right_w,
        spec_content_width(m, icon_spacing, gap) >= right_w,
{
}

/// The resolved appearance of a button's background frame.
#[derive(Clone, Copy, PartialEq, Eq, Structural, Debug)]
pub struct FrameAppearance {
    /// Whether a frame is painted at all.
    pub paint_frame: bool,
    /// How far the frame grows past the widget rect, per axis.
    pub expansion: i64,
    pub corner_radius: CornerRadius,
    pub fill: Rgba,
    pub stroke: Stroke,
}

/// The frame appearance selected by priority: a selected button uses the
/// fixed selection palette with zero expansion and square corners; else a
/// framed button uses the interaction-resolved visuals; else nothing is
/// painted. Explicit per-call overrides win in every case.
pub open spec fn spec_frame_appearance(
    selected: bool,
    frame: bool,
    fill_override: Option<Rgba>,
    stroke_override: Option<Stroke>,
    corner_radius_override: Option<CornerRadius>,
    visuals: Visuals,
    selection: SelectionVisuals,
) -> FrameAppearance {
    FrameAppearance {
        paint_frame: selected || frame,
        expansion: if !selected && frame {
            visuals.expansion
        } else {
            0
        },
        corner_radius: match corner_radius_override {
            Some(c) => c,
            None => if !selected && frame {
                visuals.corner_radius
            } else {
                CornerRadius { nw: 0, ne: 0, sw: 0, se: 0 }
            },
        },
        fill: match fill_override {
            Some(f) => f,
            None => if selected {
                selection.bg_fill
            } else if frame {
                visuals.weak_bg_fill
            } else {
                Rgba { r: 0, g: 0, b: 0, a: 0 }
            },
        },
        stroke: match stroke_override {
            Some(s) => s,
            None => if selected {
                selection.stroke
            } else if frame {
                visuals.bg_stroke
            } else {
                Stroke { width: 0, color: Rgba { r: 0, g: 0, b: 0, a: 0 } }
            },
        },
    }
}

/// Select the frame appearance; see [`spec_frame_appearance`].
pub fn select_frame_appearance(
    selected: bool,
    frame: bool,
    fill_override: Option<Rgba>,
    stroke_override: Option<Stroke>,
    corner_radius_override: Option<CornerRadius>,
    visuals: &Visuals,
    selection: &SelectionVisuals,
) -> (r: FrameAppearance)
    ensures
        r == spec_frame_appearance(
            selected,
            frame,
            fill_override,
            stroke_override,
            corner_radius_override,
            *visuals,
            *selection,
        ),
        r.paint_frame == (selected || frame),
        selected ==> r.expansion == 0,
        !selected && frame ==> r.expansion == visuals.expansion,
        !selected && !frame ==> r.expansion == 0,
        r.fill == (match fill_override {
            Some(f) => f,
            None => if selected {
                selection.bg_fill
            } else if frame {
                visuals.weak_bg_fill
            } else {
                Rgba { r: 0, g: 0, b: 0, a: 0 }
            },
        }),
        r.stroke == (match stroke_override {
            Some(s) => s,
            None => if selected {
                selection.stroke
            } else if frame {
                visuals.bg_stroke
            } else {
                Stroke { width: 0, color: Rgba { r: 0, g: 0, b: 0, a: 0 } }
            },
        }),
        r.corner_radius == (match corner_radius_override {
            Some(c) => c,
            None => if selected {
                CornerRadius { nw: 0, ne: 0, sw: 0, se: 0 }
            } else if frame {
                visuals.corner_radius
            } else {
                CornerRadius { nw: 0, ne: 0, sw: 0, se: 0 }
            },
        }),
{
    let (expansion, base_corner_radius, base_fill, base_stroke): (
        i64,
        CornerRadius,
        Rgba,
        Stroke,
    ) = if selected {
        (0, CornerRadius::zero(), selection.bg_fill, selection.stroke)
    } else if frame {
        (visuals.expansion, visuals.corner_radius, visuals.weak_bg_fill, visuals.bg_stroke)
    } else {
        (0, CornerRadius::zero(), Rgba::transparent(), Stroke::none())
    };
    let fill = match fill_override {
        Some(f) => f,
        None => base_fill,
    };
    let stroke = match stroke_override {
        Some(s) => s,
        None => base_stroke,
    };
    let corner_radius = match corner_radius_override {
        Some(c) => c,
        None => base_corner_radius,
    };
    FrameAppearance { paint_frame: selected || frame, expansion, corner_radius, fill, stroke }
}

/// The top edge of content of height `h` centered in the padded rect
/// (never above the padded rect's top).
pub open spec fn spec_centered_y(rect: Rect, padding: Vec2, h: int) -> int {
    let inner = rect.spec_height() - 2 * padding.y;
    let slack = if inner - h >= 0 {
        inner - h
    } else {
        0
    };
    rect.min.y + padding.y + slack / 2
}

/// The left edge of content of width `w` centered in the padded rect.
pub open spec fn spec_centered_x(rect: Rect, padding: Vec2, w: int) -> int {
    let inner = rect.spec_width() - 2 * padding.x;
    let slack = if inner - w >= 0 {
        inner - w
    } else {
        0
    };
    rect.min.x + padding.x + slack / 2
}

fn centered_coord(rect_min: i64, rect_extent: i64, padding: i64, content: i64) -> (r: i64)
    requires
        -crate::geom::COORD_LIMIT <= rect_min <= crate::geom::COORD_LIMIT,
        0 <= rect_extent <= 2 * crate::geom::COORD_LIMIT,
        0 <= padding <= SIZE_LIMIT,
        0 <= content <= 2 * crate::geom::COORD_LIMIT,
    ensures
        ({
            let inner = rect_extent - 2 * padding;
            let slack: int = if inner - content >= 0 {
                inner - content
            } else {
                0
            };
            r == rect_min + padding + slack / 2
        }),
{
    let inner = rect_extent - 2 * padding;
    let slack: i64 = if inner - content >= 0 {
        inner - content
    } else {
        0
    };
    rect_min + padding + slack / 2
}

/// Where each present part of a button's content is painted.
#[derive(Clone, Copy, PartialEq, Eq, Structural, Debug)]
pub struct ContentLayout {
    pub image_rect: Option<Rect>,
    pub text_pos: Option<Vec2>,
    pub right_pos: Option<Vec2>,
}

/// The content laid out left to right from the padded rect's left edge:
/// image, then primary text; the trailing text is anchored to the far
/// (right) edge. A sole part is centered horizontally; everything is
/// centered vertically.
pub open spec fn spec_content_layout(
    rect: Rect,
    padding: Vec2,
    image_size: Option<Vec2>,
    galley_size: Option<Vec2>,
    right_size: Option<Vec2>,
    icon_spacing: i64,
) -> ContentLayout {
    ContentLayout {
        image_rect: match image_size {
            Some(s) => {
                let x: int = if galley_size is Some || right_size is Some {
                    rect.min.x + padding.x
                } else {
                    spec_centered_x(rect, padding, s.x as int)
                };
                let y: int = spec_centered_y(rect, padding, s.y as int);
                Some(
                    Rect {
                        min: Vec2 { x: x as i64, y: y as i64 },
                        max: Vec2 { x: (x + s.x) as i64, y: (y + s.y) as i64 },
                    },
                )
            },
            None => None,
        },
        text_pos: match galley_size {
            Some(s) => {
                let x: int = if image_size is Some || right_size is Some {
                    rect.min.x + padding.x + (match image_size {
                        Some(i) => i.x + icon_spacing,
                        None => 0,
                    })
                } else {
                    spec_centered_x(rect, padding, s.x as int)
                };
                Some(Vec2 { x: x as i64, y: spec_centered_y(rect, padding, s.y as int) as i64 })
            },
            None => None,
        },
        right_pos: match right_size {
            Some(s) => Some(
                Vec2 {
                    x: (rect.max.x - padding.x - s.x) as i64,
                    y: spec_centered_y(rect, padding, s.y as int) as i64,
                },
            ),
            None => None,
        },
    }
}

/// Lay the content out; see [`spec_content_layout`].
pub fn layout_button_content(
    rect: Rect,
    padding: Vec2,
    image_size: Option<Vec2>,
    galley_size: Option<Vec2>,
    right_size: Option<Vec2>,
    icon_spacing: i64,
) -> (r: ContentLayout)
    requires
        rect.wf(),
        padding.small_extent(),
        0 <= icon_spacing <= SIZE_LIMIT,
        match image_size {
            Some(s) => s.small_extent(),
            None => true,
        },
        match galley_size {
            Some(s) => s.small_extent(),
            None => true,
        },
        match right_size {
            Some(s) => s.small_extent(),
            None => true,
        },
    ensures
        r == spec_content_layout(rect, padding, image_size, galley_size, right_size, icon_spacing),
        r.image_rect is Some <==> image_size is Some,
        r.text_pos is Some <==> galley_size is Some,
        r.right_pos is Some <==> right_size is Some,
        image_size is Some ==> {
            let s = image_size->Some_0;
            let ir = r.image_rect->Some_0;
            &&& ir.min.y == spec_centered_y(rect, padding, s.y as int)
            &&& (galley_size is Some || right_size is Some) ==> ir.min.x == rect.min.x + padding.x
            &&& (galley_size is None && right_size is None) ==> ir.min.x == spec_centered_x(
                rect,
                padding,
                s.x as int,
            )
            &&& ir.max.x == ir.min.x + s.x
            &&& ir.max.y == ir.min.y + s.y
        },
        galley_size is Some ==> {
            let s = galley_size->Some_0;
            let p = r.text_pos->Some_0;
            &&& p.y == spec_centered_y(rect, padding, s.y as int)
            &&& (image_size is Some || right_size is Some) ==> p.x == rect.min.x + padding.x + (
            match image_size {
                Some(i) => i.x + icon_spacing,
                None => 0,
            })
            &&& (image_size is None && right_size is None) ==> p.x == spec_centered_x(
                rect,
                padding,
                s.x as int,
            )
        },
        right_size is Some ==> {
            let s = right_size->Some_0;
            let p = r.right_pos->Some_0;
            &&& p.y == spec_centered_y(rect, padding, s.y as int)
            &&& p.x == rect.max.x - padding.x - s.x
        },
{
    let has_image = image_size.is_some();
    let has_text = galley_size.is_some();
    let has_right = right_size.is_some();
    let image_rect = match image_size {
        Some(s) => {
            let x = if has_text || has_right {
                rect.min.x + padding.x
            } else {
                centered_coord(rect.min.x, rect.max.x - rect.min.x, padding.x, s.x)
            };
            let y = centered_coord(rect.min.y, rect.max.y - rect.min.y, padding.y, s.y);
            Some(Rect { min: Vec2 { x, y }, max: Vec2 { x: x + s.x, y: y + s.y } })
        },
        None => None,
    };
    let text_pos = match galley_size {
        Some(s) => {
            let x = if has_image || has_right {
                let image_advance = match image_size {
                    Some(i) => i.x + icon_spacing,
                    None => 0,
                };
                rect.min.x + padding.x + image_advance
            } else {
                centered_coord(rect.min.x, rect.max.x - rect.min.x, padding.x, s.x)
            };
            let y = centered_coord(rect.min.y, rect.max.y - rect.min.y, padding.y, s.y);
            Some(Vec2 { x, y })
        },
        None => None,
    };
    let right_pos = match right_size {
        Some(s) => {
            let y = centered_coord(rect.min.y, rect.max.y - rect.min.y, padding.y, s.y);
            Some(Vec2 { x: rect.max.x - padding.x - s.x, y })
        },
        None => None,
    };
    ContentLayout { image_rect, text_pos, right_pos }
}

/// What the font collaborator shaped for one button call.
#[derive(Clone, PartialEq, Eq, Debug)]
pub struct ShapedContent {
    /// The primary text, shaped at the wrap width [`text_wrap_width`]
    /// computes; present exactly when the button has text.
    pub galley: Option<Galley>,
    /// The trailing text, shaped at unbounded width; present exactly when
    /// the button's trailing text is non-empty.
    pub right_galley: Option<Galley>,
    /// Line height of the primary text's font, or of the default font when
    /// there is no text.
    pub text_font_height: i64,
    /// Line height of the trailing text's font.
    pub right_font_height: i64,
}

impl ShapedContent {
    pub open spec fn wf(self) -> bool {
        &&& match self.galley {
            Some(g) => g.size.small_extent(),
            None => true,
        }
        &&& match self.right_galley {
            Some(g) => g.size.small_extent(),
            None => true,
        }
        &&& 0 <= self.text_font_height <= SIZE_LIMIT
        &&& 0 <= self.right_font_height <= SIZE_LIMIT
    }
}

/// The frame flag resolved against the style's default.
pub open spec fn spec_resolved_frame(b: Button, style_frame_default: bool) -> bool {
    match b.frame {
        Some(f) => f,
        None => style_frame_default,
    }
}

/// The content metrics a button derives from its configuration and the
/// shaped text.
pub open spec fn spec_button_metrics(
    b: Button,
    shaped: ShapedContent,
    avail: Vec2,
    padding: Vec2,
) -> ContentMetrics {
    ContentMetrics {
        image_size: match b.image {
            Some(img) => Some(
                img.spec_display_size(
                    spec_space_for_image(b.text is Some, shaped.text_font_height, avail, padding),
                ),
            ),
            None => None,
        },
        galley_size: match shaped.galley {
            Some(g) => Some(g.size),
            None => None,
        },
        text_font_height: shaped.text_font_height,
        right_size: match shaped.right_galley {
            Some(g) => Some(g.size),
            None => None,
        },
        right_font_height: shaped.right_font_height,
    }
}

/// Everything the painter collaborator needs to draw one button.
#[derive(Clone, PartialEq, Eq, Debug)]
pub struct ButtonPaint {
    /// The padding the content was laid out with.
    pub padding: Vec2,
    pub frame: FrameAppearance,
    /// The widget rect grown by the frame's expansion.
    pub frame_rect: Rect,
    pub layout: ContentLayout,
    /// The resolved text color, for both labels.
    pub text_color: Rgba,
    /// The tint to paint the image with, when there is an image.
    pub image_tint: Option<Rgba>,
    /// Whether to show a loading spinner over a pending image.
    pub show_loading_spinner: Option<bool>,
    /// The cursor icon to request, when the style defines one and the
    /// button is hovered.
    pub cursor_icon: Option<CursorIcon>,
}

impl Button {
    /// Show the button: compute its desired size from the shaped content,
    /// reserve that space at the layout cursor, derive the interaction
    /// response, and compose the paint plan.
    ///
    /// The accessibility label is the shaped primary text when there is
    /// one, else the image's alternative text.
    pub fn show(
        self,
        shaped: ShapedContent,
        avail: Vec2,
        spacing: &Spacing,
        visuals: &Visuals,
        selection: &SelectionVisuals,
        style_frame_default: bool,
        interact_cursor: Option<CursorIcon>,
        cursor: &mut LayoutCursor,
        input: &InputState,
        enabled: bool,
    ) -> (r: (Response, ButtonPaint))
        requires
            spacing.wf(),
            avail.small_extent(),
            old(cursor).wf(),
            old(cursor).next_pos.small(),
            shaped.wf(),
            self.min_size.small_extent(),
            0 <= visuals.expansion <= SIZE_LIMIT,
            shaped.galley is Some <==> self.text is Some,
            shaped.right_galley is Some <==> !self.right_text.spec_is_empty(),
            match self.image {
                Some(img) => match img.load {
                    LoadResult::Ready(s) => s.small_extent(),
                    _ => true,
                },
                None => true,
            },
        ensures
            ({
                let frame = spec_resolved_frame(self, style_frame_default);
                let padding = spec_button_padding(frame, self.small, spacing.button_padding);
                let m = spec_button_metrics(self, shaped, avail, padding);
                let (w, h) = spec_desired_size(
                    m,
                    padding,
                    spacing.icon_spacing,
                    spacing.item_spacing.x,
                    self.small,
                    spacing.interact_size.y,
                    self.min_size,
                );
                let rect = r.0.rect;
                &&& rect.min == old(cursor).next_pos
                &&& rect.max.x == rect.min.x + w
                &&& rect.max.y == rect.min.y + h
                &&& r.0.enabled == enabled
                &&& r.0.hovered == spec_hovered(rect, *input, enabled)
                &&& r.0.clicked == spec_clicked(rect, self.sense, *input, enabled)
                &&& r.0.dragged == spec_dragged(rect, self.sense, *input, enabled)
                &&& r.0.widget_type == WidgetType::Button
                &&& r.0.label == (match shaped.galley {
                    Some(g) => Some(g.text),
                    None => match self.image {
                        Some(img) => img.alt_text,
                        None => None,
                    },
                })
                &&& (match self.image {
                    Some(img) => match img.load {
                        LoadResult::Failed(reason) => r.0.image_error is Some
                            && r.0.image_error->Some_0@ == reason@,
                        _ => r.0.image_error is None,
                    },
                    None => r.0.image_error is None,
                })
                &&& r.1.padding == padding
                &&& r.1.frame == spec_frame_appearance(
                    self.selected,
                    frame,
                    self.fill,
                    self.stroke,
                    self.corner_radius,
                    *visuals,
                    *selection,
                )
                &&& r.1.frame_rect.min.x == rect.min.x - r.1.frame.expansion
                &&& r.1.frame_rect.min.y == rect.min.y - r.1.frame.expansion
                &&& r.1.frame_rect.max.x == rect.max.x + r.1.frame.expansion
                &&& r.1.frame_rect.max.y == rect.max.y + r.1.frame.expansion
                &&& r.1.layout == spec_content_layout(
                    rect,
                    padding,
                    m.image_size,
                    m.galley_size,
                    m.right_size,
                    spacing.icon_spacing,
                )
                &&& r.1.text_color == visuals.text_color
                &&& (match self.image {
                    Some(img) => {
                        &&& r.1.image_tint is Some
                        &&& (!self.image_tint_follows_text_color ==> r.1.image_tint->Some_0
                            == img.tint)
                        &&& (self.image_tint_follows_text_color ==> {
                            let t = r.1.image_tint->Some_0;
                            &&& t.r == gamma_mul_channel(img.tint.r, visuals.text_color.r)
                            &&& t.g == gamma_mul_channel(img.tint.g, visuals.text_color.g)
                            &&& t.b == gamma_mul_channel(img.tint.b, visuals.text_color.b)
                            &&& t.a == gamma_mul_channel(img.tint.a, visuals.text_color.a)
                        })
                        &&& r.1.show_loading_spinner == Some(img.show_loading_spinner)
                    },
                    None => r.1.image_tint is None && r.1.show_loading_spinner is None,
                })
                &&& r.1.cursor_icon == (match interact_cursor {
                    Some(icon) => if r.0.hovered {
                        Some(icon)
                    } else {
                        None
                    },
                    None => None::<CursorIcon>,
                })
            }),
            final(cursor).direction == old(cursor).direction,
            final(cursor).item_spacing == old(cursor).item_spacing,
            old(cursor).direction is TopDown ==> final(cursor).next_pos.x == old(cursor).next_pos.x
                && final(cursor).next_pos.y == r.0.rect.max.y + old(cursor).item_spacing.y,
            old(cursor).direction is LeftRight ==> final(cursor).next_pos.y == old(
                cursor,
            ).next_pos.y && final(cursor).next_pos.x == r.0.rect.max.x + old(
                cursor,
            ).item_spacing.x,
            !enabled ==> !r.0.hovered && !r.0.clicked && !r.0.dragged,
    {
        let frame = match self.frame {
            Some(f) => f,
            None => style_frame_default,
        };
        let padding = resolve_button_padding(frame, self.small, spacing.button_padding);
        let has_text = self.text.is_some();
        let space = space_for_image(has_text, shaped.text_font_height, avail, padding);
        let (image_size, image_tint_raw, image_alt, image_show_spinner, image_err): (
            Option<Vec2>,
            Option<Rgba>,
            Option<String>,
            Option<bool>,
            Option<String>,
        ) = match self.image {
            Some(img) => {
                let err = img.error();
                let size = img.display_size(space);
                (Some(size), Some(img.tint), img.alt_text, Some(img.show_loading_spinner), err)
            },
            None => (None, None, None, None, None),
        };
        let (galley_size, label_from_text): (Option<Vec2>, Option<String>) = match shaped.galley {
            Some(g) => (Some(g.size), Some(g.text)),
            None => (None, None),
        };
        let right_size: Option<Vec2> = match shaped.right_galley {
            Some(g) => Some(g.size),
            None => None,
        };
        let m = ContentMetrics {
            image_size,
            galley_size,
            text_font_height: shaped.text_font_height,
            right_size,
            right_font_height: shaped.right_font_height,
        };
        let desired = compute_desired_size(&m, padding, spacing, self.small, self.min_size);
        let (rect, response) = crate::response::allocate(cursor, desired, self.sense, input, enabled);
        let label = match label_from_text {
            Some(t) => Some(t),
            None => image_alt,
        };
        let response = response.set_widget_info(WidgetType::Button, label);
        let response = response.with_image_error(image_err);
        let appearance = select_frame_appearance(
            self.selected,
            frame,
            self.fill,
            self.stroke,
            self.corner_radius,
            visuals,
            selection,
        );
        let frame_rect = rect.expand2(Vec2::splat(appearance.expansion));
        let layout = layout_button_content(
            rect,
            padding,
            image_size,
            galley_size,
            right_size,
            spacing.icon_spacing,
        );
        let image_tint = match image_tint_raw {
            Some(t) => Some(
                resolve_image_tint(self.image_tint_follows_text_color, t, visuals.text_color),
            ),
            None => None,
        };
        let cursor_icon = match interact_cursor {
            Some(icon) => if response.hovered {
                Some(icon)
            } else {
                None
            },
            None => None,
        };
        let paint = ButtonPaint {
            padding,
            frame: appearance,
            frame_rect,
            layout,
            text_color: visuals.text_color,
            image_tint,
            show_loading_spinner: image_show_spinner,
            cursor_icon,
        };
        (response, paint)
    }
}

} // verus!
