//! The slice of the style/theme collaborator the toolkit's logic reads:
//! spacing constants and interaction-resolved visuals, plus the small text
//! model (a styled string and its shaped footprint).

use vstd::prelude::*;
use crate::color::Rgba;
use crate::geom::SIZE_LIMIT;
use crate::geom::Vec2;

verus! {

/// A stroke: line width in pixels and color.
#[derive(Clone, Copy, PartialEq, Eq, Structural, Debug)]
pub struct Stroke {
    pub width: i64,
    pub color: Rgba,
}

impl Stroke {
    pub fn new(width: i64, color: Rgba) -> (s: Self)
        ensures
            s == (Stroke { width, color }),
    {
        Stroke { width, color }
    }

    /// No line at all.
    pub fn none() -> (s: Self)
        ensures
            s.width == 0,
            s.color == (Rgba { r: 0, g: 0, b: 0, a: 0 }),
    {
        Stroke { width: 0, color: Rgba { r: 0, g: 0, b: 0, a: 0 } }
    }
}

/// Corner rounding of a rectangle, one radius per corner.
#[derive(Clone, Copy, PartialEq, Eq, Structural, Debug)]
pub struct CornerRadius {
    pub nw: u8,
    pub ne: u8,
    pub sw: u8,
    pub se: u8,
}

impl CornerRadius {
    /// Square corners.
    pub fn zero() -> (c: Self)
        ensures
            c == (CornerRadius { nw: 0, ne: 0, sw: 0, se: 0 }),
    {
        CornerRadius { nw: 0, ne: 0, sw: 0, se: 0 }
    }

    /// The same radius on every corner.
    pub fn same(radius: u8) -> (c: Self)
        ensures
            c == (CornerRadius { nw: radius, ne: radius, sw: radius, se: radius }),
    {
        CornerRadius { nw: radius, ne: radius, sw: radius, se: radius }
    }
}

/// A named text style, resolved to a font by the font collaborator.
#[derive(Clone, Copy, PartialEq, Eq, Structural, Debug)]
pub enum TextStyle {
    Small,
    Body,
    Button,
    Heading,
    Monospace,
}

/// A piece of text with the styling the toolkit itself decides: a weak
/// (de-emphasized) flag and an optional text-style override.
#[derive(Clone, PartialEq, Eq, Debug)]
pub struct WidgetText {
    pub text: String,
    pub weak: bool,
    pub style: Option<TextStyle>,
}

impl WidgetText {
    pub fn new(text: String) -> (w: Self)
        ensures
            w.text == text,
            !w.weak,
            w.style is None,
    {
        WidgetText { text, weak: false, style: None }
    }

    /// An empty text, the absent value.
    pub fn empty() -> (w: Self)
        ensures
            w.text@ == Seq::<char>::empty(),
            !w.weak,
            w.style is None,
    {
        WidgetText { text: String::new(), weak: false, style: None }
    }

    /// De-emphasize the text.
    pub fn weak(self) -> (w: Self)
        ensures
            w.text == self.text,
            w.weak,
            w.style == self.style,
    {
        WidgetText { weak: true, ..self }
    }

    /// Override the text style.
    pub fn text_style(self, style: TextStyle) -> (w: Self)
        ensures
            w.text == self.text,
            w.weak == self.weak,
            w.style == Some(style),
    {
        WidgetText { style: Some(style), ..self }
    }

    pub open spec fn spec_is_empty(&self) -> bool {
        self.text@.len() == 0
    }

    pub fn is_empty(&self) -> (r: bool)
        ensures
            r == self.spec_is_empty(),
    {
        self.text.as_str().unicode_len() == 0
    }
}

/// A shaped block of text: its pixel footprint, as the font collaborator
/// reports it for a given wrap width.
#[derive(Clone, PartialEq, Eq, Debug)]
pub struct Galley {
    pub size: Vec2,
    pub text: String,
}

/// How text behaves when it does not fit its wrap width.
#[derive(Clone, Copy, PartialEq, Eq, Structural, Debug)]
pub enum WrapMode {
    /// Never wrap: extend past the available width.
    Extend,
    /// Wrap onto further lines.
    Wrap,
    /// Keep one line, ending in an ellipsis.
    Truncate,
}

/// Spacing constants of the active style.
#[derive(Clone, Copy, PartialEq, Eq, Structural, Debug)]
pub struct Spacing {
    /// Padding inside a framed button, per side.
    pub button_padding: Vec2,
    /// Gap between two items in a layout.
    pub item_spacing: Vec2,
    /// Gap between a button's icon and its label.
    pub icon_spacing: i64,
    /// Minimum footprint of an interactive widget.
    pub interact_size: Vec2,
}

impl Spacing {
    /// Non-negative and bounded, so layout sums stay in range.
    pub open spec fn wf(self) -> bool {
        &&& self.button_padding.small_extent()
        &&& self.item_spacing.small_extent()
        &&& 0 <= self.icon_spacing <= SIZE_LIMIT
        &&& self.interact_size.small_extent()
    }
}

/// The visuals the style resolver hands back for a widget's interaction
/// state (hovered, pressed, inactive, ...).
#[derive(Clone, Copy, PartialEq, Eq, Structural, Debug)]
pub struct Visuals {
    pub weak_bg_fill: Rgba,
    pub bg_stroke: Stroke,
    pub corner_radius: CornerRadius,
    /// How far the frame grows past the widget rect in this state.
    pub expansion: i64,
    pub text_color: Rgba,
}

/// The fixed palette used for a widget marked selected.
#[derive(Clone, Copy, PartialEq, Eq, Structural, Debug)]
pub struct SelectionVisuals {
    pub bg_fill: Rgba,
    pub stroke: Stroke,
}

/// A cursor icon the style may ask for while an interactive widget is
/// hovered.
#[derive(Clone, Copy, PartialEq, Eq, Structural, Debug)]
pub enum CursorIcon {
    Default,
    PointingHand,
    Grab,
}

} // verus!
