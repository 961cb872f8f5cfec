//! The interaction region: reserving screen space from the layout cursor
//! and deriving the per-frame interaction response for that space.

use vstd::prelude::*;
use crate::geom::COORD_LIMIT;
use crate::geom::Rect;
use crate::geom::Vec2;
use crate::input::InputState;
use crate::sense::Sense;

verus! {

/// The kind of widget a response describes, for introspection and
/// accessibility consumers.
#[derive(Clone, Copy, PartialEq, Eq, Structural, Debug)]
pub enum WidgetType {
    Button,
    ProgressIndicator,
    Label,
    Other,
}

/// The flat widget-info record an accessibility consumer reads.
#[derive(Clone, PartialEq, Eq, Debug)]
pub struct WidgetInfo {
    pub widget_type: WidgetType,
    pub enabled: bool,
    pub label: Option<String>,
}

/// Whether the pointer hovers `rect` this frame.
pub open spec fn spec_hovered(rect: Rect, input: InputState, enabled: bool) -> bool {
    enabled && match input.pointer {
        Some(p) => rect.spec_contains(p),
        None => false,
    }
}

/// Whether a press/release cycle completed inside `rect` this frame and the
/// region senses clicks.
pub open spec fn spec_clicked(rect: Rect, sense: Sense, input: InputState, enabled: bool) -> bool {
    &&& enabled
    &&& sense.click
    &&& input.released
    &&& match input.press_origin {
        Some(p) => rect.spec_contains(p),
        None => false,
    }
    &&& match input.pointer {
        Some(p) => rect.spec_contains(p),
        None => false,
    }
}

/// Whether a drag that began inside `rect` is in progress and the region
/// senses drags.
pub open spec fn spec_dragged(rect: Rect, sense: Sense, input: InputState, enabled: bool) -> bool {
    &&& enabled
    &&& sense.drag
    &&& input.dragging
    &&& match input.press_origin {
        Some(p) => rect.spec_contains(p),
        None => false,
    }
}

/// The per-frame result of allocating a widget's screen space: the space
/// itself and the interaction state derived for it.
///
/// The accessibility descriptor is deferred: the response stores only its
/// ingredients, and [`Response::widget_info`] builds the record when an
/// introspection consumer actually asks for it.
#[derive(Clone, PartialEq, Eq, Debug)]
pub struct Response {
    pub rect: Rect,
    pub enabled: bool,
    pub hovered: bool,
    pub clicked: bool,
    pub dragged: bool,
    pub has_focus: bool,
    /// An image the widget shows failed to load, with the loader's reason.
    pub image_error: Option<String>,
    /// Deferred ingredient of the accessibility record.
    pub widget_type: WidgetType,
    /// Deferred ingredient of the accessibility record.
    pub label: Option<String>,
}

impl Response {
    /// Build the accessibility record on demand.
    pub fn widget_info(&self) -> (info: WidgetInfo)
        ensures
            info.widget_type == self.widget_type,
            info.enabled == self.enabled,
            info.label == self.label,
    {
        WidgetInfo {
            widget_type: self.widget_type,
            enabled: self.enabled,
            label: self.label.clone(),
        }
    }

    /// Replace the deferred accessibility ingredients.
    pub fn set_widget_info(self, widget_type: WidgetType, label: Option<String>) -> (r: Self)
        ensures
            r.widget_type == widget_type,
            r.label == label,
            r.rect == self.rect,
            r.enabled == self.enabled,
            r.hovered == self.hovered,
            r.clicked == self.clicked,
            r.dragged == self.dragged,
            r.has_focus == self.has_focus,
            r.image_error == self.image_error,
    {
        Response { widget_type, label, ..self }
    }

    /// Attach an image load failure, leaving everything else unchanged.
    pub fn with_image_error(self, error: Option<String>) -> (r: Self)
        ensures
            r.image_error == error,
            r.rect == self.rect,
            r.enabled == self.enabled,
            r.hovered == self.hovered,
            r.clicked == self.clicked,
            r.dragged == self.dragged,
            r.has_focus == self.has_focus,
            r.widget_type == self.widget_type,
            r.label == self.label,
    {
        Response { image_error: error, ..self }
    }
}

/// The direction the layout cursor advances.
#[derive(Clone, Copy, PartialEq, Eq, Structural, Debug)]
pub enum LayoutDirection {
    TopDown,
    LeftRight,
}

/// The layout cursor of the current container: where the next widget goes
/// and how far to step past each one.
#[derive(Clone, Copy, PartialEq, Eq, Structural, Debug)]
pub struct LayoutCursor {
    pub next_pos: Vec2,
    pub direction: LayoutDirection,
    pub item_spacing: Vec2,
}

impl LayoutCursor {
    pub open spec fn wf(self) -> bool {
        &&& self.next_pos.wf()
        &&& self.item_spacing.wf()
        &&& self.item_spacing.is_extent()
    }
}

/// Reserve `desired` space at the layout cursor and derive the interaction
/// response for it.
///
/// The rectangle is reserved whether or not the context is enabled, so
/// layout is stable; a disabled context forces hover, click and drag to
/// false. The cursor advances past the rectangle by its extent plus the
/// item spacing, along the layout direction.
pub fn allocate(
    cursor: &mut LayoutCursor,
    desired: Vec2,
    sense: Sense,
    input: &InputState,
    enabled: bool,
) -> (r: (Rect, Response))
    requires
        old(cursor).wf(),
        desired.wf(),
        desired.is_extent(),
    ensures
        r.0.min == old(cursor).next_pos,
        r.0.max.x == old(cursor).next_pos.x + desired.x,
        r.0.max.y == old(cursor).next_pos.y + desired.y,
        final(cursor).direction == old(cursor).direction,
        final(cursor).item_spacing == old(cursor).item_spacing,
        old(cursor).direction is TopDown ==> final(cursor).next_pos.x == old(cursor).next_pos.x
            && final(cursor).next_pos.y == old(cursor).next_pos.y + desired.y + old(
            cursor,
        ).item_spacing.y,
        old(cursor).direction is LeftRight ==> final(cursor).next_pos.y == old(cursor).next_pos.y
            && final(cursor).next_pos.x == old(cursor).next_pos.x + desired.x + old(
            cursor,
        ).item_spacing.x,
        r.1.rect == r.0,
        r.1.enabled == enabled,
        r.1.hovered == spec_hovered(r.0, *input, enabled),
        r.1.clicked == spec_clicked(r.0, sense, *input, enabled),
        r.1.dragged == spec_dragged(r.0, sense, *input, enabled),
        !r.1.has_focus,
        r.1.image_error is None,
        r.1.label is None,
        !enabled ==> !r.1.hovered && !r.1.clicked && !r.1.dragged,
{
    let rect = Rect::from_min_size(cursor.next_pos, desired);
    match cursor.direction {
        LayoutDirection::TopDown => {
            cursor.next_pos.y = cursor.next_pos.y + desired.y + cursor.item_spacing.y;
        },
        LayoutDirection::LeftRight => {
            cursor.next_pos.x = cursor.next_pos.x + desired.x + cursor.item_spacing.x;
        },
    }
    let hovered = enabled && match &input.pointer {
        Some(p) => rect.contains(*p),
        None => false,
    };
    let pressed_inside = match &input.press_origin {
        Some(p) => rect.contains(*p),
        None => false,
    };
    let pointer_inside = match &input.pointer {
        Some(p) => rect.contains(*p),
        None => false,
    };
    let clicked = enabled && sense.click && input.released && pressed_inside && pointer_inside;
    let dragged = enabled && sense.drag && input.dragging && pressed_inside;
    let response = Response {
        rect,
        enabled,
        hovered,
        clicked,
        dragged,
        has_focus: false,
        image_error: None,
        widget_type: WidgetType::Other,
        label: None,
    };
    (rect, response)
}

} // verus!
