//! The spinner: an animated leaf widget indicating loading. Its arc is a
//! polyline whose point count the toolkit decides; the trigonometry that
//! places the points on the circle belongs to the paint backend.

use vstd::prelude::*;
use crate::color::Rgba;
use crate::geom::COORD_LIMIT;
use crate::geom::Rect;
use crate::geom::SIZE_LIMIT;
use crate::geom::Vec2;
use crate::input::InputState;
use crate::response::LayoutCursor;
use crate::response::Response;
use crate::response::WidgetType;
use crate::response::spec_hovered;
use crate::sense::Sense;

verus! {

/// A spinner widget used to indicate loading.
#[derive(Clone, Copy, PartialEq, Eq, Structural, Debug)]
pub struct Spinner {
    /// Side of the square the spinner fills; the style's interact size if
    /// `None`.
    pub size: Option<i64>,
    /// The arc's color; the style's strong text color if `None`.
    pub color: Option<Rgba>,
}

impl Default for Spinner {
    fn default() -> (s: Self)
        ensures
            s.size is None,
            s.color is None,
    {
        Spinner { size: None, color: None }
    }
}

impl Spinner {
    /// A spinner that uses the style's interact size and color.
    pub fn new() -> (s: Self)
        ensures
            s.size is None,
            s.color is None,
    {
        Spinner { size: None, color: None }
    }

    /// Set the spinner's size: both width and height, as it is always
    /// square.
    pub fn size(self, size: i64) -> (s: Self)
        ensures
            s == (Spinner { size: Some(size), ..self }),
    {
        Spinner { size: Some(size), ..self }
    }

    /// Set the spinner's color.
    pub fn color(self, color: Rgba) -> (s: Self)
        ensures
            s == (Spinner { color: Some(color), ..self }),
    {
        Spinner { color: Some(color), ..self }
    }
}

/// Half of `v`, rounded toward negative infinity.
fn half_floor(v: i64) -> (r: i64)
    requires
        -4 * COORD_LIMIT <= v <= 4 * COORD_LIMIT,
    ensures
        r == v as int / 2,
{
    if v >= 0 {
        ((v as u64) / 2) as i64
    } else {
        let m: u64 = (-v) as u64;
        -(((m + 1) / 2) as i64)
    }
}

/// How many points the spinner's polyline gets for a given arc radius:
/// one per pixel of radius, never fewer than 8 nor more than 128.
pub open spec fn spec_spinner_points(radius: int) -> int {
    if radius < 8 {
        8
    } else if radius > 128 {
        128
    } else {
        radius
    }
}

/// One frame of spinner painting, handed to the paint backend: the arc's
/// geometry and the unconditional repaint request that keeps the
/// animation running.
#[derive(Clone, Copy, PartialEq, Eq, Structural, Debug)]
pub struct SpinnerPaint {
    pub center: Vec2,
    /// The arc's radius: half the rect's height, minus a 2 pixel margin.
    pub radius: i64,
    /// How many points the arc's polyline has.
    pub n_points: i64,
    pub color: Rgba,
    /// The stroke width of the arc.
    pub stroke_width: i64,
    /// A spinner is always animated: every visible frame asks for another.
    pub repaint_requested: bool,
}

impl Spinner {
    /// Paint the spinner in the given rectangle: request a repaint and
    /// describe the arc. Returns nothing when the rect is not visible.
    pub fn paint_at(&self, rect: Rect, visible: bool, fallback_color: Rgba) -> (r: Option<
        SpinnerPaint,
    >)
        requires
            rect.wf(),
        ensures
            r is Some <==> visible,
            visible ==> {
                let p = r->Some_0;
                &&& p.repaint_requested
                &&& p.radius == rect.spec_height() / 2 - 2
                &&& p.n_points == spec_spinner_points(p.radius as int)
                &&& 8 <= p.n_points <= 128
                &&& p.center.x == (rect.min.x + rect.max.x) / 2
                &&& p.center.y == (rect.min.y + rect.max.y) / 2
                &&& p.color == (match self.color {
                    Some(c) => c,
                    None => fallback_color,
                })
                &&& p.stroke_width == 3
            },
    {
        if !visible {
            return None;
        }
        let radius: i64 = (((rect.max.y - rect.min.y) as u64) / 2) as i64 - 2;
        let n_points: i64 = if radius < 8 {
            8
        } else if radius > 128 {
            128
        } else {
            radius
        };
        let center_x: i64 = half_floor(rect.min.x + rect.max.x);
        let center_y: i64 = half_floor(rect.min.y + rect.max.y);
        let color = match self.color {
            Some(c) => c,
            None => fallback_color,
        };
        Some(
            SpinnerPaint {
                center: Vec2 { x: center_x, y: center_y },
                radius,
                n_points,
                color,
                stroke_width: 3,
                repaint_requested: true,
            },
        )
    }

    /// Show the spinner: reserve a square of its size (the style's
    /// interact height by default) at the layout cursor, sensing hover
    /// only, and paint it.
    pub fn show(
        self,
        interact_height: i64,
        fallback_color: Rgba,
        cursor: &mut LayoutCursor,
        input: &InputState,
        enabled: bool,
        visible: bool,
    ) -> (r: (Response, Option<SpinnerPaint>))
        requires
            old(cursor).wf(),
            old(cursor).next_pos.small(),
            0 <= interact_height <= SIZE_LIMIT,
            match self.size {
                Some(s) => 0 <= s <= SIZE_LIMIT,
                None => true,
            },
        ensures
            ({
                let side = match self.size {
                    Some(s) => s,
                    None => interact_height,
                };
                let rect = r.0.rect;
                &&& rect.min == old(cursor).next_pos
                &&& rect.max.x == rect.min.x + side
                &&& rect.max.y == rect.min.y + side
                &&& r.0.enabled == enabled
                &&& r.0.hovered == spec_hovered(rect, *input, enabled)
                &&& !r.0.clicked
                &&& !r.0.dragged
                &&& r.0.widget_type == WidgetType::ProgressIndicator
                &&& r.0.label is None
            }),
            r.1 is Some <==> visible,
            visible ==> {
                let p = r.1->Some_0;
                &&& p.repaint_requested
                &&& p.radius == r.0.rect.spec_height() / 2 - 2
                &&& p.n_points == spec_spinner_points(p.radius as int)
                &&& p.color == (match self.color {
                    Some(c) => c,
                    None => fallback_color,
                })
            },
            final(cursor).direction == old(cursor).direction,
            final(cursor).item_spacing == old(cursor).item_spacing,
    {
        let side: i64 = match self.size {
            Some(s) => s,
            None => interact_height,
        };
        let (rect, response) = crate::response::allocate(
            cursor,
            Vec2 { x: side, y: side },
            Sense::hover(),
            input,
            enabled,
        );
        let response = response.set_widget_info(WidgetType::ProgressIndicator, None);
        let paint = self.paint_at(rect, visible, fallback_color);
        (response, paint)
    }
}

} // verus!
