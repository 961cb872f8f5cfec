//! The virtualized scroll region: per-identity scroll state, the visible
//! row range of uniform-row content, offset clamping against the content
//! extent, scroll-to requests, and stick-to-end.

use vstd::prelude::*;
use vstd::arithmetic::div_mod::lemma_div_is_ordered;
use vstd::arithmetic::div_mod::lemma_div_multiples_vanish;
use vstd::arithmetic::div_mod::lemma_fundamental_div_mod;
use crate::geom::COORD_LIMIT;
use crate::geom::Rect;
use crate::geom::Vec2;

verus! {

/// `v` forced into `[lo, hi]`, over mathematical integers.
pub open spec fn clamp_int(v: int, lo: int, hi: int) -> int {
    if v < lo {
        lo
    } else if v > hi {
        hi
    } else {
        v
    }
}

/// The largest legal scroll offset: content past the outer size, at least
/// zero.
pub open spec fn spec_max_offset(content: int, outer: int) -> int {
    if content - outer >= 0 {
        content - outer
    } else {
        0
    }
}

/// Clamp a scroll offset against the measured content extent: the result
/// lies in `[0, max(0, content - outer)]`, and an offset already in that
/// interval is unchanged.
pub fn clamp_offset(offset: i64, content: i64, outer: i64) -> (r: i64)
    requires
        -COORD_LIMIT <= offset <= COORD_LIMIT,
        0 <= content <= COORD_LIMIT,
        0 <= outer <= COORD_LIMIT,
    ensures
        r == clamp_int(offset as int, 0, spec_max_offset(content as int, outer as int)),
        0 <= r <= spec_max_offset(content as int, outer as int),
        0 <= offset <= spec_max_offset(content as int, outer as int) ==> r == offset,
{
    let max_offset: i64 = if content - outer >= 0 {
        content - outer
    } else {
        0
    };
    if offset < 0 {
        0
    } else if offset > max_offset {
        max_offset
    } else {
        offset
    }
}

/// The half-open row range `[first, last)` that intersects the viewport
/// `[viewport_min, viewport_max]`, for uniform rows of height `row_height`:
/// row `i` spans `[i * row_height, (i + 1) * row_height)`. One extra row of
/// slack is kept past the bottom so a partially visible boundary row is
/// always included; the range always satisfies
/// `0 <= first <= last <= num_rows`, and no intersecting row is omitted.
pub fn rows_in_viewport(viewport_min: i64, viewport_max: i64, row_height: i64, num_rows: i64) -> (r:
    (i64, i64))
    requires
        0 < row_height <= COORD_LIMIT,
        0 <= num_rows <= COORD_LIMIT,
        -COORD_LIMIT <= viewport_min <= COORD_LIMIT,
        -COORD_LIMIT <= viewport_max <= COORD_LIMIT,
    ensures
        0 <= r.0 <= r.1 <= num_rows,
        r.1 == vstd::math::min(
            num_rows as int,
            if viewport_max <= 0 {
                0
            } else {
                (viewport_max + row_height - 1) / (row_height as int) + 1
            },
        ),
        r.0 == vstd::math::min(
            r.1 as int,
            if viewport_min <= 0 {
                0
            } else {
                (viewport_min as int) / (row_height as int)
            },
        ),
        forall|i: int|
            0 <= i < num_rows && #[trigger] (i * row_height) < viewport_max && (i + 1) * row_height
                > viewport_min ==> r.0 <= i < r.1,
{
    let last_raw: i64 = if viewport_max <= 0 {
        0
    } else {
        let vm: u64 = viewport_max as u64;
        let rh: u64 = row_height as u64;
        (((vm + rh - 1) / rh) + 1) as i64
    };
    let last: i64 = if last_raw <= num_rows {
        last_raw
    } else {
        num_rows
    };
    let first_raw: i64 = if viewport_min <= 0 {
        0
    } else {
        ((viewport_min as u64) / (row_height as u64)) as i64
    };
    let first: i64 = if first_raw <= last {
        first_raw
    } else {
        last
    };
    proof {
        let rh = row_height as int;
        assert forall|i: int|
            0 <= i < num_rows && #[trigger] (i * row_height) < viewport_max && (i + 1) * row_height
                > viewport_min implies first <= i < last by {
            assert((i + 1) * rh == i * rh + rh) by (nonlinear_arith);
            if viewport_max <= 0 {
                assert(i * rh >= 0) by (nonlinear_arith)
                    requires
                        i >= 0,
                        rh > 0,
                ;
            } else {
                assert((i + 1) * rh <= viewport_max + rh - 1);
                lemma_div_multiples_vanish(i + 1, rh);
                assert(rh * (i + 1) == (i + 1) * rh) by (nonlinear_arith);
                lemma_div_is_ordered((i + 1) * rh, viewport_max + rh - 1, rh);
                assert(i + 1 <= (viewport_max + rh - 1) / rh);
                assert(i < last_raw);
            }
            if viewport_min > 0 {
                if first_raw > i {
                    lemma_fundamental_div_mod(viewport_min as int, rh);
                    assert(viewport_min as int == rh * ((viewport_min as int) / rh) + (
                    viewport_min as int) % rh);
                    assert(rh * ((viewport_min as int) / rh) >= rh * (i + 1)) by (nonlinear_arith)
                        requires
                            (viewport_min as int) / rh >= i + 1,
                            rh > 0,
                    ;
                    assert(rh * (i + 1) == (i + 1) * rh) by (nonlinear_arith);
                    assert(false);
                }
            }
        }
    }
    (first, last)
}

/// Where a scroll-to request puts the target within the viewport.
#[derive(Clone, Copy, PartialEq, Eq, Structural, Debug)]
pub enum Align {
    /// Target at the top (or left) edge.
    Min,
    /// Target centered.
    Center,
    /// Target at the bottom (or right) edge.
    Max,
}

/// A scroll request issued this frame for one axis.
#[derive(Clone, Copy, PartialEq, Eq, Structural, Debug)]
pub enum ScrollRequest {
    /// No request: keep the current offset.
    Idle,
    /// Scroll to an explicit offset.
    ToOffset(i64),
    /// Scroll by a delta from the current offset.
    ByDelta(i64),
    /// Scroll so the target span `[min, max]` (in content space) sits at
    /// the given alignment; `None` means bring-into-view.
    ToSpan(i64, i64, Option<Align>),
}

impl ScrollRequest {
    /// Request values within the coordinate bound.
    pub open spec fn wf(self) -> bool {
        match self {
            ScrollRequest::Idle => true,
            ScrollRequest::ToOffset(o) => -COORD_LIMIT <= o <= COORD_LIMIT,
            ScrollRequest::ByDelta(d) => -COORD_LIMIT <= d <= COORD_LIMIT,
            ScrollRequest::ToSpan(lo, hi, _) => -COORD_LIMIT <= lo <= hi <= COORD_LIMIT,
        }
    }
}

/// The offset a scroll-to request aims at: the target span's edge or
/// center aligned in the viewport, or, for bring-into-view, the minimal
/// adjustment that makes the span fully visible — no movement at all when
/// it already is, and when the span is taller than the viewport its top
/// edge wins the tie.
pub open spec fn spec_scroll_to_offset(
    current: int,
    span_min: int,
    span_max: int,
    align: Option<Align>,
    outer: int,
) -> int {
    match align {
        Some(Align::Min) => span_min,
        Some(Align::Center) => span_min + (span_max - span_min) / 2 - outer / 2,
        Some(Align::Max) => span_max - outer,
        None => if span_min >= current && span_max <= current + outer {
            current
        } else if span_min < current {
            span_min
        } else {
            span_max - outer
        },
    }
}

pub fn scroll_to_offset(current: i64, span_min: i64, span_max: i64, align: Option<Align>, outer: i64) -> (r:
    i64)
    requires
        -COORD_LIMIT <= current <= COORD_LIMIT,
        -COORD_LIMIT <= span_min <= span_max <= COORD_LIMIT,
        0 <= outer <= COORD_LIMIT,
    ensures
        r == spec_scroll_to_offset(
            current as int,
            span_min as int,
            span_max as int,
            align,
            outer as int,
        ),
{
    match align {
        Some(Align::Min) => span_min,
        Some(Align::Center) => {
            let half_span: i64 = (((span_max - span_min) as u64) / 2) as i64;
            let half_outer: i64 = ((outer as u64) / 2) as i64;
            span_min + half_span - half_outer
        },
        Some(Align::Max) => span_max - outer,
        None => {
            if span_min >= current && span_max <= current + outer {
                current
            } else if span_min < current {
                span_min
            } else {
                span_max - outer
            }
        },
    }
}

/// Bring-into-view makes a span that fits the viewport fully visible, and
/// leaves the offset alone exactly when the span already is fully visible.
pub proof fn lemma_bring_into_view_minimal(
    current: int,
    span_min: int,
    span_max: int,
    outer: int,
)
    requires
        span_min <= span_max,
        0 <= outer,
    ensures
        ({
            let r = spec_scroll_to_offset(current, span_min, span_max, None, outer);
            &&& (span_min >= current && span_max <= current + outer ==> r == current)
            &&& (span_max - span_min <= outer ==> r <= span_min && span_max <= r + outer)
        }),
{
}

/// The persisted scroll position of one axis: the offset, the stick-to-end
/// flag, and the largest legal offset seen last frame (used to tell
/// whether the view was pinned to the end before the content grew).
#[derive(Clone, Copy, PartialEq, Eq, Structural, Debug)]
pub struct ScrollAxis {
    pub offset: i64,
    pub stick_to_end: bool,
    /// `max(0, content - outer)` of the previous frame.
    pub last_max: i64,
}

impl ScrollAxis {
    /// A fresh axis: at the start, not yet scrolled, pinned to the (empty)
    /// end.
    pub fn new(stick_to_end: bool) -> (r: Self)
        ensures
            r.offset == 0,
            r.stick_to_end == stick_to_end,
            r.last_max == 0,
    {
        ScrollAxis { offset: 0, stick_to_end, last_max: 0 }
    }

    pub open spec fn wf(self) -> bool {
        0 <= self.offset <= COORD_LIMIT && 0 <= self.last_max <= COORD_LIMIT
    }
}

/// The offset a request asks for, before clamping.
pub open spec fn spec_requested_offset(s: ScrollAxis, req: ScrollRequest, outer: int) -> int {
    match req {
        ScrollRequest::Idle => s.offset as int,
        ScrollRequest::ToOffset(o) => o as int,
        ScrollRequest::ByDelta(d) => s.offset + d,
        ScrollRequest::ToSpan(lo, hi, align) => spec_scroll_to_offset(
            s.offset as int,
            lo as int,
            hi as int,
            align,
            outer,
        ),
    }
}

/// One frame of the scroll protocol on one axis: resolve the requested
/// offset, apply stick-to-end, and clamp against the content extent.
///
/// Stick-to-end advances the offset to the new maximum only when the view
/// was at the previous maximum and nothing was requested this frame; a
/// manual scroll away from the end therefore suppresses it until the end
/// is reached again.
pub open spec fn spec_axis_step(
    s: ScrollAxis,
    req: ScrollRequest,
    content: i64,
    outer: i64,
) -> ScrollAxis {
    let max_offset = spec_max_offset(content as int, outer as int);
    let pinned = s.stick_to_end && s.offset >= s.last_max && req is Idle;
    let requested = if pinned {
        max_offset
    } else {
        spec_requested_offset(s, req, outer as int)
    };
    ScrollAxis {
        offset: clamp_int(requested, 0, max_offset) as i64,
        stick_to_end: s.stick_to_end,
        last_max: max_offset as i64,
    }
}

impl ScrollAxis {
    /// Advance this axis by one frame; see [`spec_axis_step`]. The
    /// resulting offset always lies in `[0, max(0, content - outer)]`.
    pub fn step(self, req: ScrollRequest, content: i64, outer: i64) -> (r: ScrollAxis)
        requires
            self.wf(),
            req.wf(),
            0 <= content <= COORD_LIMIT,
            0 <= outer <= COORD_LIMIT,
        ensures
            r == spec_axis_step(self, req, content, outer),
            0 <= r.offset <= spec_max_offset(content as int, outer as int),
            r.wf(),
    {
        let max_offset: i64 = if content - outer >= 0 {
            content - outer
        } else {
            0
        };
        let pinned = self.stick_to_end && self.offset >= self.last_max && match req {
            ScrollRequest::Idle => true,
            _ => false,
        };
        let requested: i64 = if pinned {
            max_offset
        } else {
            match req {
                ScrollRequest::Idle => self.offset,
                ScrollRequest::ToOffset(o) => o,
                ScrollRequest::ByDelta(d) => self.offset + d,
                ScrollRequest::ToSpan(lo, hi, align) => scroll_to_offset(
                    self.offset,
                    lo,
                    hi,
                    align,
                    outer,
                ),
            }
        };
        let offset = if requested < 0 {
            0
        } else if requested > max_offset {
            max_offset
        } else {
            requested
        };
        ScrollAxis { offset, stick_to_end: self.stick_to_end, last_max: max_offset }
    }
}

/// Extent clamp: whatever was requested, after extent feedback the offset
/// lies in `[0, max(0, content - outer)]`; since every frame ends in a
/// step, the invariant holds after every sequence of scroll requests.
pub proof fn lemma_extent_clamp(s: ScrollAxis, req: ScrollRequest, content: i64, outer: i64)
    requires
        0 <= content,
        0 <= outer,
    ensures
        0 <= spec_axis_step(s, req, content, outer).offset <= spec_max_offset(
            content as int,
            outer as int,
        ),
{
}

/// With stick-to-end on and no request, a view pinned to the end stays
/// pinned: after the step its offset is exactly the new maximum
/// `max(0, content - outer)`, and it is pinned again for the next frame.
pub proof fn lemma_stick_to_end_step(s: ScrollAxis, content: i64, outer: i64)
    requires
        s.stick_to_end,
        s.offset >= s.last_max,
        0 <= content <= COORD_LIMIT,
        0 <= outer <= COORD_LIMIT,
    ensures
        ({
            let r = spec_axis_step(s, ScrollRequest::Idle, content, outer);
            &&& r.offset == spec_max_offset(content as int, outer as int)
            &&& r.offset >= r.last_max
            &&& r.stick_to_end
        }),
{
}

/// The state after a run of idle frames with the given content extents,
/// oldest first.
pub open spec fn spec_stick_frames(s: ScrollAxis, contents: Seq<i64>, outer: i64) -> ScrollAxis
    decreases contents.len(),
{
    if contents.len() == 0 {
        s
    } else {
        spec_axis_step(spec_stick_frames(s, contents.drop_last(), outer), ScrollRequest::Idle, contents.last(), outer)
    }
}

/// Stick-to-end convergence: from any pinned state (a fresh axis is one),
/// a run of frames with growing content and no manual scrolling ends with
/// the offset exactly at the final content's maximum,
/// `max(0, content - outer)`.
pub proof fn lemma_stick_to_end_convergence(s: ScrollAxis, contents: Seq<i64>, outer: i64)
    requires
        s.stick_to_end,
        s.offset >= s.last_max,
        0 <= outer <= COORD_LIMIT,
        contents.len() > 0,
        forall|i: int| 0 <= i < contents.len() ==> 0 <= #[trigger] contents[i] <= COORD_LIMIT,
    ensures
        ({
            let r = spec_stick_frames(s, contents, outer);
            &&& r.offset == spec_max_offset(contents.last() as int, outer as int)
            &&& r.offset >= r.last_max
            &&& r.stick_to_end
        }),
    decreases contents.len(),
{
    if contents.len() == 1 {
        lemma_stick_to_end_step(s, contents.last(), outer);
    } else {
        lemma_stick_to_end_convergence(s, contents.drop_last(), outer);
        assert(contents.drop_last().last() == contents[contents.len() - 2]);
        lemma_stick_to_end_step(spec_stick_frames(s, contents.drop_last(), outer), contents.last(), outer);
    }
}

/// The persisted state of one scroll region, both axes.
#[derive(Clone, Copy, PartialEq, Eq, Structural, Debug)]
pub struct ScrollState {
    pub x: ScrollAxis,
    pub y: ScrollAxis,
}

impl ScrollState {
    /// A fresh state for a region first seen this frame.
    pub fn new(stick_to_end_x: bool, stick_to_end_y: bool) -> (r: Self)
        ensures
            r.x.offset == 0 && r.y.offset == 0,
            r.x.stick_to_end == stick_to_end_x,
            r.y.stick_to_end == stick_to_end_y,
            r.x.last_max == 0 && r.y.last_max == 0,
    {
        ScrollState { x: ScrollAxis::new(stick_to_end_x), y: ScrollAxis::new(stick_to_end_y) }
    }

    pub open spec fn wf(self) -> bool {
        self.x.wf() && self.y.wf()
    }

    /// The viewport this state shows: the rectangle in content space from
    /// the current offset, of the region's outer size.
    pub fn viewport(&self, outer: Vec2) -> (r: Rect)
        requires
            self.wf(),
            outer.wf(),
            outer.is_extent(),
        ensures
            r.min.x == self.x.offset,
            r.min.y == self.y.offset,
            r.max.x == self.x.offset + outer.x,
            r.max.y == self.y.offset + outer.y,
            r.min.x <= r.max.x && r.min.y <= r.max.y,
    {
        Rect {
            min: Vec2 { x: self.x.offset, y: self.y.offset },
            max: Vec2 { x: self.x.offset + outer.x, y: self.y.offset + outer.y },
        }
    }

    /// Advance both axes by one frame, feeding back the measured content
    /// extent; see [`spec_axis_step`].
    pub fn step(
        self,
        req_x: ScrollRequest,
        req_y: ScrollRequest,
        content: Vec2,
        outer: Vec2,
    ) -> (r: ScrollState)
        requires
            self.wf(),
            req_x.wf(),
            req_y.wf(),
            content.is_extent(),
            content.wf(),
            outer.is_extent(),
            outer.wf(),
        ensures
            r.x == spec_axis_step(self.x, req_x, content.x, outer.x),
            r.y == spec_axis_step(self.y, req_y, content.y, outer.y),
            r.wf(),
    {
        ScrollState {
            x: self.x.step(req_x, content.x, outer.x),
            y: self.y.step(req_y, content.y, outer.y),
        }
    }
}

/// One frame of a row-mode scroll region: resolve the vertical offset
/// against the fixed content height `row_height * num_rows`, and compute
/// the visible row range the caller must populate. The full height is
/// reserved whether or not rows are populated, so the scrollbar reflects
/// the true logical extent.
pub fn show_rows_frame(
    state: ScrollState,
    outer: Vec2,
    row_height: i64,
    num_rows: i64,
    req_y: ScrollRequest,
) -> (r: (ScrollState, (i64, i64)))
    requires
        state.wf(),
        req_y.wf(),
        outer.is_extent(),
        outer.wf(),
        0 < row_height <= COORD_LIMIT,
        0 <= num_rows <= COORD_LIMIT,
        row_height * num_rows <= COORD_LIMIT,
    ensures
        r.0.x == state.x,
        r.0.y == spec_axis_step(state.y, req_y, (row_height * num_rows) as i64, outer.y),
        ({
            let offset = r.0.y.offset;
            &&& 0 <= r.1.0 <= r.1.1 <= num_rows
            &&& r.1.1 == vstd::math::min(
                num_rows as int,
                if offset + outer.y <= 0 {
                    0
                } else {
                    (offset + outer.y + row_height - 1) / (row_height as int) + 1
                },
            )
            &&& r.1.0 == vstd::math::min(
                r.1.1 as int,
                if offset <= 0 {
                    0
                } else {
                    (offset as int) / (row_height as int)
                },
            )
            &&& forall|i: int|
                0 <= i < num_rows && #[trigger] (i * row_height) < offset + outer.y && (i + 1)
                    * row_height > offset ==> r.1.0 <= i < r.1.1
        }),
{
    proof {
        assert(row_height * num_rows >= 0) by (nonlinear_arith)
            requires
                row_height > 0,
                num_rows >= 0,
        ;
    }
    let content_height: i64 = row_height * num_rows;
    let y = state.y.step(req_y, content_height, outer.y);
    let viewport_min = y.offset;
    let viewport_max = y.offset + outer.y;
    let rows = rows_in_viewport(viewport_min, viewport_max, row_height, num_rows);
    (ScrollState { x: state.x, y }, rows)
}

} // verus!
