//! The per-frame pointer state the interaction protocol reads.

use vstd::prelude::*;
use crate::geom::Vec2;

verus! {

/// A snapshot of the pointer for the current frame, as the surrounding
/// event plumbing reports it.
#[derive(Clone, Copy, PartialEq, Eq, Structural, Debug)]
pub struct InputState {
    /// Where the pointer is, if it is over the window at all.
    pub pointer: Option<Vec2>,
    /// Where the primary button went down, while it is held or on the frame
    /// it is released.
    pub press_origin: Option<Vec2>,
    /// The primary button was released this frame.
    pub released: bool,
    /// A drag (press followed by movement) is in progress.
    pub dragging: bool,
}

impl InputState {
    /// No pointer activity at all.
    pub fn idle() -> (r: Self)
        ensures
            r.pointer is None,
            r.press_origin is None,
            !r.released,
            !r.dragging,
    {
        InputState { pointer: None, press_origin: None, released: false, dragging: false }
    }
}

} // verus!
