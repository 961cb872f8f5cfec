//! What a text-edit widget hands back to its caller after one frame.

use vstd::prelude::*;
use crate::geom::Rect;
use crate::geom::Vec2;
use crate::response::Response;
use crate::style::Galley;

verus! {

/// A selection or caret in a text buffer, as character-cursor positions.
#[derive(Clone, Copy, PartialEq, Eq, Structural, Debug)]
pub struct CCursorRange {
    /// Where the selection ends (and the caret blinks).
    pub primary: usize,
    /// Where the selection began; equal to `primary` for a plain caret.
    pub secondary: usize,
}

/// The per-identity state a text edit keeps between frames.
#[derive(Clone, Copy, PartialEq, Eq, Structural, Debug)]
pub struct TextEditState {
    pub cursor_range: Option<CCursorRange>,
}

impl TextEditState {
    pub fn new() -> (r: Self)
        ensures
            r.cursor_range is None,
    {
        TextEditState { cursor_range: None }
    }
}

/// The output of showing a text-edit widget for one frame.
#[derive(Clone, PartialEq, Eq, Debug)]
pub struct TextEditOutput {
    /// The interaction response.
    pub response: Response,
    /// How the text was displayed.
    pub galley: Galley,
    /// Where the text ended up on the screen.
    pub galley_pos: Vec2,
    /// The text was clipped to this rectangle when painted.
    pub text_clip_rect: Rect,
    /// The state stored after the run.
    pub state: TextEditState,
    /// Where the text cursor is.
    pub cursor_range: Option<CCursorRange>,
}

} // verus!
