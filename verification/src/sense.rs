//! Which pointer interactions a widget region tracks.

use vstd::prelude::*;

verus! {

/// The set of interactions a region is configured to detect.
///
/// Hover is always tracked; `click` and `drag` opt into the press/release and
/// drag protocols, and `focusable` lets the region take keyboard focus.
#[derive(Clone, Copy, PartialEq, Eq, Structural, Debug)]
pub struct Sense {
    pub click: bool,
    pub drag: bool,
    pub focusable: bool,
}

impl Sense {
    /// Track hovering only.
    pub fn hover() -> (r: Self)
        ensures
            !r.click && !r.drag && !r.focusable,
    {
        Sense { click: false, drag: false, focusable: false }
    }

    /// Track clicks (and take focus), the default for buttons.
    pub fn click() -> (r: Self)
        ensures
            r.click && !r.drag && r.focusable,
    {
        Sense { click: true, drag: false, focusable: true }
    }

    /// Track drags (and take focus).
    pub fn drag() -> (r: Self)
        ensures
            !r.click && r.drag && r.focusable,
    {
        Sense { click: false, drag: true, focusable: true }
    }

    /// Track clicks and drags.
    pub fn click_and_drag() -> (r: Self)
        ensures
            r.click && r.drag && r.focusable,
    {
        Sense { click: true, drag: true, focusable: true }
    }
}

} // verus!
