//! The slice of the image-loading collaborator the toolkit reads: a
//! per-frame load result and the image configuration a widget carries.

use vstd::prelude::*;
use crate::color::Rgba;
use crate::geom::Vec2;

verus! {

/// What the asynchronous image loader reports this frame.
#[derive(Clone, PartialEq, Eq, Debug)]
pub enum LoadResult {
    /// Still loading; no size known yet.
    Pending,
    /// Loaded; the display size the loader computed for the requested target.
    Ready(Vec2),
    /// Loading failed, with the loader's reason.
    Failed(String),
}

/// An image as a widget sees it: the current load result plus the options
/// the widget itself decides.
#[derive(Clone, PartialEq, Eq, Debug)]
pub struct Image {
    pub load: LoadResult,
    /// Alternative text, used for the accessibility label when there is no
    /// visible label.
    pub alt_text: Option<String>,
    /// Color the image is multiplied with when painted.
    pub tint: Rgba,
    /// Whether to show a loading spinner while the load is pending.
    pub show_loading_spinner: bool,
}

impl Image {
    pub fn new(load: LoadResult) -> (img: Self)
        ensures
            img.load == load,
            img.alt_text is None,
            img.tint == (Rgba { r: 255, g: 255, b: 255, a: 255 }),
            img.show_loading_spinner,
    {
        Image {
            load,
            alt_text: None,
            tint: Rgba { r: 255, g: 255, b: 255, a: 255 },
            show_loading_spinner: true,
        }
    }

    /// The size the image occupies: the loader's computed size when ready,
    /// else all the space offered.
    pub open spec fn spec_display_size(&self, space: Vec2) -> Vec2 {
        match self.load {
            LoadResult::Ready(size) => size,
            _ => space,
        }
    }

    pub fn display_size(&self, space: Vec2) -> (r: Vec2)
        ensures
            r == self.spec_display_size(space),
    {
        match &self.load {
            LoadResult::Ready(size) => *size,
            _ => space,
        }
    }

    /// The load failure to surface through the widget's response, if any.
    pub fn error(&self) -> (r: Option<String>)
        ensures
            match self.load {
                LoadResult::Failed(reason) => r is Some && r->Some_0@ == reason@,
                _ => r is None,
            },
    {
        match &self.load {
            LoadResult::Failed(reason) => Some(reason.clone()),
            _ => None,
        }
    }
}

} // verus!
