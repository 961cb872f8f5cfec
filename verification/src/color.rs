//! Colors in premultiplied gamma-space RGBA, and the one color computation
//! the toolkit borrows from its paint backend: gamma-space multiplication,
//! used to make an image's tint follow the text color.

use vstd::prelude::*;

verus! {

/// A color with premultiplied alpha, in gamma space, one byte per channel.
#[derive(Clone, Copy, PartialEq, Eq, Structural, Debug)]
pub struct Rgba {
    pub r: u8,
    pub g: u8,
    pub b: u8,
    pub a: u8,
}

impl Rgba {
    pub fn new(r: u8, g: u8, b: u8, a: u8) -> (c: Self)
        ensures
            c == (Rgba { r, g, b, a }),
    {
        Rgba { r, g, b, a }
    }

    /// Fully transparent (and, premultiplied, black).
    pub fn transparent() -> (c: Self)
        ensures
            c == (Rgba { r: 0, g: 0, b: 0, a: 0 }),
    {
        Rgba { r: 0, g: 0, b: 0, a: 0 }
    }

    /// Opaque white: the identity of gamma-space multiplication.
    pub fn white() -> (c: Self)
        ensures
            c == (Rgba { r: 255, g: 255, b: 255, a: 255 }),
    {
        Rgba { r: 255, g: 255, b: 255, a: 255 }
    }
}

/// The gamma-space product of two color channels, as the paint backend
/// rounds it.
pub uninterp spec fn gamma_mul_channel(a: u8, b: u8) -> u8;

/// Relies on `epaint::Color32`'s `Mul` impl: per-channel gamma-space
/// multiplication, `fast_round(a * b / 255.0)`, a function of the two
/// channel values alone. Multiplying by 255 returns the other channel
/// unchanged, and multiplying by 0 gives 0, as that formula plainly shows.
#[verifier::external_body]
pub(crate) fn gamma_multiply(x: Rgba, y: Rgba) -> (c: Rgba)
    ensures
        c.r == gamma_mul_channel(x.r, y.r),
        c.g == gamma_mul_channel(x.g, y.g),
        c.b == gamma_mul_channel(x.b, y.b),
        c.a == gamma_mul_channel(x.a, y.a),
        x.r == 255 ==> c.r == y.r,
        x.g == 255 ==> c.g == y.g,
        x.b == 255 ==> c.b == y.b,
        x.a == 255 ==> c.a == y.a,
        y.r == 255 ==> c.r == x.r,
        y.g == 255 ==> c.g == x.g,
        y.b == 255 ==> c.b == x.b,
        y.a == 255 ==> c.a == x.a,
        x.r == 0 || y.r == 0 ==> c.r == 0,
        x.g == 0 || y.g == 0 ==> c.g == 0,
        x.b == 0 || y.b == 0 ==> c.b == 0,
        x.a == 0 || y.a == 0 ==> c.a == 0,
{
    let cx = epaint::Color32::from_rgba_premultiplied(x.r, x.g, x.b, x.a);
    let cy = epaint::Color32::from_rgba_premultiplied(y.r, y.g, y.b, y.a);
    let m = cx * cy;
    let [r, g, b, a] = m.to_array();
    Rgba { r, g, b, a }
}

/// The tint an image is painted with: the configured tint, multiplied by the
/// resolved text color when the widget couples image appearance to
/// interaction state.
pub fn resolve_image_tint(follows_text_color: bool, tint: Rgba, text_color: Rgba) -> (c: Rgba)
    ensures
        !follows_text_color ==> c == tint,
        follows_text_color ==> c.r == gamma_mul_channel(tint.r, text_color.r)
            && c.g == gamma_mul_channel(tint.g, text_color.g)
            && c.b == gamma_mul_channel(tint.b, text_color.b)
            && c.a == gamma_mul_channel(tint.a, text_color.a),
        follows_text_color && tint == (Rgba { r: 255, g: 255, b: 255, a: 255 }) ==> c
            == text_color,
{
    if follows_text_color {
        gamma_multiply(tint, text_color)
    } else {
        tint
    }
}

} // verus!
