//! Pixel colours and their shortest wire form.

use vstd::prelude::*;

verus! {

/// A colour sample. `Transparent` stands for a pixel that is not drawn at all.
#[derive(Debug, Clone, Copy, PartialEq, Eq, Structural)]
pub enum Color {
    Transparent,
    Grayscale(u8),
    Rgb(u8, u8, u8),
    Rgba(u8, u8, u8, u8),
}

impl Color {
    /// The shortest colour that draws the same pixel as `self`.
    ///
    /// The rules are tried in this order and the first that applies decides:
    /// a gray value is widened to three channels when gray is switched off;
    /// three equal channels become one gray value; an opaque four-channel
    /// colour loses its alpha channel (and becomes gray where its channels
    /// are equal); a fully transparent colour is not drawn; anything else
    /// stays as it is.
    pub open spec fn normalized(self, disable_grayscale_support: bool) -> Color {
        match self {
            Color::Grayscale(c) if disable_grayscale_support => Color::Rgb(c, c, c),
            Color::Rgb(r, g, b) if r == g && r == b => Color::Grayscale(r),
            Color::Rgba(r, g, b, a) if a == 255 && r == g && r == b => Color::Grayscale(r),
            Color::Rgba(r, g, b, a) if a == 255 => Color::Rgb(r, g, b),
            Color::Rgba(_, _, _, a) if a == 0 => Color::Transparent,
            other => other,
        }
    }

    /// Number of hexadecimal digits that `self` takes on the wire.
    pub open spec fn hex_digits(self) -> nat {
        match self {
            Color::Transparent => 0,
            Color::Grayscale(_) => 2,
            Color::Rgb(_, _, _) => 6,
            Color::Rgba(_, _, _, _) => 8,
        }
    }

    /// Reduces `self` to its shortest wire form.
    pub fn normalize(self, disable_grayscale_support: bool) -> (out: Color)
        ensures
            out == self.normalized(disable_grayscale_support),
    {
        match self {
            Color::Grayscale(c) => {
                if disable_grayscale_support {
                    Color::Rgb(c, c, c)
                } else {
                    self
                }
            },
            Color::Rgb(r, g, b) => {
                if r == g && r == b {
                    Color::Grayscale(r)
                } else {
                    self
                }
            },
            Color::Rgba(r, g, b, a) => {
                if a == 255 {
                    if r == g && r == b {
                        Color::Grayscale(r)
                    } else {
                        Color::Rgb(r, g, b)
                    }
                } else if a == 0 {
                    Color::Transparent
                } else {
                    self
                }
            },
            Color::Transparent => self,
        }
    }
}

/// Three equal channels collapse to the one gray value.
pub proof fn lemma_equal_channels_collapse(v: u8)
    ensures
        Color::Rgb(v, v, v).normalized(false) == Color::Grayscale(v),
{
}

/// An opaque four-channel colour normalizes as the same colour without its
/// alpha channel.
pub proof fn lemma_opaque_alpha_is_dropped(r: u8, g: u8, b: u8)
    ensures
        Color::Rgba(r, g, b, 255).normalized(false) == Color::Rgb(r, g, b).normalized(false),
{
}

/// A fully transparent colour is never drawn, whatever its channels.
pub proof fn lemma_transparent_is_skipped(r: u8, g: u8, b: u8, disable_grayscale_support: bool)
    ensures
        Color::Rgba(r, g, b, 0).normalized(disable_grayscale_support) == Color::Transparent,
{
}

/// With gray switched off, a gray value goes out as three equal channels.
pub proof fn lemma_disabled_gray_expands(c: u8)
    ensures
        Color::Grayscale(c).normalized(true) == Color::Rgb(c, c, c),
{
}

/// Normalizing never lengthens the wire form, as long as gray is allowed.
pub proof fn lemma_normalized_is_no_longer(color: Color)
    ensures
        color.normalized(false).hex_digits() <= color.hex_digits(),
{
}

/// With gray allowed, a normalized colour is already in its shortest form.
pub proof fn lemma_normalized_is_stable(color: Color)
    ensures
        color.normalized(false).normalized(false) == color.normalized(false),
{
}

} // verus!
