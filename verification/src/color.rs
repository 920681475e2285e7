//! Colour classification of decoded samples.

use vstd::prelude::*;

verus! {

/// How the samples of an image are to be read: the channel layout together
/// with the number of bits that one sample spans.
#[derive(Clone, Copy, Debug, PartialEq, Eq, Structural, Hash)]
pub enum ColorType {
    /// One luminance channel.
    Gray(u8),
    /// Red, green and blue.
    RGB(u8),
    /// Indices into a colour table.
    Palette(u8),
    /// Luminance and opacity.
    GrayA(u8),
    /// Red, green, blue and opacity.
    RGBA(u8),
}

} // verus!
