//! The ways in which decoding can fail.

use vstd::prelude::*;
use crate::color::ColorType;

verus! {

/// One of the four scalar lines that every arbitrary-map header holds once.
#[derive(Clone, Copy, Debug, PartialEq, Eq, Structural, Hash)]
pub enum PamField {
    Height,
    Width,
    Depth,
    Maxval,
}

/// The operations that the decoder offers in name only.
#[derive(Clone, Copy, Debug, PartialEq, Eq, Structural, Hash)]
pub enum Unsupported {
    /// Decoding a single row at a time.
    Scanline,
}

/// Why a byte stream is not a well-formed image.
#[derive(Clone, Copy, Debug, PartialEq, Eq, Structural, Hash)]
pub enum FormatReason {
    /// The first two bytes are not one of `P1` to `P7`.
    BadMagic,
    /// A token was expected where the input has only blanks and comments left.
    UnexpectedEof,
    /// A header token holds a byte above 127.
    NonAsciiToken,
    /// A header token is no decimal number of 32 bits.
    InvalidNumber,
    /// The input ends right after the magic constant of an arbitrary map.
    InputTooShort,
    /// The magic constant of an arbitrary map is not followed by a line feed.
    ExpectedNewline,
    /// A line of an arbitrary-map header holds a byte above 127.
    NonAsciiHeaderLine,
    /// A scalar line occurs for the second time.
    DuplicateLine(PamField),
    /// The value of a scalar line is no decimal number of 32 bits.
    InvalidValue(PamField),
    /// A header line starts with none of the known keywords.
    UnknownHeaderLine,
    /// The header ended without this scalar line.
    MissingLine(PamField),
    /// The largest sample value is above 65535.
    MaxvalTooLarge,
    /// Depth or largest value do not fit a black-and-white tuple.
    InvalidBlackAndWhite,
    /// Depth or largest value do not fit a grayscale tuple.
    InvalidGrayscale,
    /// Depth or largest value do not fit a red-green-blue tuple.
    InvalidRgb,
    /// The tuple type, or the depth where none is given, is not a known one.
    TupleTypeNotRecognized,
    /// A sample token holds a byte above 127.
    NonAsciiSample,
    /// A sample token is no decimal number of 32 bits.
    InvalidSample,
    /// A sample is larger than its kind allows.
    SampleOutOfBounds,
}

/// An error met while opening or decoding an image.
#[derive(Clone, Copy, Debug, PartialEq, Eq, Structural, Hash)]
pub enum ImageError {
    /// The bytes break the grammar of the format.
    FormatError(FormatReason),
    /// The input ended before the bytes that the format asks for.
    NotEnoughData,
    /// The image is well formed, but of a colour layout that is not decoded.
    UnsupportedColor(ColorType),
    /// The image is too large for this machine to speak of its size.
    DimensionError,
    /// The operation is not offered.
    UnsupportedError(Unsupported),
}

/// A result with an [`ImageError`].
pub type ImageResult<T> = Result<T, ImageError>;

impl PamField {
    /// The keyword of the line, as it stands in a header.
    pub fn keyword(self) -> (r: &'static str)
        ensures
            r@ == self.keyword_spec(),
    {
        match self {
            PamField::Height => "HEIGHT",
            PamField::Width => "WIDTH",
            PamField::Depth => "DEPTH",
            PamField::Maxval => "MAXVAL",
        }
    }

    /// The keyword of the line, as it stands in a header.
    pub open spec fn keyword_spec(self) -> Seq<char> {
        match self {
            PamField::Height => "HEIGHT"@,
            PamField::Width => "WIDTH"@,
            PamField::Depth => "DEPTH"@,
            PamField::Maxval => "MAXVAL"@,
        }
    }
}

} // verus!
