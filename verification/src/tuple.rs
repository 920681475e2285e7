//! The sample layouts that can be decoded, and how a header settles on one.

use vstd::prelude::*;
use crate::color::ColorType;
use crate::error::{FormatReason, ImageError, ImageResult};
use crate::header::{
    ArbitraryHeader, ArbitraryTuplType, ArbitraryView, BitmapHeader, GraymapHeader,
    HeaderRecord, HeaderView, PNMHeader, PixmapHeader, TuplTypeView,
};

verus! {

/// All combinations of channel layout and sample width that are decoded.
#[derive(Clone, Copy, Debug, PartialEq, Eq, Structural, Hash)]
pub enum TupleType {
    /// Bits of a bitmap, eight to a byte, where a set bit is black.
    PbmBit,
    /// Black-and-white samples of an arbitrary map, one to a byte.
    BWBit,
    GrayU8,
    GrayU16,
    RGBU8,
    RGBU16,
}

impl TupleType {
    /// The colour classification of decoded samples.
    pub open spec fn color_spec(self) -> ColorType {
        match self {
            TupleType::PbmBit => ColorType::Gray(1),
            TupleType::BWBit => ColorType::Gray(1),
            TupleType::GrayU8 => ColorType::Gray(8),
            TupleType::GrayU16 => ColorType::Gray(16),
            TupleType::RGBU8 => ColorType::RGB(8),
            TupleType::RGBU16 => ColorType::RGB(16),
        }
    }

    /// Number of samples that make up one pixel.
    pub open spec fn components(self) -> u32 {
        match self {
            TupleType::RGBU8 | TupleType::RGBU16 => 3,
            _ => 1,
        }
    }

    /// Whether a decoded sample takes sixteen bits.
    pub open spec fn is_wide(self) -> bool {
        self == TupleType::GrayU16 || self == TupleType::RGBU16
    }

    /// The colour classification of decoded samples.
    pub fn color(self) -> (r: ColorType)
        ensures
            r == self.color_spec(),
    {
        match self {
            TupleType::PbmBit => ColorType::Gray(1),
            TupleType::BWBit => ColorType::Gray(1),
            TupleType::GrayU8 => ColorType::Gray(8),
            TupleType::GrayU16 => ColorType::Gray(16),
            TupleType::RGBU8 => ColorType::RGB(8),
            TupleType::RGBU16 => ColorType::RGB(16),
        }
    }
}

/// The layout that a largest sample value selects: `narrow` up to 255, `wide`
/// up to 65535, and none above.
pub open spec fn by_maxval(maxval: u32, narrow: TupleType, wide: TupleType) -> ImageResult<
    TupleType,
> {
    if maxval <= 0xFF {
        Ok(narrow)
    } else if maxval <= 0xFFFF {
        Ok(wide)
    } else {
        Err(ImageError::FormatError(FormatReason::MaxvalTooLarge))
    }
}

/// The layout of an arbitrary map. Without a tuple type the depth alone
/// decides; with one, depth and largest value must fit it. Layouts with an
/// opacity channel are recognised and not decoded.
pub open spec fn arbitrary_tuple_type(h: ArbitraryView) -> ImageResult<TupleType> {
    match h.tupltype {
        None => if h.depth == 1 {
            Ok(TupleType::GrayU8)
        } else if h.depth == 2 {
            Err(ImageError::UnsupportedColor(ColorType::GrayA(8)))
        } else if h.depth == 3 {
            Ok(TupleType::RGBU8)
        } else if h.depth == 4 {
            Err(ImageError::UnsupportedColor(ColorType::RGBA(8)))
        } else {
            Err(ImageError::FormatError(FormatReason::TupleTypeNotRecognized))
        },
        Some(TuplTypeView::BlackAndWhite) => if h.depth == 1 && h.maxval == 1 {
            Ok(TupleType::BWBit)
        } else {
            Err(ImageError::FormatError(FormatReason::InvalidBlackAndWhite))
        },
        Some(TuplTypeView::Grayscale) => if h.depth == 1 && h.maxval <= 0xFF {
            Ok(TupleType::GrayU8)
        } else if h.depth == 1 && h.maxval <= 0xFFFF {
            Ok(TupleType::GrayU16)
        } else {
            Err(ImageError::FormatError(FormatReason::InvalidGrayscale))
        },
        Some(TuplTypeView::RGB) => if h.depth == 3 && h.maxval <= 0xFF {
            Ok(TupleType::RGBU8)
        } else if h.depth == 3 && h.maxval <= 0xFFFF {
            Ok(TupleType::RGBU16)
        } else {
            Err(ImageError::FormatError(FormatReason::InvalidRgb))
        },
        Some(TuplTypeView::BlackAndWhiteAlpha) => Err(
            ImageError::UnsupportedColor(ColorType::GrayA(1)),
        ),
        Some(TuplTypeView::GrayscaleAlpha) => Err(
            ImageError::UnsupportedColor(ColorType::GrayA(8)),
        ),
        Some(TuplTypeView::RGBAlpha) => Err(ImageError::UnsupportedColor(ColorType::RGBA(8))),
        Some(TuplTypeView::Custom(_)) => Err(
            ImageError::FormatError(FormatReason::TupleTypeNotRecognized),
        ),
    }
}

/// The layout that a header settles on, or why it settles on none.
pub open spec fn tuple_type_of(h: HeaderView) -> ImageResult<TupleType> {
    match h {
        HeaderView::Bitmap(_) => Ok(TupleType::PbmBit),
        HeaderView::Graymap(g) => by_maxval(g.maxwhite, TupleType::GrayU8, TupleType::GrayU16),
        HeaderView::Pixmap(p) => by_maxval(p.maxval, TupleType::RGBU8, TupleType::RGBU16),
        HeaderView::Arbitrary(a) => arbitrary_tuple_type(a),
    }
}

impl BitmapHeader {
    /// A bitmap always holds packed bits.
    pub fn tuple_type(&self) -> (r: ImageResult<TupleType>)
        ensures
            r == tuple_type_of(HeaderView::Bitmap(*self)),
    {
        Ok(TupleType::PbmBit)
    }
}

impl GraymapHeader {
    /// Eight-bit gray up to a white of 255, sixteen-bit gray up to 65535.
    pub fn tuple_type(&self) -> (r: ImageResult<TupleType>)
        ensures
            r == tuple_type_of(HeaderView::Graymap(*self)),
    {
        if self.maxwhite <= 0xFF {
            Ok(TupleType::GrayU8)
        } else if self.maxwhite <= 0xFFFF {
            Ok(TupleType::GrayU16)
        } else {
            Err(ImageError::FormatError(FormatReason::MaxvalTooLarge))
        }
    }
}

impl PixmapHeader {
    /// Eight-bit colour up to a largest value of 255, sixteen-bit colour up to
    /// 65535.
    pub fn tuple_type(&self) -> (r: ImageResult<TupleType>)
        ensures
            r == tuple_type_of(HeaderView::Pixmap(*self)),
    {
        if self.maxval <= 0xFF {
            Ok(TupleType::RGBU8)
        } else if self.maxval <= 0xFFFF {
            Ok(TupleType::RGBU16)
        } else {
            Err(ImageError::FormatError(FormatReason::MaxvalTooLarge))
        }
    }
}

impl ArbitraryHeader {
    /// The layout that tuple type, depth and largest value call for.
    pub fn tuple_type(&self) -> (r: ImageResult<TupleType>)
        ensures
            r == arbitrary_tuple_type(self@),
            r == tuple_type_of(HeaderView::Arbitrary(self@)),
    {
        match &self.tupltype {
            None => {
                if self.depth == 1 {
                    Ok(TupleType::GrayU8)
                } else if self.depth == 2 {
                    Err(ImageError::UnsupportedColor(ColorType::GrayA(8)))
                } else if self.depth == 3 {
                    Ok(TupleType::RGBU8)
                } else if self.depth == 4 {
                    Err(ImageError::UnsupportedColor(ColorType::RGBA(8)))
                } else {
                    Err(ImageError::FormatError(FormatReason::TupleTypeNotRecognized))
                }
            },
            Some(ArbitraryTuplType::BlackAndWhite) => {
                if self.maxval == 1 && self.depth == 1 {
                    Ok(TupleType::BWBit)
                } else {
                    Err(ImageError::FormatError(FormatReason::InvalidBlackAndWhite))
                }
            },
            Some(ArbitraryTuplType::Grayscale) => {
                if self.depth == 1 && self.maxval <= 0xFF {
                    Ok(TupleType::GrayU8)
                } else if self.depth == 1 && self.maxval <= 0xFFFF {
                    Ok(TupleType::GrayU16)
                } else {
                    Err(ImageError::FormatError(FormatReason::InvalidGrayscale))
                }
            },
            Some(ArbitraryTuplType::RGB) => {
                if self.depth == 3 && self.maxval <= 0xFF {
                    Ok(TupleType::RGBU8)
                } else if self.depth == 3 && self.maxval <= 0xFFFF {
                    Ok(TupleType::RGBU16)
                } else {
                    Err(ImageError::FormatError(FormatReason::InvalidRgb))
                }
            },
            Some(ArbitraryTuplType::BlackAndWhiteAlpha) => Err(
                ImageError::UnsupportedColor(ColorType::GrayA(1)),
            ),
            Some(ArbitraryTuplType::GrayscaleAlpha) => Err(
                ImageError::UnsupportedColor(ColorType::GrayA(8)),
            ),
            Some(ArbitraryTuplType::RGBAlpha) => Err(
                ImageError::UnsupportedColor(ColorType::RGBA(8)),
            ),
            Some(ArbitraryTuplType::Custom(_)) => Err(
                ImageError::FormatError(FormatReason::TupleTypeNotRecognized),
            ),
        }
    }
}

impl PNMHeader {
    /// The layout that the header settles on.
    pub fn tuple_type(&self) -> (r: ImageResult<TupleType>)
        ensures
            r == tuple_type_of(self@),
    {
        match &self.decoded {
            HeaderRecord::Bitmap(h) => h.tuple_type(),
            HeaderRecord::Graymap(h) => h.tuple_type(),
            HeaderRecord::Pixmap(h) => h.tuple_type(),
            HeaderRecord::Arbitrary(h) => h.tuple_type(),
        }
    }
}

} // verus!
