//! Header records of the four image formats, and their mathematical views.

use vstd::prelude::*;

verus! {

/// How the samples that follow a header are written down.
#[derive(Clone, Copy, Debug, PartialEq, Eq, Structural, Hash)]
pub enum SampleEncoding {
    /// Raw bytes.
    Binary,
    /// Decimal numbers separated by blanks.
    Ascii,
}

/// The format that a magic constant announces.
#[derive(Clone, Copy, Debug, PartialEq, Eq, Structural, Hash)]
pub enum PNMSubtype {
    /// Magic constants `P1` and `P4`.
    Bitmap(SampleEncoding),
    /// Magic constants `P2` and `P5`.
    Graymap(SampleEncoding),
    /// Magic constants `P3` and `P6`.
    Pixmap(SampleEncoding),
    /// Magic constant `P7`.
    ArbitraryMap,
}

/// Header of a bitmap: samples are single bits, so no largest value is given.
#[derive(Clone, Copy, Debug, PartialEq, Eq, Structural, Hash)]
pub struct BitmapHeader {
    pub encoding: SampleEncoding,
    pub height: u32,
    pub width: u32,
}

/// Header of a graymap.
#[derive(Clone, Copy, Debug, PartialEq, Eq, Structural, Hash)]
pub struct GraymapHeader {
    pub encoding: SampleEncoding,
    pub height: u32,
    pub width: u32,
    /// The sample value that stands for white.
    pub maxwhite: u32,
}

/// Header of a pixmap.
#[derive(Clone, Copy, Debug, PartialEq, Eq, Structural, Hash)]
pub struct PixmapHeader {
    pub encoding: SampleEncoding,
    pub height: u32,
    pub width: u32,
    /// The largest value of a sample.
    pub maxval: u32,
}

/// What the tuples of an arbitrary map stand for.
#[derive(Clone, Debug, PartialEq, Eq, Hash)]
pub enum ArbitraryTuplType {
    BlackAndWhite,
    BlackAndWhiteAlpha,
    Grayscale,
    GrayscaleAlpha,
    RGB,
    RGBAlpha,
    /// A name that is none of the six known ones, kept as it was read.
    Custom(String),
}

/// Header of an arbitrary map.
#[derive(Clone, Debug, PartialEq, Eq, Hash)]
pub struct ArbitraryHeader {
    pub height: u32,
    pub width: u32,
    /// Number of samples in one tuple.
    pub depth: u32,
    /// The largest value of a sample.
    pub maxval: u32,
    pub tupltype: Option<ArbitraryTuplType>,
}

/// The header of one of the four formats.
#[derive(Clone, Debug, PartialEq, Eq, Hash)]
pub enum HeaderRecord {
    Bitmap(BitmapHeader),
    Graymap(GraymapHeader),
    Pixmap(PixmapHeader),
    Arbitrary(ArbitraryHeader),
}

/// The header of an image as the decoder hands it out.
#[derive(Clone, Debug, PartialEq, Eq, Hash)]
pub struct PNMHeader {
    pub decoded: HeaderRecord,
}

/// View of an [`ArbitraryTuplType`]: a custom name becomes its characters.
pub enum TuplTypeView {
    BlackAndWhite,
    BlackAndWhiteAlpha,
    Grayscale,
    GrayscaleAlpha,
    RGB,
    RGBAlpha,
    Custom(Seq<char>),
}

/// View of an [`ArbitraryHeader`].
pub struct ArbitraryView {
    pub height: u32,
    pub width: u32,
    pub depth: u32,
    pub maxval: u32,
    pub tupltype: Option<TuplTypeView>,
}

/// View of a [`HeaderRecord`] and of a [`PNMHeader`].
pub enum HeaderView {
    Bitmap(BitmapHeader),
    Graymap(GraymapHeader),
    Pixmap(PixmapHeader),
    Arbitrary(ArbitraryView),
}

impl View for ArbitraryTuplType {
    type V = TuplTypeView;

    open spec fn view(&self) -> TuplTypeView {
        match self {
            ArbitraryTuplType::BlackAndWhite => TuplTypeView::BlackAndWhite,
            ArbitraryTuplType::BlackAndWhiteAlpha => TuplTypeView::BlackAndWhiteAlpha,
            ArbitraryTuplType::Grayscale => TuplTypeView::Grayscale,
            ArbitraryTuplType::GrayscaleAlpha => TuplTypeView::GrayscaleAlpha,
            ArbitraryTuplType::RGB => TuplTypeView::RGB,
            ArbitraryTuplType::RGBAlpha => TuplTypeView::RGBAlpha,
            ArbitraryTuplType::Custom(name) => TuplTypeView::Custom(name@),
        }
    }
}

impl View for ArbitraryHeader {
    type V = ArbitraryView;

    open spec fn view(&self) -> ArbitraryView {
        ArbitraryView {
            height: self.height,
            width: self.width,
            depth: self.depth,
            maxval: self.maxval,
            tupltype: match self.tupltype {
                Some(t) => Some(t@),
                None => None,
            },
        }
    }
}

impl View for HeaderRecord {
    type V = HeaderView;

    open spec fn view(&self) -> HeaderView {
        match self {
            HeaderRecord::Bitmap(h) => HeaderView::Bitmap(*h),
            HeaderRecord::Graymap(h) => HeaderView::Graymap(*h),
            HeaderRecord::Pixmap(h) => HeaderView::Pixmap(*h),
            HeaderRecord::Arbitrary(h) => HeaderView::Arbitrary(h@),
        }
    }
}

impl View for PNMHeader {
    type V = HeaderView;

    open spec fn view(&self) -> HeaderView {
        self.decoded@
    }
}

impl PNMSubtype {
    /// The encoding of the samples. Those of an arbitrary map are always raw
    /// bytes.
    pub open spec fn encoding(self) -> SampleEncoding {
        match self {
            PNMSubtype::Bitmap(enc) => enc,
            PNMSubtype::Graymap(enc) => enc,
            PNMSubtype::Pixmap(enc) => enc,
            PNMSubtype::ArbitraryMap => SampleEncoding::Binary,
        }
    }

    /// The encoding of the samples.
    pub fn sample_encoding(self) -> (r: SampleEncoding)
        ensures
            r == self.encoding(),
    {
        match self {
            PNMSubtype::Bitmap(enc) => enc,
            PNMSubtype::Graymap(enc) => enc,
            PNMSubtype::Pixmap(enc) => enc,
            PNMSubtype::ArbitraryMap => SampleEncoding::Binary,
        }
    }
}

impl HeaderView {
    /// The format that the header belongs to.
    pub open spec fn subtype(self) -> PNMSubtype {
        match self {
            HeaderView::Bitmap(h) => PNMSubtype::Bitmap(h.encoding),
            HeaderView::Graymap(h) => PNMSubtype::Graymap(h.encoding),
            HeaderView::Pixmap(h) => PNMSubtype::Pixmap(h.encoding),
            HeaderView::Arbitrary(_) => PNMSubtype::ArbitraryMap,
        }
    }

    /// Number of columns.
    pub open spec fn width(self) -> u32 {
        match self {
            HeaderView::Bitmap(h) => h.width,
            HeaderView::Graymap(h) => h.width,
            HeaderView::Pixmap(h) => h.width,
            HeaderView::Arbitrary(h) => h.width,
        }
    }

    /// Number of rows.
    pub open spec fn height(self) -> u32 {
        match self {
            HeaderView::Bitmap(h) => h.height,
            HeaderView::Graymap(h) => h.height,
            HeaderView::Pixmap(h) => h.height,
            HeaderView::Arbitrary(h) => h.height,
        }
    }
}

impl PNMHeader {
    /// The format that the header belongs to.
    pub fn subtype(&self) -> (r: PNMSubtype)
        ensures
            r == self@.subtype(),
    {
        match &self.decoded {
            HeaderRecord::Bitmap(h) => PNMSubtype::Bitmap(h.encoding),
            HeaderRecord::Graymap(h) => PNMSubtype::Graymap(h.encoding),
            HeaderRecord::Pixmap(h) => PNMSubtype::Pixmap(h.encoding),
            HeaderRecord::Arbitrary(_) => PNMSubtype::ArbitraryMap,
        }
    }

    /// Number of columns.
    pub fn width(&self) -> (r: u32)
        ensures
            r == self@.width(),
    {
        match &self.decoded {
            HeaderRecord::Bitmap(h) => h.width,
            HeaderRecord::Graymap(h) => h.width,
            HeaderRecord::Pixmap(h) => h.width,
            HeaderRecord::Arbitrary(h) => h.width,
        }
    }

    /// Number of rows.
    pub fn height(&self) -> (r: u32)
        ensures
            r == self@.height(),
    {
        match &self.decoded {
            HeaderRecord::Bitmap(h) => h.height,
            HeaderRecord::Graymap(h) => h.height,
            HeaderRecord::Pixmap(h) => h.height,
            HeaderRecord::Arbitrary(h) => h.height,
        }
    }
}

} // verus!
