//! A decoder for the portable bitmap, graymap, pixmap and arbitrary-map
//! image formats.
//!
//! A [`PNMDecoder`] is made from a [`ByteReader`] over the bytes of an image.
//! It reads the magic constant and the header at once and the samples on
//! request, and gives the reader back behind the last byte it has read.

pub mod color;
pub mod decoder;
pub mod error;
pub mod grammar;
pub mod header;
pub mod laws;
pub mod reader;
pub mod sample;
pub mod token;
pub mod tuple;

pub use color::ColorType;
pub use decoder::PNMDecoder;
pub use error::{FormatReason, ImageError, ImageResult, PamField, Unsupported};
pub use header::{
    ArbitraryHeader, ArbitraryTuplType, BitmapHeader, GraymapHeader, HeaderRecord, PNMHeader,
    PNMSubtype, PixmapHeader, SampleEncoding,
};
pub use reader::ByteReader;
pub use sample::DecodingResult;
pub use tuple::TupleType;
