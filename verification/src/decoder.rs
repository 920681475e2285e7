//! The decoder: it reads the magic constant and the header when it is made,
//! and the samples when it is asked for them.

use vstd::prelude::*;
use crate::color::ColorType;
use crate::error::{FormatReason, ImageError, ImageResult, Unsupported};
use crate::grammar::{bitmap_header_at, graymap_header_at, pam_header_at, pixmap_header_at};
use crate::header::{HeaderRecord, HeaderView, PNMHeader, PNMSubtype, SampleEncoding};
use crate::reader::{magic_at, ByteReader};
use crate::sample::{
    fitting, sample_count, sample_count_wide, BWBit, DecodingResult, PbmBit, Samples, U16, U8,
};
use crate::token::{
    all_ascii, is_ascii, parse_signed_decimal, parse_signed_u32, token_end, token_text,
    DIGIT_ZERO,
};
use crate::token::lemma_token_end_bounds;
use crate::tuple::{tuple_type_of, TupleType};

verus! {

/// The letter `P`, with which every magic constant starts.
pub const MAGIC_LETTER: u8 = 80;

/// The format that the digit of a magic constant announces: `1` to `3` for
/// a bitmap, a graymap and a pixmap as text, `4` to `6` for the same three
/// as raw bytes, and `7` for an arbitrary map.
pub open spec fn subtype_of_digit(digit: u8) -> Option<PNMSubtype> {
    if digit == DIGIT_ZERO + 1 {
        Some(PNMSubtype::Bitmap(SampleEncoding::Ascii))
    } else if digit == DIGIT_ZERO + 2 {
        Some(PNMSubtype::Graymap(SampleEncoding::Ascii))
    } else if digit == DIGIT_ZERO + 3 {
        Some(PNMSubtype::Pixmap(SampleEncoding::Ascii))
    } else if digit == DIGIT_ZERO + 4 {
        Some(PNMSubtype::Bitmap(SampleEncoding::Binary))
    } else if digit == DIGIT_ZERO + 5 {
        Some(PNMSubtype::Graymap(SampleEncoding::Binary))
    } else if digit == DIGIT_ZERO + 6 {
        Some(PNMSubtype::Pixmap(SampleEncoding::Binary))
    } else if digit == DIGIT_ZERO + 7 {
        Some(PNMSubtype::ArbitraryMap)
    } else {
        None
    }
}

/// The header that follows a magic constant which ends at `pos`.
pub open spec fn subtype_header_at(s: Seq<u8>, pos: int, subtype: PNMSubtype) -> (
    ImageResult<HeaderView>,
    int,
) {
    match subtype {
        PNMSubtype::Bitmap(encoding) => {
            let (header, end) = bitmap_header_at(s, pos, encoding);
            match header {
                Ok(h) => (Ok(HeaderView::Bitmap(h)), end),
                Err(e) => (Err(e), end),
            }
        },
        PNMSubtype::Graymap(encoding) => {
            let (header, end) = graymap_header_at(s, pos, encoding);
            match header {
                Ok(h) => (Ok(HeaderView::Graymap(h)), end),
                Err(e) => (Err(e), end),
            }
        },
        PNMSubtype::Pixmap(encoding) => {
            let (header, end) = pixmap_header_at(s, pos, encoding);
            match header {
                Ok(h) => (Ok(HeaderView::Pixmap(h)), end),
                Err(e) => (Err(e), end),
            }
        },
        PNMSubtype::ArbitraryMap => {
            let (header, end) = pam_header_at(s, pos);
            match header {
                Ok(h) => (Ok(HeaderView::Arbitrary(h)), end),
                Err(e) => (Err(e), end),
            }
        },
    }
}

/// The header of the image that starts at `pos`, and the index behind it:
/// the magic constant, then the header of the format that it announces.
pub open spec fn header_at(s: Seq<u8>, pos: int) -> (ImageResult<HeaderView>, int) {
    let (magic, end) = magic_at(s, pos);
    match magic {
        Err(e) => (Err(e), end),
        Ok(m) => if m.0 != MAGIC_LETTER {
            (Err(ImageError::FormatError(FormatReason::BadMagic)), end)
        } else {
            match subtype_of_digit(m.1) {
                None => (Err(ImageError::FormatError(FormatReason::BadMagic)), end),
                Some(subtype) => subtype_header_at(s, end, subtype),
            }
        },
    }
}

/// What opening the image that starts at `pos` gives: its header, the layout
/// of its samples and the index at which the samples start.
pub open spec fn opened_at(s: Seq<u8>, pos: int) -> ImageResult<(HeaderView, TupleType, int)> {
    match header_at(s, pos).0 {
        Err(e) => Err(e),
        Ok(header) => match tuple_type_of(header) {
            Err(e) => Err(e),
            Ok(tuple) => Ok((header, tuple, header_at(s, pos).1)),
        },
    }
}

/// The raw samples at `pos`: exactly as many bytes as the image takes.
pub open spec fn binary_at(tuple: TupleType, width: u32, height: u32, s: Seq<u8>, pos: int) -> (
    ImageResult<Samples>,
    int,
) {
    let need = tuple.byte_len(width, height);
    if pos + need <= s.len() {
        (tuple.decoded(s.subrange(pos, pos + need), width, height), pos + need)
    } else {
        (Err(ImageError::NotEnoughData), s.len() as int)
    }
}

/// The number that the token at `pos` gives for a sample, and where the scan
/// for it leaves off. The token is of bytes below 128 and writes a decimal
/// number, which may carry a `+`.
pub open spec fn sample_token_at(s: Seq<u8>, pos: int) -> (ImageResult<u32>, int) {
    let token = token_text(s, pos);
    let value = if !all_ascii(token) {
        Err(ImageError::FormatError(FormatReason::NonAsciiSample))
    } else {
        match parse_signed_decimal(token) {
            Some(v) => Ok(v),
            None => Err(ImageError::FormatError(FormatReason::InvalidSample)),
        }
    };
    (value, token_end(s, pos))
}

/// The sample that the token at `pos` stands for.
pub open spec fn sample_at(tuple: TupleType, s: Seq<u8>, pos: int) -> (ImageResult<u32>, int) {
    let (number, end) = sample_token_at(s, pos);
    match number {
        Err(e) => (Err(e), end),
        Ok(v) => match tuple.sample_value(v) {
            Some(x) => (Ok(x), end),
            None => (Err(ImageError::FormatError(FormatReason::SampleOutOfBounds)), end),
        },
    }
}

/// The first `count` samples of the text at `pos`, and the index behind the
/// last token read. The first token that gives no sample ends the reading.
pub open spec fn ascii_run(tuple: TupleType, s: Seq<u8>, pos: int, count: nat) -> (
    ImageResult<Seq<u32>>,
    int,
)
    decreases count,
{
    if count == 0 {
        (Ok(Seq::empty()), pos)
    } else {
        let (before, mid) = ascii_run(tuple, s, pos, (count - 1) as nat);
        match before {
            Err(e) => (Err(e), mid),
            Ok(values) => {
                let (sample, end) = sample_at(tuple, s, mid);
                match sample {
                    Err(e) => (Err(e), end),
                    Ok(x) => (Ok(values.push(x)), end),
                }
            },
        }
    }
}

/// Numbers as samples of eight bits.
pub open spec fn narrow(values: Seq<u32>) -> Seq<u8> {
    Seq::new(values.len(), |i: int| values[i] as u8)
}

/// Numbers as samples of sixteen bits.
pub open spec fn wide(values: Seq<u32>) -> Seq<u16> {
    Seq::new(values.len(), |i: int| values[i] as u16)
}

/// The samples that the text at `pos` gives: one token for each sample.
pub open spec fn ascii_at(tuple: TupleType, width: u32, height: u32, s: Seq<u8>, pos: int) -> (
    ImageResult<Samples>,
    int,
) {
    let (run, end) = ascii_run(
        tuple,
        s,
        pos,
        sample_count(width, height, tuple.components()) as nat,
    );
    match run {
        Err(e) => (Err(e), end),
        Ok(values) => if tuple.is_wide() {
            (Ok(Samples::U16(wide(values))), end)
        } else {
            (Ok(Samples::U8(narrow(values))), end)
        },
    }
}

/// The samples of an image whose header ends at `pos`, and the index behind
/// them.
pub open spec fn samples_at(header: HeaderView, tuple: TupleType, s: Seq<u8>, pos: int) -> (
    ImageResult<Samples>,
    int,
) {
    match header.subtype().encoding() {
        SampleEncoding::Binary => binary_at(tuple, header.width(), header.height(), s, pos),
        SampleEncoding::Ascii => ascii_at(tuple, header.width(), header.height(), s, pos),
    }
}

/// Once a token has given no sample, reading further changes nothing.
pub proof fn lemma_ascii_run_stops(tuple: TupleType, s: Seq<u8>, pos: int, read: nat, count: nat)
    requires
        read <= count,
        ascii_run(tuple, s, pos, read).0 is Err,
    ensures
        ascii_run(tuple, s, pos, count) == ascii_run(tuple, s, pos, read),
    decreases count,
{
    if read < count {
        lemma_ascii_run_stops(tuple, s, pos, read, (count - 1) as nat);
    }
}

/// Reading samples from a text moves forward in the input.
pub proof fn lemma_ascii_run_bounds(tuple: TupleType, s: Seq<u8>, pos: int, count: nat)
    requires
        0 <= pos <= s.len(),
    ensures
        pos <= ascii_run(tuple, s, pos, count).1 <= s.len(),
        ascii_run(tuple, s, pos, count).0 matches Ok(values) ==> values.len() == count,
    decreases count,
{
    if count > 0 {
        lemma_ascii_run_bounds(tuple, s, pos, (count - 1) as nat);
        lemma_token_end_bounds(s, ascii_run(tuple, s, pos, (count - 1) as nat).1);
    }
}

/// The number of bytes of an image is not negative.
pub proof fn lemma_byte_len_nonnegative(tuple: TupleType, width: u32, height: u32)
    ensures
        0 <= tuple.byte_len(width, height),
{
    let c = tuple.components();
    assert(0 <= (width as int) * (height as int) * (c as int)) by (nonlinear_arith)
        requires
            0 <= width,
            0 <= height,
            0 <= c,
    ;
    let line = (width as int) * (c as int);
    assert(0 <= line) by (nonlinear_arith)
        requires
            line == (width as int) * (c as int),
            0 <= width,
            0 <= c,
    ;
    let packed = crate::sample::packed_len(line);
    assert(0 <= packed * (height as int)) by (nonlinear_arith)
        requires
            0 <= packed,
            0 <= height,
    ;
}

/// A decoder for one image.
#[derive(Debug)]
pub struct PNMDecoder {
    reader: ByteReader,
    header: PNMHeader,
    tuple: TupleType,
}

/// The format that the digit of a magic constant announces.
fn digit_subtype(digit: u8) -> (r: Option<PNMSubtype>)
    ensures
        r == subtype_of_digit(digit),
{
    if digit == DIGIT_ZERO + 1 {
        Some(PNMSubtype::Bitmap(SampleEncoding::Ascii))
    } else if digit == DIGIT_ZERO + 2 {
        Some(PNMSubtype::Graymap(SampleEncoding::Ascii))
    } else if digit == DIGIT_ZERO + 3 {
        Some(PNMSubtype::Pixmap(SampleEncoding::Ascii))
    } else if digit == DIGIT_ZERO + 4 {
        Some(PNMSubtype::Bitmap(SampleEncoding::Binary))
    } else if digit == DIGIT_ZERO + 5 {
        Some(PNMSubtype::Graymap(SampleEncoding::Binary))
    } else if digit == DIGIT_ZERO + 6 {
        Some(PNMSubtype::Pixmap(SampleEncoding::Binary))
    } else if digit == DIGIT_ZERO + 7 {
        Some(PNMSubtype::ArbitraryMap)
    } else {
        None
    }
}

/// What a decoder made from a header is: the header, the layout that the
/// header settles on, and the reader where the header left it.
pub open spec fn decoder_for(
    r: ImageResult<PNMDecoder>,
    header: ImageResult<HeaderView>,
    s: Seq<u8>,
    end: int,
) -> bool {
    match header {
        Err(e) => r matches Err(x) && x == e,
        Ok(h) => match tuple_type_of(h) {
            Err(e) => r matches Err(x) && x == e,
            Ok(tuple) => r matches Ok(d) && d.header() == h && d.tuple() == tuple && d.input()
                == s && d.position() == end,
        },
    }
}

impl PNMDecoder {
    /// Whether the layout of the samples is the one that the header settles
    /// on. It is so for every decoder that `new` has made.
    pub open spec fn settled(&self) -> bool {
        tuple_type_of(self.header()) == Ok::<TupleType, ImageError>(self.tuple())
    }

    /// The header that was read.
    pub closed spec fn header(&self) -> HeaderView {
        self.header@
    }

    /// The layout of the samples.
    pub closed spec fn tuple(&self) -> TupleType {
        self.tuple
    }

    /// All bytes of the input.
    pub closed spec fn input(&self) -> Seq<u8> {
        self.reader.bytes()
    }

    /// The number of bytes of the input that were read.
    pub closed spec fn position(&self) -> int {
        self.reader.pos()
    }

    /// Makes a decoder for the image that `read` is about to give. The magic
    /// constant and the header are read at once.
    pub fn new(read: ByteReader) -> (r: ImageResult<PNMDecoder>)
        ensures
            match opened_at(read.bytes(), read.pos()) {
                Ok((header, tuple, end)) => r matches Ok(d) && d.header() == header && d.tuple()
                    == tuple && d.input() == read.bytes() && d.position() == end && d.settled(),
                Err(e) => r matches Err(x) && x == e,
            },
    {
        let mut buf = read;
        let magic = match buf.read_magic_constant() {
            Ok(m) => m,
            Err(e) => {
                return Err(e);
            },
        };
        if magic[0] != MAGIC_LETTER {
            return Err(ImageError::FormatError(FormatReason::BadMagic));
        }
        let subtype = match digit_subtype(magic[1]) {
            Some(subtype) => subtype,
            None => {
                return Err(ImageError::FormatError(FormatReason::BadMagic));
            },
        };
        match subtype {
            PNMSubtype::Bitmap(enc) => PNMDecoder::read_bitmap_header(buf, enc),
            PNMSubtype::Graymap(enc) => PNMDecoder::read_graymap_header(buf, enc),
            PNMSubtype::Pixmap(enc) => PNMDecoder::read_pixmap_header(buf, enc),
            PNMSubtype::ArbitraryMap => PNMDecoder::read_arbitrary_header(buf),
        }
    }

    /// Gives back the reader, where the decoder left it, and the header.
    pub fn into_inner(self) -> (r: (ByteReader, PNMHeader))
        ensures
            r.0.bytes() == self.input(),
            r.0.pos() == self.position(),
            r.1@ == self.header(),
    {
        (self.reader, self.header)
    }

    /// Reads the header of a bitmap and makes its decoder.
    fn read_bitmap_header(reader: ByteReader, encoding: SampleEncoding) -> (r: ImageResult<
        PNMDecoder,
    >)
        ensures
            decoder_for(
                r,
                subtype_header_at(reader.bytes(), reader.pos(), PNMSubtype::Bitmap(encoding)).0,
                reader.bytes(),
                subtype_header_at(reader.bytes(), reader.pos(), PNMSubtype::Bitmap(encoding)).1,
            ),
    {
        let mut reader = reader;
        let header = match reader.read_bitmap_header(encoding) {
            Ok(h) => h,
            Err(e) => {
                return Err(e);
            },
        };
        Ok(
            PNMDecoder {
                reader,
                tuple: TupleType::PbmBit,
                header: PNMHeader { decoded: HeaderRecord::Bitmap(header) },
            },
        )
    }

    /// Reads the header of a graymap and makes its decoder.
    fn read_graymap_header(reader: ByteReader, encoding: SampleEncoding) -> (r: ImageResult<
        PNMDecoder,
    >)
        ensures
            decoder_for(
                r,
                subtype_header_at(reader.bytes(), reader.pos(), PNMSubtype::Graymap(encoding)).0,
                reader.bytes(),
                subtype_header_at(reader.bytes(), reader.pos(), PNMSubtype::Graymap(encoding)).1,
            ),
    {
        let mut reader = reader;
        let header = match reader.read_graymap_header(encoding) {
            Ok(h) => h,
            Err(e) => {
                return Err(e);
            },
        };
        let tuple_type = match header.tuple_type() {
            Ok(t) => t,
            Err(e) => {
                return Err(e);
            },
        };
        Ok(
            PNMDecoder {
                reader,
                tuple: tuple_type,
                header: PNMHeader { decoded: HeaderRecord::Graymap(header) },
            },
        )
    }

    /// Reads the header of a pixmap and makes its decoder.
    fn read_pixmap_header(reader: ByteReader, encoding: SampleEncoding) -> (r: ImageResult<
        PNMDecoder,
    >)
        ensures
            decoder_for(
                r,
                subtype_header_at(reader.bytes(), reader.pos(), PNMSubtype::Pixmap(encoding)).0,
                reader.bytes(),
                subtype_header_at(reader.bytes(), reader.pos(), PNMSubtype::Pixmap(encoding)).1,
            ),
    {
        let mut reader = reader;
        let header = match reader.read_pixmap_header(encoding) {
            Ok(h) => h,
            Err(e) => {
                return Err(e);
            },
        };
        let tuple_type = match header.tuple_type() {
            Ok(t) => t,
            Err(e) => {
                return Err(e);
            },
        };
        Ok(
            PNMDecoder {
                reader,
                tuple: tuple_type,
                header: PNMHeader { decoded: HeaderRecord::Pixmap(header) },
            },
        )
    }

    /// Reads the header of an arbitrary map and makes its decoder.
    fn read_arbitrary_header(reader: ByteReader) -> (r: ImageResult<PNMDecoder>)
        ensures
            decoder_for(
                r,
                subtype_header_at(reader.bytes(), reader.pos(), PNMSubtype::ArbitraryMap).0,
                reader.bytes(),
                subtype_header_at(reader.bytes(), reader.pos(), PNMSubtype::ArbitraryMap).1,
            ),
    {
        let mut reader = reader;
        let header = match reader.read_arbitrary_header() {
            Ok(h) => h,
            Err(e) => {
                return Err(e);
            },
        };
        let tuple_type = match header.tuple_type() {
            Ok(t) => t,
            Err(e) => {
                return Err(e);
            },
        };
        Ok(
            PNMDecoder {
                reader,
                tuple: tuple_type,
                header: PNMHeader { decoded: HeaderRecord::Arbitrary(header) },
            },
        )
    }

    /// Width and height of the image.
    pub fn dimensions(&mut self) -> (r: ImageResult<(u32, u32)>)
        ensures
            r == Ok::<(u32, u32), ImageError>((old(self).header().width(), old(self).header().height())),
            final(self).header() == old(self).header(),
            final(self).tuple() == old(self).tuple(),
            final(self).input() == old(self).input(),
            final(self).position() == old(self).position(),
    {
        Ok((self.header.width(), self.header.height()))
    }

    /// The colour classification of the samples that `read_image` gives.
    pub fn colortype(&mut self) -> (r: ImageResult<ColorType>)
        ensures
            r == Ok::<ColorType, ImageError>(old(self).tuple().color_spec()),
            final(self).header() == old(self).header(),
            final(self).tuple() == old(self).tuple(),
            final(self).input() == old(self).input(),
            final(self).position() == old(self).position(),
    {
        Ok(self.tuple.color())
    }

    /// Number of bytes that one row of raw samples takes.
    pub fn row_len(&mut self) -> (r: ImageResult<usize>)
        ensures
            r == fitting(old(self).tuple().byte_len(old(self).header().width(), 1)),
            final(self).header() == old(self).header(),
            final(self).tuple() == old(self).tuple(),
            final(self).input() == old(self).input(),
            final(self).position() == old(self).position(),
    {
        self.rowlen()
    }

    /// Decoding row by row is not offered: the call always fails, and reads
    /// nothing.
    pub fn read_scanline(&mut self, _buf: &mut [u8]) -> (r: ImageResult<u32>)
        ensures
            r == Err::<u32, ImageError>(ImageError::UnsupportedError(Unsupported::Scanline)),
            final(self).header() == old(self).header(),
            final(self).tuple() == old(self).tuple(),
            final(self).input() == old(self).input(),
            final(self).position() == old(self).position(),
            final(_buf)@ == old(_buf)@,
    {
        Err(ImageError::UnsupportedError(Unsupported::Scanline))
    }

    /// Reads the samples of the image, all at once, from where the header
    /// ended.
    pub fn read_image(&mut self) -> (r: ImageResult<DecodingResult>)
        ensures
            final(self).header() == old(self).header(),
            final(self).tuple() == old(self).tuple(),
            final(self).input() == old(self).input(),
            final(self).position() == samples_at(
                old(self).header(),
                old(self).tuple(),
                old(self).input(),
                old(self).position(),
            ).1,
            match samples_at(
                old(self).header(),
                old(self).tuple(),
                old(self).input(),
                old(self).position(),
            ).0 {
                Ok(samples) => r matches Ok(d) && d@ == samples,
                Err(e) => r matches Err(x) && x == e,
            },
    {
        self.read()
    }

    /// Number of bytes that one row of raw samples takes.
    fn rowlen(&self) -> (r: ImageResult<usize>)
        ensures
            r == fitting(self.tuple().byte_len(self.header().width(), 1)),
    {
        match self.tuple {
            TupleType::PbmBit => PbmBit::bytelen(self.header.width(), 1, 1),
            TupleType::BWBit => BWBit::bytelen(self.header.width(), 1, 1),
            TupleType::RGBU8 => U8::bytelen(self.header.width(), 1, 3),
            TupleType::RGBU16 => U16::bytelen(self.header.width(), 1, 3),
            TupleType::GrayU8 => U8::bytelen(self.header.width(), 1, 1),
            TupleType::GrayU16 => U16::bytelen(self.header.width(), 1, 1),
        }
    }

    /// Reads the samples, as many to a pixel as the layout has.
    fn read(&mut self) -> (r: ImageResult<DecodingResult>)
        ensures
            final(self).header() == old(self).header(),
            final(self).tuple() == old(self).tuple(),
            final(self).input() == old(self).input(),
            final(self).position() == samples_at(
                old(self).header(),
                old(self).tuple(),
                old(self).input(),
                old(self).position(),
            ).1,
            match samples_at(
                old(self).header(),
                old(self).tuple(),
                old(self).input(),
                old(self).position(),
            ).0 {
                Ok(samples) => r matches Ok(d) && d@ == samples,
                Err(e) => r matches Err(x) && x == e,
            },
    {
        match self.tuple {
            TupleType::PbmBit => self.read_samples(1),
            TupleType::BWBit => self.read_samples(1),
            TupleType::RGBU8 => self.read_samples(3),
            TupleType::RGBU16 => self.read_samples(3),
            TupleType::GrayU8 => self.read_samples(1),
            TupleType::GrayU16 => self.read_samples(1),
        }
    }

    /// Reads the samples as the format writes them: as raw bytes, of which
    /// there must be as many as the image takes, or as a text.
    fn read_samples(&mut self, components: u32) -> (r: ImageResult<DecodingResult>)
        requires
            components == old(self).tuple().components(),
        ensures
            final(self).header() == old(self).header(),
            final(self).tuple() == old(self).tuple(),
            final(self).input() == old(self).input(),
            final(self).position() == samples_at(
                old(self).header(),
                old(self).tuple(),
                old(self).input(),
                old(self).position(),
            ).1,
            match samples_at(
                old(self).header(),
                old(self).tuple(),
                old(self).input(),
                old(self).position(),
            ).0 {
                Ok(samples) => r matches Ok(d) && d@ == samples,
                Err(e) => r matches Err(x) && x == e,
            },
    {
        match self.subtype().sample_encoding() {
            SampleEncoding::Binary => {
                let width = self.header.width();
                let height = self.header.height();
                proof {
                    lemma_byte_len_nonnegative(self.tuple, width, height);
                }
                let left = self.reader.remaining_len();
                let bytecount = match self.tuple.bytelen(width, height) {
                    Ok(n) => n,
                    Err(_) => {
                        // More bytes than this machine can count are more
                        // than are left.
                        self.reader.skip_to_end();
                        return Err(ImageError::NotEnoughData);
                    },
                };
                if bytecount > left {
                    self.reader.skip_to_end();
                    return Err(ImageError::NotEnoughData);
                }
                match self.reader.read_exact(bytecount) {
                    Some(bytes) => self.tuple.from_bytes(bytes.as_slice(), width, height),
                    None => Err(ImageError::NotEnoughData),
                }
            },
            SampleEncoding::Ascii => self.read_ascii(components),
        }
    }

    /// Reads the samples from a text, one token for each.
    fn read_ascii(&mut self, components: u32) -> (r: ImageResult<DecodingResult>)
        requires
            components == old(self).tuple().components(),
        ensures
            final(self).header() == old(self).header(),
            final(self).tuple() == old(self).tuple(),
            final(self).input() == old(self).input(),
            final(self).position() == ascii_at(
                old(self).tuple(),
                old(self).header().width(),
                old(self).header().height(),
                old(self).input(),
                old(self).position(),
            ).1,
            match ascii_at(
                old(self).tuple(),
                old(self).header().width(),
                old(self).header().height(),
                old(self).input(),
                old(self).position(),
            ).0 {
                Ok(samples) => r matches Ok(d) && d@ == samples,
                Err(e) => r matches Err(x) && x == e,
            },
    {
        let count = sample_count_wide(self.header.width(), self.header.height(), components);
        let ghost s = self.input();
        let ghost start = self.position();
        let ghost tuple = self.tuple;
        if self.tuple == TupleType::GrayU16 || self.tuple == TupleType::RGBU16 {
            let mut buffer: Vec<u16> = Vec::new();
            let ghost mut values: Seq<u32> = Seq::empty();
            let mut done: u128 = 0;
            while done < count
                invariant
                    done <= count,
                    self.header() == old(self).header(),
                    self.tuple() == tuple,
                    tuple == old(self).tuple(),
                    tuple.is_wide(),
                    self.input() == s,
                    s == old(self).input(),
                    start == old(self).position(),
                    count == sample_count(
                        old(self).header().width(),
                        old(self).header().height(),
                        tuple.components(),
                    ),
                    ascii_run(tuple, s, start, done as nat) == (
                        Ok::<Seq<u32>, ImageError>(values),
                        self.position(),
                    ),
                    values.len() == done,
                    buffer@ == wide(values),
                decreases count - done,
            {
                let value = match self.read_ascii_sample() {
                    Ok(v) => v,
                    Err(e) => {
                        proof {
                            lemma_ascii_run_stops(tuple, s, start, (done + 1) as nat, count as nat);
                        }
                        return Err(e);
                    },
                };
                let sample = match self.tuple.wide_from_unsigned(value) {
                    Ok(x) => x,
                    Err(e) => {
                        proof {
                            lemma_ascii_run_stops(tuple, s, start, (done + 1) as nat, count as nat);
                        }
                        return Err(e);
                    },
                };
                buffer.push(sample);
                proof {
                    let x = tuple.sample_value(value)->0;
                    values = values.push(x);
                    assert(buffer@ =~= wide(values));
                }
                done = done + 1;
            }
            Ok(DecodingResult::U16(buffer))
        } else {
            let mut buffer: Vec<u8> = Vec::new();
            let ghost mut values: Seq<u32> = Seq::empty();
            let mut done: u128 = 0;
            while done < count
                invariant
                    done <= count,
                    self.header() == old(self).header(),
                    self.tuple() == tuple,
                    tuple == old(self).tuple(),
                    !tuple.is_wide(),
                    self.input() == s,
                    s == old(self).input(),
                    start == old(self).position(),
                    count == sample_count(
                        old(self).header().width(),
                        old(self).header().height(),
                        tuple.components(),
                    ),
                    ascii_run(tuple, s, start, done as nat) == (
                        Ok::<Seq<u32>, ImageError>(values),
                        self.position(),
                    ),
                    values.len() == done,
                    buffer@ == narrow(values),
                decreases count - done,
            {
                let value = match self.read_ascii_sample() {
                    Ok(v) => v,
                    Err(e) => {
                        proof {
                            lemma_ascii_run_stops(tuple, s, start, (done + 1) as nat, count as nat);
                        }
                        return Err(e);
                    },
                };
                let sample = match self.tuple.narrow_from_unsigned(value) {
                    Ok(x) => x,
                    Err(e) => {
                        proof {
                            lemma_ascii_run_stops(tuple, s, start, (done + 1) as nat, count as nat);
                        }
                        return Err(e);
                    },
                };
                buffer.push(sample);
                proof {
                    let x = tuple.sample_value(value)->0;
                    values = values.push(x);
                    assert(buffer@ =~= narrow(values));
                }
                done = done + 1;
            }
            Ok(DecodingResult::U8(buffer))
        }
    }

    /// Reads the next token of a text as the number of a sample.
    fn read_ascii_sample(&mut self) -> (r: ImageResult<u32>)
        ensures
            final(self).header() == old(self).header(),
            final(self).tuple() == old(self).tuple(),
            final(self).input() == old(self).input(),
            r == sample_token_at(old(self).input(), old(self).position()).0,
            final(self).position() == sample_token_at(old(self).input(), old(self).position()).1,
            old(self).position() <= final(self).position() <= old(self).input().len(),
    {
        let token = self.reader.read_token();
        if !is_ascii(token.as_slice()) {
            return Err(ImageError::FormatError(FormatReason::NonAsciiSample));
        }
        match parse_signed_u32(token.as_slice()) {
            Some(v) => Ok(v),
            None => Err(ImageError::FormatError(FormatReason::InvalidSample)),
        }
    }

    /// The format of the image, as its magic constant announced it.
    pub fn subtype(&self) -> (r: PNMSubtype)
        ensures
            r == self.header().subtype(),
    {
        self.header.subtype()
    }
}

} // verus!
