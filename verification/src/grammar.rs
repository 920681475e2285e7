//! The header grammars of the four formats.

use vstd::prelude::*;
use vstd::slice::slice_subrange;
use vstd::string::StringSliceAdditionalSpecFns;
use crate::error::{FormatReason, ImageError, ImageResult, PamField};
use crate::header::{
    ArbitraryHeader, ArbitraryTuplType, ArbitraryView, BitmapHeader, GraymapHeader, PixmapHeader,
    SampleEncoding, TuplTypeView,
};
use crate::reader::{byte_at, u32_at, ByteReader};
use crate::token::{
    all_ascii, bytes_eq, find_whitespace, first_whitespace, is_ascii, line_end,
    parse_signed_decimal, parse_signed_u32, trim, trimmed, HASH, LINE_FEED, SPACE,
};
use crate::token::{lemma_line_end_bounds, lemma_trimmed_ascii};

verus! {

/// Width and height as two number tokens.
pub open spec fn bitmap_header_at(s: Seq<u8>, pos: int, encoding: SampleEncoding) -> (
    ImageResult<BitmapHeader>,
    int,
) {
    let (width, p1) = u32_at(s, pos);
    match width {
        Err(e) => (Err(e), p1),
        Ok(width) => {
            let (height, p2) = u32_at(s, p1);
            match height {
                Err(e) => (Err(e), p2),
                Ok(height) => (Ok(BitmapHeader { encoding, height, width }), p2),
            }
        },
    }
}

/// Width, height and largest value as three number tokens.
pub open spec fn pixmap_header_at(s: Seq<u8>, pos: int, encoding: SampleEncoding) -> (
    ImageResult<PixmapHeader>,
    int,
) {
    let (width, p1) = u32_at(s, pos);
    match width {
        Err(e) => (Err(e), p1),
        Ok(width) => {
            let (height, p2) = u32_at(s, p1);
            match height {
                Err(e) => (Err(e), p2),
                Ok(height) => {
                    let (maxval, p3) = u32_at(s, p2);
                    match maxval {
                        Err(e) => (Err(e), p3),
                        Ok(maxval) => (Ok(PixmapHeader { encoding, height, width, maxval }), p3),
                    }
                },
            }
        },
    }
}

/// The grammar of a pixmap, with the largest value taken as white.
pub open spec fn graymap_header_at(s: Seq<u8>, pos: int, encoding: SampleEncoding) -> (
    ImageResult<GraymapHeader>,
    int,
) {
    let (pixmap, end) = pixmap_header_at(s, pos, encoding);
    match pixmap {
        Err(e) => (Err(e), end),
        Ok(p) => (
            Ok(
                GraymapHeader {
                    encoding: p.encoding,
                    height: p.height,
                    width: p.width,
                    maxwhite: p.maxval,
                },
            ),
            end,
        ),
    }
}

/// What the lines of an arbitrary-map header have set so far.
pub struct PamFields {
    pub height: Option<u32>,
    pub width: Option<u32>,
    pub depth: Option<u32>,
    pub maxval: Option<u32>,
    /// The values of the tuple-type lines, joined by single spaces.
    pub tupltype: Option<Seq<u8>>,
}

/// What one line does to the header that is being read.
pub enum PamLine {
    /// The header ends here.
    End,
    /// The header goes on with these fields.
    Next(PamFields),
    /// The header is refused.
    Fail(FormatReason),
}

impl PamFields {
    /// The fields before any line was read.
    pub open spec fn none() -> PamFields {
        PamFields { height: None, width: None, depth: None, maxval: None, tupltype: None }
    }

    /// The value of a scalar field, if a line has set it.
    pub open spec fn get(self, field: PamField) -> Option<u32> {
        match field {
            PamField::Height => self.height,
            PamField::Width => self.width,
            PamField::Depth => self.depth,
            PamField::Maxval => self.maxval,
        }
    }

    /// The fields with a scalar field set.
    pub open spec fn set(self, field: PamField, value: u32) -> PamFields {
        match field {
            PamField::Height => PamFields { height: Some(value), ..self },
            PamField::Width => PamFields { width: Some(value), ..self },
            PamField::Depth => PamFields { depth: Some(value), ..self },
            PamField::Maxval => PamFields { maxval: Some(value), ..self },
        }
    }

    /// The fields after one more tuple-type line.
    pub open spec fn add_tupltype(self, value: Seq<u8>) -> PamFields {
        PamFields {
            tupltype: Some(
                match self.tupltype {
                    None => value,
                    Some(t) => t.push(SPACE) + value,
                },
            ),
            ..self
        }
    }
}

/// The keyword of a line: its bytes before the first whitespace.
pub open spec fn line_word(line: Seq<u8>) -> Seq<u8> {
    line.take(first_whitespace(line, 0))
}

/// The value of a line: what follows the keyword, without the whitespace at
/// its two ends.
pub open spec fn line_value(line: Seq<u8>) -> Seq<u8> {
    trimmed(line.skip(first_whitespace(line, 0)))
}

/// A scalar line: it may come only once, and its value is a decimal number.
pub open spec fn scalar_line(acc: PamFields, field: PamField, value: Seq<u8>) -> PamLine {
    if acc.get(field) is Some {
        PamLine::Fail(FormatReason::DuplicateLine(field))
    } else {
        match parse_signed_decimal(value) {
            Some(v) => PamLine::Next(acc.set(field, v)),
            None => PamLine::Fail(FormatReason::InvalidValue(field)),
        }
    }
}

/// What a line does to the fields read so far. A line that starts with `#`
/// is a comment; any other must be of bytes below 128 and start with one of
/// the six keywords.
pub open spec fn pam_line(acc: PamFields, line: Seq<u8>) -> PamLine {
    if line.len() > 0 && line[0] == HASH {
        PamLine::Next(acc)
    } else if !all_ascii(line) {
        PamLine::Fail(FormatReason::NonAsciiHeaderLine)
    } else if line_word(line) == "ENDHDR".spec_bytes() {
        PamLine::End
    } else if line_word(line) == "HEIGHT".spec_bytes() {
        scalar_line(acc, PamField::Height, line_value(line))
    } else if line_word(line) == "WIDTH".spec_bytes() {
        scalar_line(acc, PamField::Width, line_value(line))
    } else if line_word(line) == "DEPTH".spec_bytes() {
        scalar_line(acc, PamField::Depth, line_value(line))
    } else if line_word(line) == "MAXVAL".spec_bytes() {
        scalar_line(acc, PamField::Maxval, line_value(line))
    } else if line_word(line) == "TUPLTYPE".spec_bytes() {
        PamLine::Next(acc.add_tupltype(line_value(line)))
    } else {
        PamLine::Fail(FormatReason::UnknownHeaderLine)
    }
}

/// The fields that the lines from `pos` on set, up to the line that ends the
/// header, and the index behind the last line read. At the end of the input
/// no line is left to end the header.
pub open spec fn pam_lines(s: Seq<u8>, pos: int, acc: PamFields) -> (
    Result<PamFields, FormatReason>,
    int,
)
    decreases s.len() - pos,
{
    if pos < 0 || pos >= s.len() {
        (Err(FormatReason::UnknownHeaderLine), pos)
    } else {
        let end = line_end(s, pos);
        match pam_line(acc, s.subrange(pos, end)) {
            PamLine::End => (Ok(acc), end),
            PamLine::Fail(reason) => (Err(reason), end),
            PamLine::Next(next) => {
                proof {
                    lemma_line_end_bounds(s, pos);
                }
                pam_lines(s, end, next)
            },
        }
    }
}

/// The characters that bytes below 128 stand for.
pub open spec fn ascii_chars(bytes: Seq<u8>) -> Seq<char> {
    Seq::new(bytes.len(), |i: int| bytes[i] as char)
}

/// The tuple type that a name stands for. The six known names are matched
/// letter for letter; any other name is kept.
pub open spec fn tupltype_of(name: Seq<u8>) -> TuplTypeView {
    if name == "BLACKANDWHITE".spec_bytes() {
        TuplTypeView::BlackAndWhite
    } else if name == "BLACKANDWHITE_ALPHA".spec_bytes() {
        TuplTypeView::BlackAndWhiteAlpha
    } else if name == "GRAYSCALE".spec_bytes() {
        TuplTypeView::Grayscale
    } else if name == "GRAYSCALE_ALPHA".spec_bytes() {
        TuplTypeView::GrayscaleAlpha
    } else if name == "RGB".spec_bytes() {
        TuplTypeView::RGB
    } else if name == "RGB_ALPHA".spec_bytes() {
        TuplTypeView::RGBAlpha
    } else {
        TuplTypeView::Custom(ascii_chars(name))
    }
}

/// The header that the fields make up once the header has ended: each of the
/// four scalars must be there.
pub open spec fn pam_finish(acc: PamFields) -> Result<ArbitraryView, FormatReason> {
    if acc.height is None {
        Err(FormatReason::MissingLine(PamField::Height))
    } else if acc.width is None {
        Err(FormatReason::MissingLine(PamField::Width))
    } else if acc.depth is None {
        Err(FormatReason::MissingLine(PamField::Depth))
    } else if acc.maxval is None {
        Err(FormatReason::MissingLine(PamField::Maxval))
    } else {
        Ok(
            ArbitraryView {
                height: acc.height->0,
                width: acc.width->0,
                depth: acc.depth->0,
                maxval: acc.maxval->0,
                tupltype: match acc.tupltype {
                    None => None,
                    Some(name) => Some(tupltype_of(name)),
                },
            },
        )
    }
}

/// The header of an arbitrary map whose magic constant ends at `pos`: one
/// line feed, then the header lines.
pub open spec fn pam_header_at(s: Seq<u8>, pos: int) -> (ImageResult<ArbitraryView>, int) {
    match byte_at(s, pos).0 {
        None => (Err(ImageError::FormatError(FormatReason::InputTooShort)), pos),
        Some(b) => if b != LINE_FEED {
            (Err(ImageError::FormatError(FormatReason::ExpectedNewline)), pos + 1)
        } else {
            let (fields, end) = pam_lines(s, pos + 1, PamFields::none());
            match fields {
                Err(reason) => (Err(ImageError::FormatError(reason)), end),
                Ok(acc) => match pam_finish(acc) {
                    Err(reason) => (Err(ImageError::FormatError(reason)), end),
                    Ok(header) => (Ok(header), end),
                },
            }
        },
    }
}

/// The fields that the variables of the reading loop stand for.
pub open spec fn fields_of(
    height: Option<u32>,
    width: Option<u32>,
    depth: Option<u32>,
    maxval: Option<u32>,
    tupltype: Option<Vec<u8>>,
) -> PamFields {
    PamFields {
        height,
        width,
        depth,
        maxval,
        tupltype: match tupltype {
            None => None,
            Some(name) => Some(name@),
        },
    }
}

/// `String::from_utf8` of the standard library, on bytes that are all below
/// 128: the string holds one character for each byte, with the byte's number.
#[verifier::external_body]
fn string_from_ascii(bytes: Vec<u8>) -> (r: String)
    requires
        all_ascii(bytes@),
    ensures
        r@ == ascii_chars(bytes@),
{
    match String::from_utf8(bytes) {
        Ok(text) => text,
        Err(_) => String::new(),
    }
}

/// The tuple type that a name stands for.
fn tupltype_from_name(name: Vec<u8>) -> (r: ArbitraryTuplType)
    requires
        all_ascii(name@),
    ensures
        r@ == tupltype_of(name@),
{
    if bytes_eq(name.as_slice(), "BLACKANDWHITE".as_bytes()) {
        ArbitraryTuplType::BlackAndWhite
    } else if bytes_eq(name.as_slice(), "BLACKANDWHITE_ALPHA".as_bytes()) {
        ArbitraryTuplType::BlackAndWhiteAlpha
    } else if bytes_eq(name.as_slice(), "GRAYSCALE".as_bytes()) {
        ArbitraryTuplType::Grayscale
    } else if bytes_eq(name.as_slice(), "GRAYSCALE_ALPHA".as_bytes()) {
        ArbitraryTuplType::GrayscaleAlpha
    } else if bytes_eq(name.as_slice(), "RGB".as_bytes()) {
        ArbitraryTuplType::RGB
    } else if bytes_eq(name.as_slice(), "RGB_ALPHA".as_bytes()) {
        ArbitraryTuplType::RGBAlpha
    } else {
        ArbitraryTuplType::Custom(string_from_ascii(name))
    }
}

/// The value that a scalar line sets, given what the field holds so far.
fn scalar_value(current: Option<u32>, field: PamField, value: &[u8]) -> (r: Result<
    u32,
    FormatReason,
>)
    ensures
        current is Some ==> r == Err::<u32, FormatReason>(FormatReason::DuplicateLine(field)),
        current is None ==> r == match parse_signed_decimal(value@) {
            Some(v) => Ok::<u32, FormatReason>(v),
            None => Err(FormatReason::InvalidValue(field)),
        },
{
    if current.is_some() {
        Err(FormatReason::DuplicateLine(field))
    } else {
        match parse_signed_u32(value) {
            Some(v) => Ok(v),
            None => Err(FormatReason::InvalidValue(field)),
        }
    }
}

/// `name`, a space and `value` in one.
fn join_with_space(name: Vec<u8>, value: &[u8]) -> (r: Vec<u8>)
    ensures
        r@ == name@.push(SPACE) + value@,
{
    let mut joined = name;
    joined.push(SPACE);
    let mut i: usize = 0;
    while i < value.len()
        invariant
            i <= value.len(),
            joined@ == name@.push(SPACE) + value@.take(i as int),
        decreases value.len() - i,
    {
        joined.push(value[i]);
        assert(value@.take(i + 1) =~= value@.take(i as int).push(value@[i as int]));
        i = i + 1;
    }
    assert(value@.take(i as int) =~= value@);
    joined
}

impl ByteReader {
    /// Reads the header of a bitmap behind its magic constant.
    pub fn read_bitmap_header(&mut self, encoding: SampleEncoding) -> (r: ImageResult<
        BitmapHeader,
    >)
        ensures
            final(self).bytes() == old(self).bytes(),
            r == bitmap_header_at(old(self).bytes(), old(self).pos(), encoding).0,
            final(self).pos() == bitmap_header_at(old(self).bytes(), old(self).pos(), encoding).1,
            old(self).pos() <= final(self).pos() <= old(self).bytes().len(),
    {
        let width = match self.read_next_u32() {
            Ok(v) => v,
            Err(e) => return Err(e),
        };
        let height = match self.read_next_u32() {
            Ok(v) => v,
            Err(e) => return Err(e),
        };
        Ok(BitmapHeader { encoding, height, width })
    }

    /// Reads the header of a graymap behind its magic constant.
    pub fn read_graymap_header(&mut self, encoding: SampleEncoding) -> (r: ImageResult<
        GraymapHeader,
    >)
        ensures
            final(self).bytes() == old(self).bytes(),
            r == graymap_header_at(old(self).bytes(), old(self).pos(), encoding).0,
            final(self).pos() == graymap_header_at(old(self).bytes(), old(self).pos(), encoding).1,
            old(self).pos() <= final(self).pos() <= old(self).bytes().len(),
    {
        match self.read_pixmap_header(encoding) {
            Err(e) => Err(e),
            Ok(p) => Ok(
                GraymapHeader {
                    encoding: p.encoding,
                    height: p.height,
                    width: p.width,
                    maxwhite: p.maxval,
                },
            ),
        }
    }

    /// Reads the header of a pixmap behind its magic constant.
    pub fn read_pixmap_header(&mut self, encoding: SampleEncoding) -> (r: ImageResult<
        PixmapHeader,
    >)
        ensures
            final(self).bytes() == old(self).bytes(),
            r == pixmap_header_at(old(self).bytes(), old(self).pos(), encoding).0,
            final(self).pos() == pixmap_header_at(old(self).bytes(), old(self).pos(), encoding).1,
            old(self).pos() <= final(self).pos() <= old(self).bytes().len(),
    {
        let width = match self.read_next_u32() {
            Ok(v) => v,
            Err(e) => return Err(e),
        };
        let height = match self.read_next_u32() {
            Ok(v) => v,
            Err(e) => return Err(e),
        };
        let maxval = match self.read_next_u32() {
            Ok(v) => v,
            Err(e) => return Err(e),
        };
        Ok(PixmapHeader { encoding, height, width, maxval })
    }

    /// Reads the header of an arbitrary map behind its magic constant: a line
    /// feed, then lines of a keyword and a value in any order, up to the line
    /// that ends the header.
    pub fn read_arbitrary_header(&mut self) -> (r: ImageResult<ArbitraryHeader>)
        ensures
            final(self).bytes() == old(self).bytes(),
            final(self).pos() == pam_header_at(old(self).bytes(), old(self).pos()).1,
            old(self).pos() <= final(self).pos() <= old(self).bytes().len(),
            match pam_header_at(old(self).bytes(), old(self).pos()).0 {
                Ok(header) => r matches Ok(h) && h@ == header,
                Err(e) => r matches Err(x) && x == e,
            },
    {
        let ghost s = self.bytes();
        let ghost start = self.pos();
        match self.read_byte() {
            None => {
                return Err(ImageError::FormatError(FormatReason::InputTooShort));
            },
            Some(b) => {
                if b != LINE_FEED {
                    return Err(ImageError::FormatError(FormatReason::ExpectedNewline));
                }
            },
        }
        let mut height: Option<u32> = None;
        let mut width: Option<u32> = None;
        let mut depth: Option<u32> = None;
        let mut maxval: Option<u32> = None;
        let mut tupltype: Option<Vec<u8>> = None;
        loop
            invariant_except_break
                pam_lines(s, start + 1, PamFields::none()) == pam_lines(
                    s,
                    self.pos(),
                    fields_of(height, width, depth, maxval, tupltype),
                ),
            invariant
                self.bytes() == s,
                s == old(self).bytes(),
                start == old(self).pos(),
                byte_at(s, start).0 == Some(LINE_FEED),
                0 <= start < self.pos() <= s.len(),
                tupltype matches Some(name) ==> all_ascii(name@),
            ensures
                self.bytes() == s,
                0 <= start < self.pos() <= s.len(),
                pam_lines(s, start + 1, PamFields::none()) == (
                    Ok::<PamFields, FormatReason>(
                        fields_of(height, width, depth, maxval, tupltype),
                    ),
                    self.pos(),
                ),
                tupltype matches Some(name) ==> all_ascii(name@),
            decreases s.len() - self.pos(),
        {
            let ghost before = self.pos();
            let ghost acc = fields_of(height, width, depth, maxval, tupltype);
            let line = self.read_next_line();
            proof {
                lemma_line_end_bounds(s, before);
            }
            if line.len() == 0 {
                return Err(ImageError::FormatError(FormatReason::UnknownHeaderLine));
            }
            if line[0] == HASH {
                continue ;
            }
            if !is_ascii(line.as_slice()) {
                return Err(ImageError::FormatError(FormatReason::NonAsciiHeaderLine));
            }
            let cut = find_whitespace(line.as_slice());
            let word = slice_subrange(line.as_slice(), 0, cut);
            let value = trim(slice_subrange(line.as_slice(), cut, line.len()));
            proof {
                assert(word@ =~= line_word(line@));
                assert(line@.subrange(cut as int, line@.len() as int) =~= line@.skip(cut as int));
                assert(value@ == line_value(line@));
                lemma_trimmed_ascii(line@.skip(cut as int));
            }
            if bytes_eq(word, "ENDHDR".as_bytes()) {
                break ;
            } else if bytes_eq(word, "HEIGHT".as_bytes()) {
                match scalar_value(height, PamField::Height, value) {
                    Ok(v) => {
                        height = Some(v);
                    },
                    Err(reason) => {
                        return Err(ImageError::FormatError(reason));
                    },
                }
            } else if bytes_eq(word, "WIDTH".as_bytes()) {
                match scalar_value(width, PamField::Width, value) {
                    Ok(v) => {
                        width = Some(v);
                    },
                    Err(reason) => {
                        return Err(ImageError::FormatError(reason));
                    },
                }
            } else if bytes_eq(word, "DEPTH".as_bytes()) {
                match scalar_value(depth, PamField::Depth, value) {
                    Ok(v) => {
                        depth = Some(v);
                    },
                    Err(reason) => {
                        return Err(ImageError::FormatError(reason));
                    },
                }
            } else if bytes_eq(word, "MAXVAL".as_bytes()) {
                match scalar_value(maxval, PamField::Maxval, value) {
                    Ok(v) => {
                        maxval = Some(v);
                    },
                    Err(reason) => {
                        return Err(ImageError::FormatError(reason));
                    },
                }
            } else if bytes_eq(word, "TUPLTYPE".as_bytes()) {
                let joined = match tupltype {
                    None => vstd::slice::slice_to_vec(value),
                    Some(name) => join_with_space(name, value),
                };
                tupltype = Some(joined);
            } else {
                return Err(ImageError::FormatError(FormatReason::UnknownHeaderLine));
            }
        }
        let (h, w, d, m) = match (height, width, depth, maxval) {
            (None, _, _, _) => {
                return Err(
                    ImageError::FormatError(FormatReason::MissingLine(PamField::Height)),
                );
            },
            (_, None, _, _) => {
                return Err(ImageError::FormatError(FormatReason::MissingLine(PamField::Width)));
            },
            (_, _, None, _) => {
                return Err(ImageError::FormatError(FormatReason::MissingLine(PamField::Depth)));
            },
            (_, _, _, None) => {
                return Err(
                    ImageError::FormatError(FormatReason::MissingLine(PamField::Maxval)),
                );
            },
            (Some(h), Some(w), Some(d), Some(m)) => (h, w, d, m),
        };
        let tupltype = match tupltype {
            None => None,
            Some(name) => Some(tupltype_from_name(name)),
        };
        Ok(ArbitraryHeader { height: h, width: w, depth: d, maxval: m, tupltype })
    }
}

} // verus!
