//! What holds of every image, stated over the functions that the contracts
//! of the decoder use.

use vstd::prelude::*;
use vstd::arithmetic::div_mod::lemma_fundamental_div_mod_converse;
use vstd::string::StringSliceAdditionalSpecFns;
use vstd::utf8::{is_ascii_chars, is_ascii_chars_encode_utf8};
use crate::color::ColorType;
use crate::decoder::{
    ascii_at, ascii_run, binary_at, header_at, opened_at, sample_token_at, samples_at,
    subtype_header_at, subtype_of_digit,
};
use crate::decoder::{lemma_ascii_run_bounds, lemma_ascii_run_stops, lemma_byte_len_nonnegative};
use crate::error::{FormatReason, ImageError, PamField};
use crate::grammar::{
    line_word, pam_header_at, pam_line, pam_lines, scalar_line, PamFields, PamLine,
};
use crate::header::{ArbitraryView, HeaderView, PNMSubtype, SampleEncoding};
use crate::reader::byte_at;
use crate::sample::{
    all_bilevel, big_endian_pairs, packed_len, packed_sample, sample_count, unpacked_bits, Samples,
};
use crate::token::{all_ascii, line_end, token_end, LINE_FEED};
use crate::token::{
    lemma_first_whitespace_bounds, lemma_line_end_bounds, lemma_token_end_bounds,
};
use crate::tuple::{arbitrary_tuple_type, tuple_type_of, TupleType};

verus! {

/// Raw samples of eight bits, gray or coloured, are the bytes of the input as
/// they stand: as many as the image has samples, each unchanged, and what
/// follows them is left unread.
pub proof fn lemma_raw_eight_bit_samples_are_the_bytes(
    header: HeaderView,
    tuple: TupleType,
    s: Seq<u8>,
    pos: int,
)
    requires
        header.subtype().encoding() == SampleEncoding::Binary,
        tuple_type_of(header) == Ok::<TupleType, ImageError>(tuple),
        tuple == TupleType::GrayU8 || tuple == TupleType::RGBU8,
        0 <= pos,
        pos + sample_count(header.width(), header.height(), tuple.components()) <= s.len(),
    ensures
        ({
            let count = sample_count(header.width(), header.height(), tuple.components());
            &&& samples_at(header, tuple, s, pos) == (
                Ok::<Samples, ImageError>(Samples::U8(s.subrange(pos, pos + count))),
                pos + count,
            )
            &&& s.subrange(pos, pos + count).len() == count
            &&& forall|i: int|
                0 <= i < count ==> #[trigger] s.subrange(pos, pos + count)[i] == s[pos + i]
        }),
{
    lemma_byte_len_nonnegative(tuple, header.width(), header.height());
}

/// Raw samples of sixteen bits are pairs of bytes with the high byte first:
/// sample `i` is 256 times byte `2 i` of the payload plus byte `2 i + 1`.
pub proof fn lemma_raw_sixteen_bit_samples_are_big_endian(
    header: HeaderView,
    tuple: TupleType,
    s: Seq<u8>,
    pos: int,
)
    requires
        header.subtype().encoding() == SampleEncoding::Binary,
        tuple_type_of(header) == Ok::<TupleType, ImageError>(tuple),
        tuple == TupleType::GrayU16 || tuple == TupleType::RGBU16,
        0 <= pos,
        pos + 2 * sample_count(header.width(), header.height(), tuple.components()) <= s.len(),
    ensures
        ({
            let count = sample_count(header.width(), header.height(), tuple.components());
            &&& samples_at(header, tuple, s, pos).1 == pos + 2 * count
            &&& samples_at(header, tuple, s, pos).0 matches Ok(Samples::U16(v))
            &&& v.len() == count
            &&& forall|i: int|
                0 <= i < count ==> #[trigger] v[i] == 256 * s[pos + 2 * i] + s[pos + 2 * i + 1]
        }),
{
    lemma_byte_len_nonnegative(tuple, header.width(), header.height());
    let count = sample_count(header.width(), header.height(), tuple.components());
    let payload = s.subrange(pos, pos + 2 * count);
    assert(payload.len() == 2 * count);
    let v = big_endian_pairs(payload);
    assert(v.len() == count);
    assert forall|i: int| 0 <= i < count implies #[trigger] v[i] == 256 * s[pos + 2 * i] + s[pos
        + 2 * i + 1] by {
        assert(payload[2 * i] == s[pos + 2 * i]);
        assert(payload[2 * i + 1] == s[pos + 2 * i + 1]);
    }
}

/// An arbitrary map of depth 2 without a tuple type is well formed and not
/// decoded: it is refused as an unsupported colour layout, and so is every
/// input whose header reads so.
pub proof fn lemma_depth_two_without_tuple_type_is_unsupported(
    header: ArbitraryView,
    s: Seq<u8>,
    pos: int,
)
    requires
        header.tupltype is None,
        header.depth == 2,
    ensures
        arbitrary_tuple_type(header) == Err::<TupleType, ImageError>(
            ImageError::UnsupportedColor(ColorType::GrayA(8)),
        ),
        header_at(s, pos).0 == Ok::<HeaderView, ImageError>(HeaderView::Arbitrary(header))
            ==> opened_at(s, pos) == Err::<(HeaderView, TupleType, int), ImageError>(
            ImageError::UnsupportedColor(ColorType::GrayA(8)),
        ),
{
}

/// A number stands for a sample exactly if it is not above the ceiling of
/// the layout: no number is cut down to fit.
pub proof fn lemma_sample_value_within_ceiling(tuple: TupleType, val: u32)
    ensures
        tuple.sample_value(val) is Some <==> val <= tuple.ceiling(),
        tuple.sample_value(val) matches Some(x) ==> x <= tuple.ceiling(),
        tuple.sample_value(val) matches Some(x) ==> x == if tuple == TupleType::PbmBit {
            1 - val
        } else {
            val as int
        },
{
}

/// A text in which one of the tokens that are read writes a number above the
/// ceiling gives no samples. Where the tokens before it gave samples, the
/// reading ends at that token, with the error of a sample out of bounds.
pub proof fn lemma_sample_above_ceiling_fails(
    tuple: TupleType,
    s: Seq<u8>,
    pos: int,
    count: nat,
    k: nat,
)
    requires
        k < count,
        sample_token_at(s, ascii_run(tuple, s, pos, k).1).0 matches Ok(v) && v > tuple.ceiling(),
    ensures
        ascii_run(tuple, s, pos, count).0 is Err,
        ascii_run(tuple, s, pos, k).0 is Ok ==> ascii_run(tuple, s, pos, count) == (
            Err::<Seq<u32>, ImageError>(ImageError::FormatError(FormatReason::SampleOutOfBounds)),
            token_end(s, ascii_run(tuple, s, pos, k).1),
        ),
{
    assert(ascii_run(tuple, s, pos, (k + 1) as nat).0 is Err);
    lemma_ascii_run_stops(tuple, s, pos, (k + 1) as nat, count);
}

/// The same of a whole image: a text with a number above the ceiling among
/// the tokens of its samples is never decoded.
pub proof fn lemma_image_with_sample_above_ceiling_fails(
    tuple: TupleType,
    width: u32,
    height: u32,
    s: Seq<u8>,
    pos: int,
    k: nat,
)
    requires
        k < sample_count(width, height, tuple.components()),
        sample_token_at(s, ascii_run(tuple, s, pos, k).1).0 matches Ok(v) && v > tuple.ceiling(),
    ensures
        ascii_at(tuple, width, height, s, pos).0 is Err,
{
    lemma_sample_above_ceiling_fails(
        tuple,
        s,
        pos,
        sample_count(width, height, tuple.components()) as nat,
        k,
    );
}

/// Raw black-and-white samples are the bytes as they stand, and a byte above
/// 1 among them refuses the image.
pub proof fn lemma_raw_bilevel_samples(tuple: TupleType, width: u32, height: u32, s: Seq<u8>, pos: int)
    requires
        tuple == TupleType::BWBit,
        0 <= pos,
        pos + sample_count(width, height, 1) <= s.len(),
    ensures
        ({
            let payload = s.subrange(pos, pos + sample_count(width, height, 1));
            binary_at(tuple, width, height, s, pos).0 == if all_bilevel(payload) {
                Ok::<Samples, ImageError>(Samples::U8(payload))
            } else {
                Err::<Samples, ImageError>(ImageError::FormatError(FormatReason::SampleOutOfBounds))
            }
        }),
{
}

/// Reading the samples moves forward and stays inside the input. Raw
/// samples that are all there end exactly behind the bytes that the image
/// takes.
pub proof fn lemma_samples_end(header: HeaderView, tuple: TupleType, s: Seq<u8>, pos: int)
    requires
        0 <= pos <= s.len(),
    ensures
        pos <= samples_at(header, tuple, s, pos).1 <= s.len(),
        header.subtype().encoding() == SampleEncoding::Binary && pos + tuple.byte_len(
            header.width(),
            header.height(),
        ) <= s.len() ==> samples_at(header, tuple, s, pos).1 == pos + tuple.byte_len(
            header.width(),
            header.height(),
        ),
        samples_at(header, tuple, s, pos).0 matches Ok(samples) ==> samples.len() == sample_count(
            header.width(),
            header.height(),
            tuple.components(),
        ),
{
    lemma_byte_len_nonnegative(tuple, header.width(), header.height());
    let count = sample_count(header.width(), header.height(), tuple.components());
    lemma_ascii_run_bounds(tuple, s, pos, count as nat);
    assert(0 <= count) by (nonlinear_arith)
        requires
            count == (header.width() as int) * (header.height() as int) * (
            tuple.components() as int),
            0 <= header.width(),
            0 <= header.height(),
            0 <= tuple.components(),
    ;
    if header.subtype().encoding() == SampleEncoding::Binary && pos + tuple.byte_len(
        header.width(),
        header.height(),
    ) <= s.len() {
        let need = tuple.byte_len(header.width(), header.height());
        let payload = s.subrange(pos, pos + need);
        if tuple == TupleType::PbmBit {
            assert(sample_count(header.width(), header.height(), 1) == (header.width() as int) * 1
                * (header.height() as int)) by (nonlinear_arith);
        }
    }
}

/// Whether a header line is one that sets the height: a line of bytes below
/// 128 whose keyword is `HEIGHT`.
pub open spec fn is_height_line(line: Seq<u8>) -> bool {
    all_ascii(line) && line_word(line) == "HEIGHT".spec_bytes()
}

/// Whether the reading of header lines that sets out at `pos` with the fields
/// `acc` comes to read the line at `at`, and with the fields `then`: every
/// line before it was read and let the header go on.
pub open spec fn pam_reaches(s: Seq<u8>, pos: int, acc: PamFields, at: int, then: PamFields) -> bool
    decreases s.len() - pos,
{
    if pos == at {
        acc == then
    } else if 0 <= pos < at && pos < s.len() {
        match pam_line(acc, s.subrange(pos, line_end(s, pos))) {
            PamLine::Next(next) => {
                proof {
                    lemma_line_end_bounds(s, pos);
                }
                pam_reaches(s, line_end(s, pos), next, at, then)
            },
            _ => false,
        }
    } else {
        false
    }
}

/// The first bytes of the keywords `HEIGHT` and `ENDHDR`.
proof fn lemma_keyword_heads()
    ensures
        "HEIGHT".spec_bytes().len() == 6,
        "HEIGHT".spec_bytes()[0] == 72,
        "ENDHDR".spec_bytes().len() == 6,
        "ENDHDR".spec_bytes()[0] == 69,
{
    reveal_strlit("HEIGHT");
    reveal_strlit("ENDHDR");
    assert(is_ascii_chars("HEIGHT"@));
    assert(is_ascii_chars("ENDHDR"@));
    is_ascii_chars_encode_utf8("HEIGHT"@);
    is_ascii_chars_encode_utf8("ENDHDR"@);
    assert("HEIGHT"@[0] == 'H');
    assert("ENDHDR"@[0] == 'E');
}

/// A line that sets the height does so unless the height is set already, in
/// which case it refuses the header; its value must be a number.
proof fn lemma_height_line(acc: PamFields, line: Seq<u8>)
    requires
        is_height_line(line),
    ensures
        pam_line(acc, line) == scalar_line(acc, PamField::Height, crate::grammar::line_value(line)),
        acc.height is Some ==> pam_line(acc, line) == PamLine::Fail(
            FormatReason::DuplicateLine(PamField::Height),
        ),
        pam_line(acc, line) matches PamLine::Next(next) ==> next.height is Some,
{
    lemma_keyword_heads();
    lemma_first_whitespace_bounds(line, 0);
    let word = line_word(line);
    assert(word.len() == 6);
    assert(word[0] == line[0]);
}

/// A line that lets the header go on keeps a height that is set.
proof fn lemma_height_stays(acc: PamFields, line: Seq<u8>)
    requires
        acc.height is Some,
    ensures
        pam_line(acc, line) matches PamLine::Next(next) ==> next.height is Some,
{
}

/// The reading from `pos` goes the way of the reading that it comes to.
proof fn lemma_reaches_same_result(s: Seq<u8>, pos: int, acc: PamFields, at: int, then: PamFields)
    requires
        pam_reaches(s, pos, acc, at, then),
    ensures
        pam_lines(s, pos, acc) == pam_lines(s, at, then),
        acc.height is Some ==> then.height is Some,
    decreases s.len() - pos,
{
    if pos != at {
        lemma_line_end_bounds(s, pos);
        let line = s.subrange(pos, line_end(s, pos));
        if acc.height is Some {
            lemma_height_stays(acc, line);
        }
        let next = pam_line(acc, line)->Next_0;
        lemma_reaches_same_result(s, line_end(s, pos), next, at, then);
    }
}

/// A reading that comes to two lines comes to the second from the first.
proof fn lemma_reaches_in_order(
    s: Seq<u8>,
    pos: int,
    acc: PamFields,
    first: int,
    at_first: PamFields,
    second: int,
    at_second: PamFields,
)
    requires
        pam_reaches(s, pos, acc, first, at_first),
        pam_reaches(s, pos, acc, second, at_second),
        first < second,
    ensures
        pam_reaches(s, first, at_first, second, at_second),
    decreases s.len() - pos,
{
    if pos != first {
        lemma_line_end_bounds(s, pos);
        let next = pam_line(acc, s.subrange(pos, line_end(s, pos)))->Next_0;
        lemma_reaches_in_order(s, line_end(s, pos), next, first, at_first, second, at_second);
    }
}

/// Two lines that set the height refuse the header, whatever stands before,
/// between and behind them: where the reading of the header lines comes to
/// both, it fails at the second as a duplicate `HEIGHT` line. (The reading
/// comes to a line if every line before it let the header go on: lines
/// behind the one that ends the header, or behind one that was refused for
/// another reason, are never read.)
pub proof fn lemma_duplicate_height_fails(
    s: Seq<u8>,
    pos: int,
    acc: PamFields,
    first: int,
    at_first: PamFields,
    second: int,
    at_second: PamFields,
)
    requires
        pam_reaches(s, pos, acc, first, at_first),
        pam_reaches(s, pos, acc, second, at_second),
        0 <= first < second < s.len(),
        is_height_line(s.subrange(first, line_end(s, first))),
        is_height_line(s.subrange(second, line_end(s, second))),
    ensures
        pam_lines(s, pos, acc) == (
            Err::<PamFields, FormatReason>(FormatReason::DuplicateLine(PamField::Height)),
            line_end(s, second),
        ),
{
    lemma_reaches_in_order(s, pos, acc, first, at_first, second, at_second);
    lemma_reaches_same_result(s, pos, acc, second, at_second);
    lemma_line_end_bounds(s, first);
    let line = s.subrange(first, line_end(s, first));
    lemma_height_line(at_first, line);
    let next = pam_line(at_first, line)->Next_0;
    lemma_reaches_same_result(s, line_end(s, first), next, second, at_second);
    lemma_height_line(at_second, s.subrange(second, line_end(s, second)));
}

/// The same of a whole header: an arbitrary map in whose header the reading
/// comes to two lines that set the height is refused with the format error
/// of a duplicate `HEIGHT` line.
pub proof fn lemma_header_with_duplicate_height_fails(
    s: Seq<u8>,
    pos: int,
    first: int,
    at_first: PamFields,
    second: int,
    at_second: PamFields,
)
    requires
        byte_at(s, pos).0 == Some(LINE_FEED),
        pam_reaches(s, pos + 1, PamFields::none(), first, at_first),
        pam_reaches(s, pos + 1, PamFields::none(), second, at_second),
        0 <= first < second < s.len(),
        is_height_line(s.subrange(first, line_end(s, first))),
        is_height_line(s.subrange(second, line_end(s, second))),
    ensures
        pam_header_at(s, pos) == (
            Err::<ArbitraryView, ImageError>(
                ImageError::FormatError(FormatReason::DuplicateLine(PamField::Height)),
            ),
            line_end(s, second),
        ),
{
    lemma_duplicate_height_fails(
        s,
        pos + 1,
        PamFields::none(),
        first,
        at_first,
        second,
        at_second,
    );
}

/// Reading header lines moves forward and stays inside the input.
pub proof fn lemma_pam_lines_end(s: Seq<u8>, pos: int, acc: PamFields)
    requires
        0 <= pos <= s.len(),
    ensures
        pos <= pam_lines(s, pos, acc).1 <= s.len(),
    decreases s.len() - pos,
{
    if pos < s.len() {
        lemma_line_end_bounds(s, pos);
        match pam_line(acc, s.subrange(pos, line_end(s, pos))) {
            PamLine::Next(next) => {
                lemma_pam_lines_end(s, line_end(s, pos), next);
            },
            _ => {},
        }
    }
}

/// Reading the header of a format moves forward and stays inside the input.
pub proof fn lemma_subtype_header_end(s: Seq<u8>, pos: int, subtype: PNMSubtype)
    requires
        0 <= pos <= s.len(),
    ensures
        pos <= subtype_header_at(s, pos, subtype).1 <= s.len(),
{
    lemma_token_end_bounds(s, pos);
    let p1 = token_end(s, pos);
    lemma_token_end_bounds(s, p1);
    let p2 = token_end(s, p1);
    lemma_token_end_bounds(s, p2);
    if pos < s.len() {
        lemma_pam_lines_end(s, pos + 1, PamFields::none());
    }
}

/// Reading a header moves forward and stays inside the input; a header that
/// is read takes at least the two bytes of the magic constant.
pub proof fn lemma_header_end(s: Seq<u8>, pos: int)
    requires
        0 <= pos <= s.len(),
    ensures
        pos <= header_at(s, pos).1 <= s.len(),
        header_at(s, pos).0 is Ok ==> pos + 2 <= header_at(s, pos).1,
{
    if pos + 2 <= s.len() {
        match subtype_of_digit(s[pos + 1]) {
            Some(subtype) => {
                lemma_subtype_header_end(s, pos + 2, subtype);
            },
            None => {},
        }
    }
}

/// Where an image is opened and its samples are decoded, the reader is left
/// inside the input, behind the header and behind the samples; behind raw
/// samples it stands exactly as many bytes behind the header as the image
/// takes. The header that was read is the one that is handed out, whose
/// layout is the one that the samples were decoded by.
pub proof fn lemma_reader_after_decoding(s: Seq<u8>, pos: int)
    requires
        0 <= pos <= s.len(),
        opened_at(s, pos) is Ok,
    ensures
        ({
            let (header, tuple, start) = opened_at(s, pos)->Ok_0;
            let end = samples_at(header, tuple, s, start).1;
            &&& header_at(s, pos).0 == Ok::<HeaderView, ImageError>(header)
            &&& header_at(s, pos).1 == start
            &&& tuple_type_of(header) == Ok::<TupleType, ImageError>(tuple)
            &&& pos + 2 <= start <= end <= s.len()
            &&& header.subtype().encoding() == SampleEncoding::Binary && samples_at(
                header,
                tuple,
                s,
                start,
            ).0 is Ok ==> end == start + tuple.byte_len(header.width(), header.height())
        }),
{
    let (header, tuple, start) = opened_at(s, pos)->Ok_0;
    lemma_header_end(s, pos);
    lemma_samples_end(header, tuple, s, start);
}

/// The sample in row `row` and column `col` of a bitmap is the bit `col % 8`,
/// counted from the highest, of byte `col / 8` of the row, turned round. Each
/// row starts at a new byte, so the bits that fill up the last byte of a row
/// stand for no sample.
pub proof fn lemma_unpacked_bit(bytes: Seq<u8>, line: int, height: int, row: int, col: int)
    requires
        0 <= row < height,
        0 <= col < line,
    ensures
        0 <= row * line + col < unpacked_bits(bytes, line, height).len(),
        unpacked_bits(bytes, line, height)[row * line + col] == packed_sample(
            bytes[row * packed_len(line) + col / 8],
            col % 8,
        ),
        0 <= row * packed_len(line) + col / 8 < packed_len(line) * height,
{
    let stride = packed_len(line);
    assert(0 <= row * line && row * line + line <= line * height) by (nonlinear_arith)
        requires
            0 <= row < height,
            0 < line,
    ;
    assert(0 <= row * stride && row * stride + stride <= stride * height) by (nonlinear_arith)
        requires
            0 <= row < height,
            0 < stride,
    ;
    lemma_fundamental_div_mod_converse(row * line + col, line, row, col);
}

} // verus!
