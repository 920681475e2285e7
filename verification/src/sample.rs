//! The four kinds of samples: how many bytes they take, how they are read
//! from raw bytes and how from the numbers of a text.

use vstd::prelude::*;
use vstd::arithmetic::div_mod::lemma_fundamental_div_mod_converse;
use vstd::slice::slice_to_vec;
use byteorder::{BigEndian, ByteOrder};
use crate::error::{FormatReason, ImageError, ImageResult};
use crate::tuple::TupleType;

verus! {

/// The samples of a decoded image, row by row, the samples of one pixel side
/// by side.
#[derive(Clone, Debug, PartialEq, Eq)]
pub enum DecodingResult {
    /// Samples of eight bits.
    U8(Vec<u8>),
    /// Samples of sixteen bits.
    U16(Vec<u16>),
}

/// View of a [`DecodingResult`].
pub enum Samples {
    U8(Seq<u8>),
    U16(Seq<u16>),
}

impl View for DecodingResult {
    type V = Samples;

    open spec fn view(&self) -> Samples {
        match self {
            DecodingResult::U8(v) => Samples::U8(v@),
            DecodingResult::U16(v) => Samples::U16(v@),
        }
    }
}

impl Samples {
    /// Number of samples.
    pub open spec fn len(self) -> nat {
        match self {
            Samples::U8(v) => v.len(),
            Samples::U16(v) => v.len(),
        }
    }

    /// The sample at index `i`, as a number.
    pub open spec fn value(self, i: int) -> int {
        match self {
            Samples::U8(v) => v[i] as int,
            Samples::U16(v) => v[i] as int,
        }
    }
}

/// Samples of eight bits, one to a byte.
pub struct U8;

/// Samples of sixteen bits, the high byte first.
pub struct U16;

/// Bits of a bitmap, eight to a byte and the highest first, each row filled
/// up to a whole byte. A set bit is black.
pub struct PbmBit;

/// Black-and-white samples, one to a byte.
pub struct BWBit;

/// Number of samples of an image.
pub open spec fn sample_count(width: u32, height: u32, samples: u32) -> int {
    (width as int) * (height as int) * (samples as int)
}

/// Number of bytes that hold `bits` bits.
pub open spec fn packed_len(bits: int) -> int {
    bits / 8 + if bits % 8 != 0 {
        1int
    } else {
        0int
    }
}

/// Number of bytes that the rows of a bitmap take.
pub open spec fn packed_byte_len(width: u32, height: u32, samples: u32) -> int {
    packed_len((width as int) * (samples as int)) * (height as int)
}

/// A length as this machine can hold it.
pub open spec fn fitting(n: int) -> ImageResult<usize> {
    if 0 <= n <= usize::MAX {
        Ok(n as usize)
    } else {
        Err(ImageError::DimensionError)
    }
}

/// The sample that the bit at `index` of `byte` stands for, counted from the
/// highest bit: 1 where the bit is clear and 0 where it is set.
pub open spec fn packed_sample(byte: u8, index: int) -> u8 {
    if (byte >> ((7 - index) as u8)) & 1 == 0 {
        1
    } else {
        0
    }
}

/// The samples of a bitmap of `height` rows of `line` bits. Each row starts
/// at a new byte; the bits that fill up its last byte are left out.
pub open spec fn unpacked_bits(bytes: Seq<u8>, line: int, height: int) -> Seq<u8> {
    Seq::new(
        (line * height) as nat,
        |k: int| packed_sample(bytes[(k / line) * packed_len(line) + (k % line) / 8], (k % line) % 8),
    )
}

/// The numbers that pairs of bytes write, the high byte first.
pub open spec fn big_endian_pairs(bytes: Seq<u8>) -> Seq<u16> {
    Seq::new((bytes.len() / 2) as nat, |i: int| (256 * bytes[2 * i] + bytes[2 * i + 1]) as u16)
}

/// Whether every byte is 0 or 1.
pub open spec fn all_bilevel(bytes: Seq<u8>) -> bool {
    forall|i: int| 0 <= i < bytes.len() ==> bytes[i] <= 1
}

/// An out-of-bounds sample.
pub open spec fn out_of_bounds<T>() -> ImageResult<T> {
    Err(ImageError::FormatError(FormatReason::SampleOutOfBounds))
}

/// Number of samples of an image, in a type that holds it whatever the
/// machine.
pub(crate) fn sample_count_wide(width: u32, height: u32, samples: u32) -> (r: u128)
    ensures
        r == sample_count(width, height, samples),
        r <= 0xFFFF_FFFF * 0xFFFF_FFFF * 0xFFFF_FFFF,
{
    assert((width as int) * (height as int) <= 0xFFFF_FFFF * 0xFFFF_FFFF) by (nonlinear_arith)
        requires
            width <= 0xFFFF_FFFF,
            height <= 0xFFFF_FFFF,
    ;
    let pixels: u128 = (width as u128) * (height as u128);
    assert((pixels as int) * (samples as int) <= 0xFFFF_FFFF * 0xFFFF_FFFF * 0xFFFF_FFFF)
        by (nonlinear_arith)
        requires
            0 <= pixels <= 0xFFFF_FFFF * 0xFFFF_FFFF,
            samples <= 0xFFFF_FFFF,
    ;
    pixels * (samples as u128)
}

/// A length as this machine can hold it.
fn fit(n: u128) -> (r: ImageResult<usize>)
    ensures
        r == fitting(n as int),
{
    if n <= usize::MAX as u128 {
        Ok(n as usize)
    } else {
        Err(ImageError::DimensionError)
    }
}

/// `byteorder::BigEndian::read_u16_into`: fills `dst` with the numbers that
/// the pairs of bytes of `src` write, the high byte first. It panics unless
/// `src` is twice as long as `dst`.
#[verifier::external_body]
fn read_u16_into(src: &[u8], dst: &mut Vec<u16>)
    requires
        src@.len() == 2 * old(dst)@.len(),
    ensures
        final(dst)@ == big_endian_pairs(src@),
{
    BigEndian::read_u16_into(src, dst.as_mut_slice())
}

impl U8 {
    /// Number of bytes of an image: one for each sample.
    pub fn bytelen(width: u32, height: u32, samples: u32) -> (r: ImageResult<usize>)
        ensures
            r == fitting(sample_count(width, height, samples)),
    {
        fit(sample_count_wide(width, height, samples))
    }

    /// The samples are the bytes.
    pub fn from_bytes(bytes: &[u8], width: u32, height: u32, samples: u32) -> (r: ImageResult<
        Vec<u8>,
    >)
        ensures
            r matches Ok(v) && v@ == bytes@,
    {
        Ok(slice_to_vec(bytes))
    }

    /// The sample that a number of a text stands for: itself, up to 255.
    pub fn from_unsigned(val: u32) -> (r: ImageResult<u8>)
        ensures
            val <= 0xFF ==> r == Ok::<u8, ImageError>(val as u8),
            val > 0xFF ==> r == out_of_bounds::<u8>(),
    {
        if val > 0xFF {
            Err(ImageError::FormatError(FormatReason::SampleOutOfBounds))
        } else {
            Ok(val as u8)
        }
    }
}

impl U16 {
    /// Number of bytes of an image: two for each sample.
    pub fn bytelen(width: u32, height: u32, samples: u32) -> (r: ImageResult<usize>)
        ensures
            r == fitting(2 * sample_count(width, height, samples)),
    {
        fit(2 * sample_count_wide(width, height, samples))
    }

    /// Each sample is a pair of bytes, the high byte first.
    pub fn from_bytes(bytes: &[u8], width: u32, height: u32, samples: u32) -> (r: ImageResult<
        Vec<u16>,
    >)
        requires
            bytes@.len() == 2 * sample_count(width, height, samples),
        ensures
            r matches Ok(v) && v@ == big_endian_pairs(bytes@),
    {
        let mut buffer: Vec<u16> = vec![0u16; bytes.len() / 2];
        read_u16_into(bytes, &mut buffer);
        Ok(buffer)
    }

    /// The sample that a number of a text stands for: itself, up to 65535.
    pub fn from_unsigned(val: u32) -> (r: ImageResult<u16>)
        ensures
            val <= 0xFFFF ==> r == Ok::<u16, ImageError>(val as u16),
            val > 0xFFFF ==> r == out_of_bounds::<u16>(),
    {
        if val > 0xFFFF {
            Err(ImageError::FormatError(FormatReason::SampleOutOfBounds))
        } else {
            Ok(val as u16)
        }
    }
}

impl PbmBit {
    /// Number of bytes of an image: each row takes the bytes that hold its
    /// bits.
    pub fn bytelen(width: u32, height: u32, samples: u32) -> (r: ImageResult<usize>)
        ensures
            r == fitting(packed_byte_len(width, height, samples)),
    {
        assert((width as int) * (samples as int) <= 0xFFFF_FFFF * 0xFFFF_FFFF) by (nonlinear_arith)
            requires
                width <= 0xFFFF_FFFF,
                samples <= 0xFFFF_FFFF,
        ;
        let count: u128 = (width as u128) * (samples as u128);
        let linelen: u128 = count / 8 + if count % 8 != 0 {
            1
        } else {
            0
        };
        assert((linelen as int) * (height as int) <= 0xFFFF_FFFF * 0xFFFF_FFFF * 0xFFFF_FFFF)
            by (nonlinear_arith)
            requires
                0 <= linelen <= 0xFFFF_FFFF * 0xFFFF_FFFF,
                height <= 0xFFFF_FFFF,
        ;
        fit(linelen * (height as u128))
    }

    /// Unpacks the rows bit by bit and turns each bit round, so that black is
    /// 0 and white is 1.
    pub fn from_bytes(bytes: &[u8], width: u32, height: u32, samples: u32) -> (r: ImageResult<
        Vec<u8>,
    >)
        requires
            bytes@.len() == packed_byte_len(width, height, samples),
        ensures
            r matches Ok(v) && v@ == unpacked_bits(
                bytes@,
                (width as int) * (samples as int),
                height as int,
            ),
    {
        assert((width as int) * (samples as int) <= 0xFFFF_FFFF * 0xFFFF_FFFF) by (nonlinear_arith)
            requires
                width <= 0xFFFF_FFFF,
                samples <= 0xFFFF_FFFF,
        ;
        let linecount: u64 = (width as u64) * (samples as u64);
        let linebytelen: u64 = linecount / 8 + if linecount % 8 != 0 {
            1
        } else {
            0
        };
        let ghost line = linecount as int;
        let ghost stride = linebytelen as int;
        let ghost goal = unpacked_bits(bytes@, line, height as int);
        let total: usize = bytes.len();
        let mut buffer: Vec<u8> = Vec::new();
        let mut base: usize = 0;
        let mut row: u32 = 0;
        while row < height
            invariant
                row <= height,
                total == bytes@.len(),
                line == linecount,
                stride == linebytelen,
                stride == packed_len(line),
                goal == unpacked_bits(bytes@, line, height as int),
                bytes@.len() == stride * height,
                base == row * stride,
                buffer@.len() == row * line,
                forall|k: int| 0 <= k < buffer@.len() ==> buffer@[k] == goal[k],
            decreases height - row,
        {
            proof {
                assert((row + 1) * stride == row * stride + stride) by (nonlinear_arith);
                assert((row + 1) * stride <= stride * height) by (nonlinear_arith)
                    requires
                        row + 1 <= height,
                        0 <= stride,
                ;
                assert((row + 1) * line == row * line + line) by (nonlinear_arith);
                assert((row + 1) * line <= line * height) by (nonlinear_arith)
                    requires
                        row + 1 <= height,
                        0 <= line,
                ;
            }
            let mut samplei: u64 = 0;
            while samplei < linecount
                invariant
                    samplei <= linecount,
                    row < height,
                    total == bytes@.len(),
                    line == linecount,
                    stride == linebytelen,
                    stride == packed_len(line),
                    goal == unpacked_bits(bytes@, line, height as int),
                    base == row * stride,
                    base + stride <= bytes@.len(),
                    row * line + line <= line * height,
                    buffer@.len() == row * line + samplei,
                    forall|k: int| 0 <= k < buffer@.len() ==> buffer@[k] == goal[k],
                decreases linecount - samplei,
            {
                assert(samplei / 8 < stride);
                let byteindex: usize = (samplei / 8) as usize;
                let inindex: u8 = (7 - samplei % 8) as u8;
                let indicator: u8 = (bytes[base + byteindex] >> inindex) & 1;
                let sample: u8 = if indicator == 0 {
                    1
                } else {
                    0
                };
                proof {
                    let k = row * line + samplei;
                    lemma_fundamental_div_mod_converse(k, line, row as int, samplei as int);
                    assert(goal[k] == sample);
                }
                buffer.push(sample);
                samplei = samplei + 1;
            }
            base = base + linebytelen as usize;
            row = row + 1;
        }
        proof {
            assert(row * line == line * height) by (nonlinear_arith)
                requires
                    row == height,
            ;
            assert(buffer@ =~= goal);
        }
        Ok(buffer)
    }

    /// The sample that a number of a text stands for: 0, which is white,
    /// gives 1, and 1, which is black, gives 0.
    pub fn from_unsigned(val: u32) -> (r: ImageResult<u8>)
        ensures
            val == 0 ==> r == Ok::<u8, ImageError>(1),
            val == 1 ==> r == Ok::<u8, ImageError>(0),
            val > 1 ==> r == out_of_bounds::<u8>(),
    {
        if val == 0 {
            Ok(1)
        } else if val == 1 {
            Ok(0)
        } else {
            Err(ImageError::FormatError(FormatReason::SampleOutOfBounds))
        }
    }
}

impl BWBit {
    /// Number of bytes of an image: one for each sample.
    pub fn bytelen(width: u32, height: u32, samples: u32) -> (r: ImageResult<usize>)
        ensures
            r == fitting(sample_count(width, height, samples)),
    {
        U8::bytelen(width, height, samples)
    }

    /// The samples are the bytes, each of which must be 0 or 1.
    pub fn from_bytes(bytes: &[u8], width: u32, height: u32, samples: u32) -> (r: ImageResult<
        Vec<u8>,
    >)
        ensures
            all_bilevel(bytes@) ==> (r matches Ok(v) && v@ == bytes@),
            !all_bilevel(bytes@) ==> r == out_of_bounds::<Vec<u8>>(),
    {
        let values = slice_to_vec(bytes);
        let mut i: usize = 0;
        while i < values.len()
            invariant
                i <= values.len(),
                values@ == bytes@,
                forall|k: int| 0 <= k < i ==> bytes@[k] <= 1,
            decreases values.len() - i,
        {
            if values[i] > 1 {
                return Err(ImageError::FormatError(FormatReason::SampleOutOfBounds));
            }
            i = i + 1;
        }
        Ok(values)
    }

    /// The sample that a number of a text stands for: itself, up to 1.
    pub fn from_unsigned(val: u32) -> (r: ImageResult<u8>)
        ensures
            val <= 1 ==> r == Ok::<u8, ImageError>(val as u8),
            val > 1 ==> r == out_of_bounds::<u8>(),
    {
        if val == 0 {
            Ok(0)
        } else if val == 1 {
            Ok(1)
        } else {
            Err(ImageError::FormatError(FormatReason::SampleOutOfBounds))
        }
    }
}

impl TupleType {
    /// Number of bytes that the raw samples of an image take.
    pub open spec fn byte_len(self, width: u32, height: u32) -> int {
        match self {
            TupleType::PbmBit => packed_byte_len(width, height, self.components()),
            TupleType::GrayU16 | TupleType::RGBU16 => 2 * sample_count(
                width,
                height,
                self.components(),
            ),
            _ => sample_count(width, height, self.components()),
        }
    }

    /// The samples that raw bytes hold.
    pub open spec fn decoded(self, bytes: Seq<u8>, width: u32, height: u32) -> ImageResult<
        Samples,
    > {
        match self {
            TupleType::PbmBit => Ok(
                Samples::U8(
                    unpacked_bits(bytes, (width as int) * (self.components() as int), height as int),
                ),
            ),
            TupleType::BWBit => if all_bilevel(bytes) {
                Ok(Samples::U8(bytes))
            } else {
                out_of_bounds()
            },
            TupleType::GrayU8 | TupleType::RGBU8 => Ok(Samples::U8(bytes)),
            TupleType::GrayU16 | TupleType::RGBU16 => Ok(Samples::U16(big_endian_pairs(bytes))),
        }
    }

    /// The largest number that a text may give for a sample.
    pub open spec fn ceiling(self) -> int {
        match self {
            TupleType::PbmBit | TupleType::BWBit => 1,
            TupleType::GrayU8 | TupleType::RGBU8 => 0xFF,
            TupleType::GrayU16 | TupleType::RGBU16 => 0xFFFF,
        }
    }

    /// The sample that a number of a text stands for. A number above the
    /// ceiling stands for none. The samples of a bitmap are turned round;
    /// all others stand for themselves.
    pub open spec fn sample_value(self, val: u32) -> Option<u32> {
        if val > self.ceiling() {
            None
        } else if self == TupleType::PbmBit {
            Some((1 - val) as u32)
        } else {
            Some(val)
        }
    }

    /// Number of samples that make up one pixel.
    pub fn component_count(self) -> (r: u32)
        ensures
            r == self.components(),
    {
        match self {
            TupleType::RGBU8 | TupleType::RGBU16 => 3,
            _ => 1,
        }
    }

    /// Number of bytes that the raw samples of an image take.
    pub fn bytelen(self, width: u32, height: u32) -> (r: ImageResult<usize>)
        ensures
            r == fitting(self.byte_len(width, height)),
    {
        match self {
            TupleType::PbmBit => PbmBit::bytelen(width, height, 1),
            TupleType::BWBit => BWBit::bytelen(width, height, 1),
            TupleType::GrayU8 => U8::bytelen(width, height, 1),
            TupleType::RGBU8 => U8::bytelen(width, height, 3),
            TupleType::GrayU16 => U16::bytelen(width, height, 1),
            TupleType::RGBU16 => U16::bytelen(width, height, 3),
        }
    }

    /// Reads the samples of an image from its raw bytes, which are as many
    /// as the image takes.
    pub fn from_bytes(self, bytes: &[u8], width: u32, height: u32) -> (r: ImageResult<
        DecodingResult,
    >)
        requires
            bytes@.len() == self.byte_len(width, height),
        ensures
            match self.decoded(bytes@, width, height) {
                Ok(samples) => r matches Ok(d) && d@ == samples,
                Err(e) => r matches Err(x) && x == e,
            },
    {
        let components = self.component_count();
        let narrow = match self {
            TupleType::PbmBit => PbmBit::from_bytes(bytes, width, height, components),
            TupleType::BWBit => BWBit::from_bytes(bytes, width, height, components),
            TupleType::GrayU8 | TupleType::RGBU8 => U8::from_bytes(
                bytes,
                width,
                height,
                components,
            ),
            TupleType::GrayU16 | TupleType::RGBU16 => {
                return match U16::from_bytes(bytes, width, height, components) {
                    Ok(v) => Ok(DecodingResult::U16(v)),
                    Err(e) => Err(e),
                };
            },
        };
        match narrow {
            Ok(v) => Ok(DecodingResult::U8(v)),
            Err(e) => Err(e),
        }
    }

    /// The eight-bit sample that a number of a text stands for.
    pub(crate) fn narrow_from_unsigned(self, val: u32) -> (r: ImageResult<u8>)
        requires
            !self.is_wide(),
        ensures
            r == match self.sample_value(val) {
                Some(x) => Ok::<u8, ImageError>(x as u8),
                None => out_of_bounds::<u8>(),
            },
            self.sample_value(val) matches Some(x) ==> x <= 0xFF,
    {
        match self {
            TupleType::PbmBit => PbmBit::from_unsigned(val),
            TupleType::BWBit => BWBit::from_unsigned(val),
            _ => U8::from_unsigned(val),
        }
    }

    /// The sixteen-bit sample that a number of a text stands for.
    pub(crate) fn wide_from_unsigned(self, val: u32) -> (r: ImageResult<u16>)
        requires
            self.is_wide(),
        ensures
            r == match self.sample_value(val) {
                Some(x) => Ok::<u16, ImageError>(x as u16),
                None => out_of_bounds::<u16>(),
            },
            self.sample_value(val) matches Some(x) ==> x <= 0xFFFF,
    {
        U16::from_unsigned(val)
    }
}

} // verus!
