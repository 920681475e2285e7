use pnm::{
    ArbitraryHeader, ArbitraryTuplType, BitmapHeader, ByteReader, ColorType, FormatReason,
    GraymapHeader, HeaderRecord, ImageError, PNMDecoder, PNMHeader, PNMSubtype, PamField,
    PixmapHeader, SampleEncoding, TupleType,
};

fn open(data: &[u8]) -> Result<PNMDecoder, ImageError> {
    PNMDecoder::new(ByteReader::new(data.to_vec()))
}

fn format_error(data: &[u8]) -> Option<FormatReason> {
    match open(data) {
        Err(ImageError::FormatError(reason)) => Some(reason),
        _ => None,
    }
}

#[test]
fn magic_needs_two_bytes() {
    assert_eq!(open(b"").err(), Some(ImageError::NotEnoughData));
    assert_eq!(open(b"P").err(), Some(ImageError::NotEnoughData));
}

#[test]
fn magic_must_be_p1_to_p7() {
    assert_eq!(format_error(b"Q1 1 1\n0"), Some(FormatReason::BadMagic));
    assert_eq!(format_error(b"P0 1 1\n0"), Some(FormatReason::BadMagic));
    assert_eq!(format_error(b"P8 1 1\n0"), Some(FormatReason::BadMagic));
    assert_eq!(format_error(b"p1 1 1\n0"), Some(FormatReason::BadMagic));
}

#[test]
fn every_magic_constant_selects_its_subtype() {
    assert_eq!(
        open(b"P1 1 1\n0").unwrap().subtype(),
        PNMSubtype::Bitmap(SampleEncoding::Ascii)
    );
    assert_eq!(
        open(b"P2 1 1 9\n0").unwrap().subtype(),
        PNMSubtype::Graymap(SampleEncoding::Ascii)
    );
    assert_eq!(
        open(b"P3 1 1 9\n0 0 0").unwrap().subtype(),
        PNMSubtype::Pixmap(SampleEncoding::Ascii)
    );
    assert_eq!(
        open(b"P4 1 1\n\x00").unwrap().subtype(),
        PNMSubtype::Bitmap(SampleEncoding::Binary)
    );
    assert_eq!(
        open(b"P5 1 1 9\n\x00").unwrap().subtype(),
        PNMSubtype::Graymap(SampleEncoding::Binary)
    );
    assert_eq!(
        open(b"P6 1 1 9\n\x00\x00\x00").unwrap().subtype(),
        PNMSubtype::Pixmap(SampleEncoding::Binary)
    );
    assert_eq!(
        open(b"P7\nWIDTH 1\nHEIGHT 1\nDEPTH 1\nMAXVAL 1\nENDHDR\n\x00")
            .unwrap()
            .subtype(),
        PNMSubtype::ArbitraryMap
    );
}

#[test]
fn header_tokens_may_be_split_by_any_whitespace_and_comments() {
    let mut decoder = open(b"P2\t# a comment\n3\x0b# another\r2\x0c\r\n 255 7").unwrap();
    assert_eq!(decoder.dimensions().unwrap(), (3, 2));
    let (_, header) = decoder.into_inner();
    assert_eq!(
        header,
        PNMHeader {
            decoded: HeaderRecord::Graymap(GraymapHeader {
                encoding: SampleEncoding::Ascii,
                width: 3,
                height: 2,
                maxwhite: 255,
            }),
        }
    );
}

#[test]
fn header_ends_one_whitespace_behind_its_last_token() {
    let decoder = open(b"P5 1 1 255\n\n\x07").unwrap();
    let (reader, _) = decoder.into_inner();
    assert_eq!(reader.position(), 11);
    assert_eq!(reader.remaining(), &b"\n\x07"[..]);
}

#[test]
fn missing_header_token_is_unexpected_eof() {
    assert_eq!(format_error(b"P1"), Some(FormatReason::UnexpectedEof));
    assert_eq!(format_error(b"P1 4"), Some(FormatReason::UnexpectedEof));
    assert_eq!(format_error(b"P5 4 4  \n # only a comment"), Some(FormatReason::UnexpectedEof));
}

#[test]
fn header_token_above_ascii_is_refused() {
    assert_eq!(format_error(b"P1 4\xc3\xa4 4\n"), Some(FormatReason::NonAsciiToken));
}

#[test]
fn header_number_must_be_plain_digits_of_32_bits() {
    assert_eq!(format_error(b"P1 +4 4\n"), Some(FormatReason::InvalidNumber));
    assert_eq!(format_error(b"P1 -4 4\n"), Some(FormatReason::InvalidNumber));
    assert_eq!(format_error(b"P1 4x 4\n"), Some(FormatReason::InvalidNumber));
    assert_eq!(format_error(b"P1 4294967296 4\n"), Some(FormatReason::InvalidNumber));
    assert_eq!(format_error(b"P1 99999999999999999999 4\n"), Some(FormatReason::InvalidNumber));
    let mut decoder = open(b"P1 4294967295 0000000000000000000007\n").unwrap();
    assert_eq!(decoder.dimensions().unwrap(), (4294967295, 7));
}

#[test]
fn comment_inside_a_token_is_cut_out() {
    // The line end that closes the comment is not read as whitespace.
    let mut decoder = open(b"P1 1#comment\n2 3\n").unwrap();
    assert_eq!(decoder.dimensions().unwrap(), (12, 3));
}

#[test]
fn maxval_selects_sample_width() {
    assert_eq!(open(b"P5 1 1 255\n").unwrap().colortype().unwrap(), ColorType::Gray(8));
    assert_eq!(open(b"P5 1 1 256\n").unwrap().colortype().unwrap(), ColorType::Gray(16));
    assert_eq!(open(b"P5 1 1 65535\n").unwrap().colortype().unwrap(), ColorType::Gray(16));
    assert_eq!(open(b"P6 1 1 255\n").unwrap().colortype().unwrap(), ColorType::RGB(8));
    assert_eq!(open(b"P6 1 1 256\n").unwrap().colortype().unwrap(), ColorType::RGB(16));
    assert_eq!(open(b"P6 1 1 65535\n").unwrap().colortype().unwrap(), ColorType::RGB(16));
    assert_eq!(format_error(b"P5 1 1 65536\n"), Some(FormatReason::MaxvalTooLarge));
    assert_eq!(format_error(b"P6 1 1 65536\n"), Some(FormatReason::MaxvalTooLarge));
}

#[test]
fn tuple_types_of_plain_headers() {
    let bitmap = BitmapHeader { encoding: SampleEncoding::Binary, width: 1, height: 1 };
    assert_eq!(bitmap.tuple_type(), Ok(TupleType::PbmBit));
    let gray = GraymapHeader { encoding: SampleEncoding::Ascii, width: 1, height: 1, maxwhite: 0 };
    assert_eq!(gray.tuple_type(), Ok(TupleType::GrayU8));
    let pix = PixmapHeader { encoding: SampleEncoding::Ascii, width: 1, height: 1, maxval: 300 };
    assert_eq!(pix.tuple_type(), Ok(TupleType::RGBU16));
    assert_eq!(TupleType::PbmBit.color(), ColorType::Gray(1));
    assert_eq!(TupleType::BWBit.color(), ColorType::Gray(1));
    assert_eq!(TupleType::RGBU16.color(), ColorType::RGB(16));
}

#[test]
fn arbitrary_map_needs_a_line_feed_after_the_magic() {
    assert_eq!(format_error(b"P7"), Some(FormatReason::InputTooShort));
    assert_eq!(format_error(b"P7 WIDTH 1\n"), Some(FormatReason::ExpectedNewline));
    assert_eq!(format_error(b"P7\r\nWIDTH 1\n"), Some(FormatReason::ExpectedNewline));
}

#[test]
fn arbitrary_header_without_end_is_refused() {
    assert_eq!(format_error(b"P7\n"), Some(FormatReason::UnknownHeaderLine));
    assert_eq!(
        format_error(b"P7\nWIDTH 1\nHEIGHT 1\nDEPTH 1\nMAXVAL 1\n"),
        Some(FormatReason::UnknownHeaderLine)
    );
}

#[test]
fn arbitrary_header_may_end_without_a_line_feed() {
    let mut decoder = open(b"P7\nWIDTH 0\nHEIGHT 1\nDEPTH 1\nMAXVAL 1\nENDHDR").unwrap();
    assert_eq!(decoder.dimensions().unwrap(), (0, 1));
}

#[test]
fn unknown_header_lines_are_refused() {
    assert_eq!(format_error(b"P7\nFOO 1\nENDHDR\n"), Some(FormatReason::UnknownHeaderLine));
    assert_eq!(format_error(b"P7\nheight 1\nENDHDR\n"), Some(FormatReason::UnknownHeaderLine));
    assert_eq!(format_error(b"P7\n HEIGHT 1\nENDHDR\n"), Some(FormatReason::UnknownHeaderLine));
    assert_eq!(format_error(b"P7\n\nENDHDR\n"), Some(FormatReason::UnknownHeaderLine));
    assert_eq!(format_error(b"P7\nENDHDR#\n"), Some(FormatReason::UnknownHeaderLine));
}

#[test]
fn header_line_above_ascii_is_refused() {
    assert_eq!(
        format_error(b"P7\nWIDTH 1\nTUPLTYPE \xc3\xa4\nENDHDR\n"),
        Some(FormatReason::NonAsciiHeaderLine)
    );
    // A comment line is skipped whatever it holds.
    let decoder = open(b"P7\n# \xc3\xa4\xff\nWIDTH 1\nHEIGHT 1\nDEPTH 1\nMAXVAL 1\nENDHDR\n");
    assert!(decoder.is_ok());
}

#[test]
fn each_scalar_line_must_be_there() {
    assert_eq!(
        format_error(b"P7\nWIDTH 1\nDEPTH 1\nMAXVAL 1\nENDHDR\n"),
        Some(FormatReason::MissingLine(PamField::Height))
    );
    assert_eq!(
        format_error(b"P7\nHEIGHT 1\nDEPTH 1\nMAXVAL 1\nENDHDR\n"),
        Some(FormatReason::MissingLine(PamField::Width))
    );
    assert_eq!(
        format_error(b"P7\nHEIGHT 1\nWIDTH 1\nMAXVAL 1\nENDHDR\n"),
        Some(FormatReason::MissingLine(PamField::Depth))
    );
    assert_eq!(
        format_error(b"P7\nHEIGHT 1\nWIDTH 1\nDEPTH 1\nENDHDR\n"),
        Some(FormatReason::MissingLine(PamField::Maxval))
    );
    // The first missing one is named.
    assert_eq!(
        format_error(b"P7\nENDHDR\n"),
        Some(FormatReason::MissingLine(PamField::Height))
    );
    assert_eq!(
        format_error(b"P7\nHEIGHT 1\nENDHDR\n"),
        Some(FormatReason::MissingLine(PamField::Width))
    );
}

#[test]
fn each_scalar_line_may_come_once() {
    assert_eq!(
        format_error(b"P7\nHEIGHT 1\nHEIGHT 1\nENDHDR\n"),
        Some(FormatReason::DuplicateLine(PamField::Height))
    );
    assert_eq!(
        format_error(b"P7\nWIDTH 1\nHEIGHT 1\nWIDTH 2\nENDHDR\n"),
        Some(FormatReason::DuplicateLine(PamField::Width))
    );
    assert_eq!(
        format_error(b"P7\nDEPTH 1\nDEPTH 1\n"),
        Some(FormatReason::DuplicateLine(PamField::Depth))
    );
    assert_eq!(
        format_error(b"P7\nMAXVAL 1\n# comment\nMAXVAL 1\nENDHDR\n"),
        Some(FormatReason::DuplicateLine(PamField::Maxval))
    );
}

#[test]
fn duplicate_height_fails_wherever_it_stands() {
    let dup = Some(FormatReason::DuplicateLine(PamField::Height));
    assert_eq!(
        format_error(b"P7\nHEIGHT 4\nWIDTH 4\nDEPTH 1\nMAXVAL 1\nHEIGHT 4\nENDHDR\n"),
        dup
    );
    assert_eq!(
        format_error(b"P7\nWIDTH 4\nHEIGHT 4\nTUPLTYPE RGB\n# note\nDEPTH 1\nHEIGHT 9\nMAXVAL 1\nENDHDR\n"),
        dup
    );
    // The value of the second line is not looked at.
    assert_eq!(format_error(b"P7\nHEIGHT 4\nHEIGHT x\nENDHDR\n"), dup);
    assert_eq!(format_error(b"P7\nHEIGHT 4\nHEIGHT"), dup);
}

#[test]
fn lines_behind_the_end_of_the_header_are_not_read() {
    let data = b"P7\nHEIGHT 1\nWIDTH 1\nDEPTH 1\nMAXVAL 255\nENDHDR\nHEIGHT 1\n";
    let decoder = open(data).unwrap();
    let (reader, _) = decoder.into_inner();
    assert_eq!(reader.remaining(), &b"HEIGHT 1\n"[..]);
}

#[test]
fn scalar_values_are_numbers() {
    assert_eq!(
        format_error(b"P7\nHEIGHT x\nENDHDR\n"),
        Some(FormatReason::InvalidValue(PamField::Height))
    );
    assert_eq!(
        format_error(b"P7\nWIDTH\nENDHDR\n"),
        Some(FormatReason::InvalidValue(PamField::Width))
    );
    assert_eq!(
        format_error(b"P7\nDEPTH 1 1\nENDHDR\n"),
        Some(FormatReason::InvalidValue(PamField::Depth))
    );
    assert_eq!(
        format_error(b"P7\nMAXVAL 4294967296\nENDHDR\n"),
        Some(FormatReason::InvalidValue(PamField::Maxval))
    );
    assert_eq!(
        format_error(b"P7\nMAXVAL -1\nENDHDR\n"),
        Some(FormatReason::InvalidValue(PamField::Maxval))
    );
    assert_eq!(
        format_error(b"P7\nMAXVAL +\nENDHDR\n"),
        Some(FormatReason::InvalidValue(PamField::Maxval))
    );
}

#[test]
fn scalar_values_are_trimmed_and_may_carry_a_plus() {
    let mut reader = ByteReader::new(
        b"\nWIDTH \t 12 \r\nHEIGHT\t+7\nDEPTH 3\x0b\nMAXVAL 0065535\nENDHDR\nrest".to_vec(),
    );
    let header = reader.read_arbitrary_header().unwrap();
    assert_eq!(
        header,
        ArbitraryHeader { width: 12, height: 7, depth: 3, maxval: 65535, tupltype: None }
    );
    assert_eq!(reader.remaining(), &b"rest"[..]);
}

#[test]
fn tuple_type_names_are_matched_exactly() {
    let read = |name: &str| {
        let text = format!("\nTUPLTYPE {}\nENDHDR\n", name);
        let mut reader = ByteReader::new(text.into_bytes());
        match reader.read_arbitrary_header() {
            Err(ImageError::FormatError(FormatReason::MissingLine(PamField::Height))) => (),
            _ => panic!("the header has no scalar lines"),
        }
        let text = format!("\nWIDTH 1\nHEIGHT 1\nDEPTH 1\nMAXVAL 1\nTUPLTYPE {}\nENDHDR\n", name);
        let mut reader = ByteReader::new(text.into_bytes());
        reader.read_arbitrary_header().unwrap().tupltype
    };
    assert_eq!(read("BLACKANDWHITE"), Some(ArbitraryTuplType::BlackAndWhite));
    assert_eq!(read("BLACKANDWHITE_ALPHA"), Some(ArbitraryTuplType::BlackAndWhiteAlpha));
    assert_eq!(read("GRAYSCALE"), Some(ArbitraryTuplType::Grayscale));
    assert_eq!(read("GRAYSCALE_ALPHA"), Some(ArbitraryTuplType::GrayscaleAlpha));
    assert_eq!(read("RGB"), Some(ArbitraryTuplType::RGB));
    assert_eq!(read("RGB_ALPHA"), Some(ArbitraryTuplType::RGBAlpha));
    assert_eq!(read("rgb"), Some(ArbitraryTuplType::Custom("rgb".to_string())));
    assert_eq!(read("RGB8"), Some(ArbitraryTuplType::Custom("RGB8".to_string())));
    assert_eq!(read("CMYK"), Some(ArbitraryTuplType::Custom("CMYK".to_string())));
    assert_eq!(read(""), Some(ArbitraryTuplType::Custom(String::new())));
}

#[test]
fn tuple_type_lines_are_joined_by_spaces() {
    let mut reader = ByteReader::new(
        b"\nTUPLTYPE RGB\nWIDTH 1\nHEIGHT 1\nTUPLTYPE   ALPHA  \nDEPTH 4\nMAXVAL 1\nTUPLTYPE x y\nENDHDR\n"
            .to_vec(),
    );
    let header = reader.read_arbitrary_header().unwrap();
    assert_eq!(
        header.tupltype,
        Some(ArbitraryTuplType::Custom("RGB ALPHA x y".to_string()))
    );
    assert_eq!(
        header.tuple_type(),
        Err(ImageError::FormatError(FormatReason::TupleTypeNotRecognized))
    );
}

#[test]
fn depth_decides_where_no_tuple_type_is_given() {
    let with_depth = |depth: u32| {
        ArbitraryHeader { width: 1, height: 1, depth, maxval: 70000, tupltype: None }.tuple_type()
    };
    assert_eq!(with_depth(1), Ok(TupleType::GrayU8));
    assert_eq!(with_depth(2), Err(ImageError::UnsupportedColor(ColorType::GrayA(8))));
    assert_eq!(with_depth(3), Ok(TupleType::RGBU8));
    assert_eq!(with_depth(4), Err(ImageError::UnsupportedColor(ColorType::RGBA(8))));
    assert_eq!(
        with_depth(0),
        Err(ImageError::FormatError(FormatReason::TupleTypeNotRecognized))
    );
    assert_eq!(
        with_depth(5),
        Err(ImageError::FormatError(FormatReason::TupleTypeNotRecognized))
    );
}

#[test]
fn depth_two_without_tuple_type_is_an_unsupported_colour() {
    let result = open(b"P7\nWIDTH 1\nHEIGHT 1\nDEPTH 2\nMAXVAL 255\nENDHDR\n\x00\x00");
    assert_eq!(result.err(), Some(ImageError::UnsupportedColor(ColorType::GrayA(8))));
}

#[test]
fn tuple_type_must_fit_depth_and_maxval() {
    let with = |tupltype: ArbitraryTuplType, depth: u32, maxval: u32| {
        ArbitraryHeader { width: 1, height: 1, depth, maxval, tupltype: Some(tupltype) }
            .tuple_type()
    };
    let bw = Err(ImageError::FormatError(FormatReason::InvalidBlackAndWhite));
    assert_eq!(with(ArbitraryTuplType::BlackAndWhite, 1, 1), Ok(TupleType::BWBit));
    assert_eq!(with(ArbitraryTuplType::BlackAndWhite, 1, 0), bw);
    assert_eq!(with(ArbitraryTuplType::BlackAndWhite, 1, 2), bw);
    assert_eq!(with(ArbitraryTuplType::BlackAndWhite, 2, 1), bw);
    let gray = Err(ImageError::FormatError(FormatReason::InvalidGrayscale));
    assert_eq!(with(ArbitraryTuplType::Grayscale, 1, 0), Ok(TupleType::GrayU8));
    assert_eq!(with(ArbitraryTuplType::Grayscale, 1, 255), Ok(TupleType::GrayU8));
    assert_eq!(with(ArbitraryTuplType::Grayscale, 1, 256), Ok(TupleType::GrayU16));
    assert_eq!(with(ArbitraryTuplType::Grayscale, 1, 65535), Ok(TupleType::GrayU16));
    assert_eq!(with(ArbitraryTuplType::Grayscale, 1, 65536), gray);
    assert_eq!(with(ArbitraryTuplType::Grayscale, 0, 255), gray);
    assert_eq!(with(ArbitraryTuplType::Grayscale, 0, 256), gray);
    assert_eq!(with(ArbitraryTuplType::Grayscale, 3, 255), gray);
    let rgb = Err(ImageError::FormatError(FormatReason::InvalidRgb));
    assert_eq!(with(ArbitraryTuplType::RGB, 3, 255), Ok(TupleType::RGBU8));
    assert_eq!(with(ArbitraryTuplType::RGB, 3, 256), Ok(TupleType::RGBU16));
    assert_eq!(with(ArbitraryTuplType::RGB, 3, 65535), Ok(TupleType::RGBU16));
    assert_eq!(with(ArbitraryTuplType::RGB, 3, 65536), rgb);
    assert_eq!(with(ArbitraryTuplType::RGB, 1, 255), rgb);
    assert_eq!(with(ArbitraryTuplType::RGB, 4, 255), rgb);
    assert_eq!(
        with(ArbitraryTuplType::BlackAndWhiteAlpha, 2, 1),
        Err(ImageError::UnsupportedColor(ColorType::GrayA(1)))
    );
    assert_eq!(
        with(ArbitraryTuplType::GrayscaleAlpha, 2, 255),
        Err(ImageError::UnsupportedColor(ColorType::GrayA(8)))
    );
    assert_eq!(
        with(ArbitraryTuplType::RGBAlpha, 4, 255),
        Err(ImageError::UnsupportedColor(ColorType::RGBA(8)))
    );
    assert_eq!(
        with(ArbitraryTuplType::Custom("RGB".to_string()), 3, 255),
        Err(ImageError::FormatError(FormatReason::TupleTypeNotRecognized))
    );
}

#[test]
fn header_accessors_agree_with_the_record() {
    let header = PNMHeader {
        decoded: HeaderRecord::Pixmap(PixmapHeader {
            encoding: SampleEncoding::Binary,
            width: 3,
            height: 5,
            maxval: 9,
        }),
    };
    assert_eq!(header.width(), 3);
    assert_eq!(header.height(), 5);
    assert_eq!(header.subtype(), PNMSubtype::Pixmap(SampleEncoding::Binary));
    assert_eq!(header.subtype().sample_encoding(), SampleEncoding::Binary);
    assert_eq!(PNMSubtype::ArbitraryMap.sample_encoding(), SampleEncoding::Binary);
    assert_eq!(header.tuple_type(), Ok(TupleType::RGBU8));
    assert_eq!(PamField::Height.keyword(), "HEIGHT");
    assert_eq!(PamField::Width.keyword(), "WIDTH");
    assert_eq!(PamField::Depth.keyword(), "DEPTH");
    assert_eq!(PamField::Maxval.keyword(), "MAXVAL");
}
