use pnm::token::{
    bytes_eq, find_whitespace, is_ascii, parse_signed_u32, parse_u32, scan_line, scan_token, trim,
    whitespace,
};
use pnm::{
    BitmapHeader, ByteReader, FormatReason, GraymapHeader, ImageError, PixmapHeader,
    SampleEncoding,
};

#[test]
fn six_bytes_are_whitespace() {
    for b in 0..=255u8 {
        let expected = matches!(b, b'\t' | b'\n' | 0x0b | 0x0c | b'\r' | b' ');
        assert_eq!(whitespace(b), expected);
    }
}

#[test]
fn token_runs_to_the_next_whitespace() {
    assert_eq!(scan_token(b"  12 34", 0), (b"12".to_vec(), 5));
    assert_eq!(scan_token(b"  12 34", 5), (b"34".to_vec(), 7));
    assert_eq!(scan_token(b"  12 34", 7), (vec![], 7));
    assert_eq!(scan_token(b"12", 1), (b"2".to_vec(), 2));
    assert_eq!(scan_token(b" \t\r\n", 0), (vec![], 4));
    assert_eq!(scan_token(b"", 0), (vec![], 0));
}

#[test]
fn token_leaves_out_comments() {
    assert_eq!(scan_token(b"# one\n# two\r12 ", 0), (b"12".to_vec(), 15));
    assert_eq!(scan_token(b"#12", 0), (vec![], 3));
    assert_eq!(scan_token(b"12#34 56\n78 ", 0), (b"1278".to_vec(), 12));
    assert_eq!(scan_token(b"12 #34", 0), (b"12".to_vec(), 3));
    // A scan knows of no comment where it sets out.
    assert_eq!(scan_token(b"#12 34\n", 1), (b"12".to_vec(), 4));
}

#[test]
fn decimal_numbers() {
    assert_eq!(parse_u32(b"0"), Some(0));
    assert_eq!(parse_u32(b"1234"), Some(1234));
    assert_eq!(parse_u32(b"0012"), Some(12));
    assert_eq!(parse_u32(b"4294967295"), Some(4294967295));
    assert_eq!(parse_u32(b"4294967296"), None);
    assert_eq!(parse_u32(b"42949672950"), None);
    assert_eq!(parse_u32(b""), None);
    assert_eq!(parse_u32(b"+1"), None);
    assert_eq!(parse_u32(b"-1"), None);
    assert_eq!(parse_u32(b"1 "), None);
    assert_eq!(parse_u32(b"1a"), None);
    assert_eq!(parse_u32(b"/"), None);
    assert_eq!(parse_u32(b":"), None);
    assert_eq!(parse_signed_u32(b"+1"), Some(1));
    assert_eq!(parse_signed_u32(b"12"), Some(12));
    assert_eq!(parse_signed_u32(b"+"), None);
    assert_eq!(parse_signed_u32(b"++1"), None);
    assert_eq!(parse_signed_u32(b"-1"), None);
    assert_eq!(parse_signed_u32(b"+4294967296"), None);
}

#[test]
fn lines_end_behind_a_line_feed() {
    assert_eq!(scan_line(b"ab\ncd", 0), 3);
    assert_eq!(scan_line(b"ab\ncd", 2), 3);
    assert_eq!(scan_line(b"ab\ncd", 3), 5);
    assert_eq!(scan_line(b"ab\ncd", 5), 5);
    assert_eq!(scan_line(b"ab\rcd", 0), 5);
}

#[test]
fn trimming_and_searching() {
    assert_eq!(trim(b" \t12 3\r\n"), &b"12 3"[..]);
    assert_eq!(trim(b"12"), &b"12"[..]);
    assert_eq!(trim(b" \n "), &b""[..]);
    assert_eq!(trim(b""), &b""[..]);
    assert_eq!(find_whitespace(b"WIDTH 4"), 5);
    assert_eq!(find_whitespace(b"ENDHDR"), 6);
    assert_eq!(find_whitespace(b"\n"), 0);
    assert!(is_ascii(b"abc\x7f"));
    assert!(!is_ascii(b"abc\x80"));
    assert!(bytes_eq(b"abc", b"abc"));
    assert!(!bytes_eq(b"abc", b"abd"));
    assert!(!bytes_eq(b"abc", b"ab"));
}

#[test]
fn reader_moves_forward_only() {
    let mut reader = ByteReader::new(b"P5 12\nline\nxyz".to_vec());
    assert_eq!(reader.position(), 0);
    assert_eq!(reader.read_magic_constant(), Ok([b'P', b'5']));
    assert_eq!(reader.read_next_u32(), Ok(12));
    assert_eq!(reader.position(), 6);
    assert_eq!(reader.read_next_line(), b"line\n".to_vec());
    assert_eq!(reader.read_byte(), Some(b'x'));
    assert_eq!(reader.read_exact(3), None);
    assert_eq!(reader.position(), 14);
    assert_eq!(reader.read_byte(), None);
    assert_eq!(reader.read_next_line(), Vec::<u8>::new());
    assert_eq!(
        reader.read_next_string(),
        Err(ImageError::FormatError(FormatReason::UnexpectedEof))
    );
    assert_eq!(reader.read_magic_constant(), Err(ImageError::NotEnoughData));
}

#[test]
fn reader_reads_tokens_and_exact_counts() {
    let mut reader = ByteReader::new(b" ab\xff cd 7 rest".to_vec());
    assert_eq!(
        reader.read_next_string(),
        Err(ImageError::FormatError(FormatReason::NonAsciiToken))
    );
    assert_eq!(reader.read_next_string(), Ok(b"cd".to_vec()));
    assert_eq!(reader.read_token(), b"7".to_vec());
    assert_eq!(reader.remaining_len(), 4);
    assert_eq!(reader.read_exact(2), Some(b"re".to_vec()));
    assert_eq!(reader.read_exact(0), Some(vec![]));
    assert_eq!(reader.remaining(), &b"st"[..]);
    reader.skip_to_end();
    assert_eq!(reader.position(), 14);
    assert_eq!(reader.read_exact(0), Some(vec![]));
}

#[test]
fn plain_headers_from_a_reader() {
    let mut reader = ByteReader::new(b"1 2 3 4 5 6 7 8x".to_vec());
    assert_eq!(
        reader.read_bitmap_header(SampleEncoding::Ascii),
        Ok(BitmapHeader { encoding: SampleEncoding::Ascii, width: 1, height: 2 })
    );
    assert_eq!(
        reader.read_graymap_header(SampleEncoding::Binary),
        Ok(GraymapHeader { encoding: SampleEncoding::Binary, width: 3, height: 4, maxwhite: 5 })
    );
    assert_eq!(
        reader.read_pixmap_header(SampleEncoding::Binary),
        Err(ImageError::FormatError(FormatReason::InvalidNumber))
    );
    assert_eq!(reader.position(), 16);
    let mut reader = ByteReader::new(b"6 7 8 ".to_vec());
    assert_eq!(
        reader.read_pixmap_header(SampleEncoding::Ascii),
        Ok(PixmapHeader { encoding: SampleEncoding::Ascii, width: 6, height: 7, maxval: 8 })
    );
}
