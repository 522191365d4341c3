use wikipedia::extract::{decompress_index, extract_block};
use wikipedia::strutil::{
    ascii_lower, contains_sub, ends_with, find_char_from, parse_u64, replace_spaces, rfind_char,
    str_eq, trim, u64_to_string,
};
use wikipedia::WikiError;

fn bz(data: &[u8]) -> Vec<u8> {
    let mut out: Vec<u8> = Vec::new();
    let mut enc = bzip2::read::BzEncoder::new(data, bzip2::Compression::default());
    std::io::Read::read_to_end(&mut enc, &mut out).unwrap();
    out
}

#[test]
fn parse_u64_accepts_digit_runs_only() {
    assert_eq!(parse_u64("123"), Some(123));
    assert_eq!(parse_u64("0"), Some(0));
    assert_eq!(parse_u64("18446744073709551615"), Some(u64::MAX));
    assert_eq!(parse_u64(""), None);
    assert_eq!(parse_u64("12a"), None);
    assert_eq!(parse_u64("+5"), None);
    assert_eq!(parse_u64("-5"), None);
    assert_eq!(parse_u64("18446744073709551616"), None);
}

#[test]
fn u64_to_string_renders_decimals() {
    assert_eq!(u64_to_string(0), "0");
    assert_eq!(u64_to_string(7), "7");
    assert_eq!(u64_to_string(42), "42");
    assert_eq!(u64_to_string(90210), "90210");
    assert_eq!(u64_to_string(u64::MAX), "18446744073709551615");
}

#[test]
fn trim_strips_blank_space_at_both_ends() {
    assert_eq!(trim("  a b \t\n"), "a b");
    assert_eq!(trim("x"), "x");
    assert_eq!(trim(" \r\n\t "), "");
    assert_eq!(trim(""), "");
}

#[test]
fn searching_helpers_work() {
    assert!(contains_sub("hello world", "lo w"));
    assert!(!contains_sub("hello", "world"));
    assert!(contains_sub("abc", ""));
    assert!(ends_with("photo.jpg", ".jpg"));
    assert!(!ends_with("photo.jpeg", ".jpg"));
    assert_eq!(find_char_from("a:b:c", ':', 0), 1);
    assert_eq!(find_char_from("a:b:c", ':', 2), 3);
    assert_eq!(find_char_from("abc", ':', 0), 3);
    assert_eq!(rfind_char("a|b|c", '|'), 4);
    assert_eq!(rfind_char("abc", '|'), 0);
}

#[test]
fn case_folding_and_equality_work() {
    assert_eq!(ascii_lower("RefList"), "reflist");
    assert_eq!(ascii_lower("x.PNG"), "x.png");
    assert_eq!(replace_spaces("Main Page here"), "Main_Page_here");
    assert!(str_eq("same", "same"));
    assert!(!str_eq("same", "sane"));
    assert!(!str_eq("same", "sam"));
}

#[test]
fn single_stream_decompression_round_trips() {
    let data = bz(b"plain index text");
    assert_eq!(decompress_index(&data).unwrap(), "plain index text");
}

#[test]
fn block_extraction_decodes_concatenated_frames() {
    let mut both = bz(b"first frame. ");
    both.extend_from_slice(&bz(b"second frame."));
    assert_eq!(extract_block(&both).unwrap(), "first frame. second frame.");
}

#[test]
fn corrupt_frames_are_codec_errors() {
    assert!(matches!(extract_block(b"not compressed"), Err(WikiError::Codec)));
    assert!(matches!(decompress_index(b"junk"), Err(WikiError::Codec)));
}

#[test]
fn invalid_text_in_a_frame_is_a_decode_error() {
    let data = bz(&[0xff, 0xfe, 0xfd]);
    assert!(matches!(decompress_index(&data), Err(WikiError::Decode)));
}
