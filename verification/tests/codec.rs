//! The native-string codec and the text building blocks.

use whoami::conversions::{
    decode_bytes, decode_bytes_lossy, string_from_chars, string_from_os, to_ascii_lowercase,
    to_ascii_uppercase, utf16_to_string, utf16_to_string_lossy,
};
use whoami::text::{contains_sub, parse_usize, split_chars, subvec, trim_char};
use whoami::{Error, NativeString};

#[test]
fn strict_decoding_accepts_exactly_utf8() {
    assert_eq!(decode_bytes("héllo".as_bytes().to_vec()), Ok("héllo".to_string()));
    assert_eq!(decode_bytes(vec![]), Ok(String::new()));
    assert_eq!(decode_bytes(vec![0xC3, 0x28]), Err(Error::InvalidData));
    assert_eq!(decode_bytes(vec![0xFF]), Err(Error::InvalidData));
}

#[test]
fn native_strings_decode_through_the_same_rule() {
    let ok = NativeString { bytes: b"alice".to_vec() };
    assert_eq!(string_from_os(ok), Ok("alice".to_string()));
    let bad = NativeString { bytes: vec![0x80] };
    assert_eq!(string_from_os(bad), Err(Error::InvalidData));
}

#[test]
fn lossy_decoding_substitutes_and_keeps_valid_text() {
    assert_eq!(decode_bytes_lossy(&b"plain".to_vec()), "plain");
    assert_eq!(decode_bytes_lossy(&vec![0x61, 0xFF, 0x62]), "a\u{FFFD}b");
}

#[test]
fn utf16_strict_rejects_unpaired_surrogates() {
    let fine: Vec<u16> = "ok".encode_utf16().collect();
    assert_eq!(utf16_to_string(&fine), Ok("ok".to_string()));
    assert_eq!(utf16_to_string(&vec![0xD800]), Err(Error::InvalidData));
    assert_eq!(utf16_to_string(&vec![0xD83D, 0xDE00]), Ok("\u{1F600}".to_string()));
}

#[test]
fn utf16_lossy_always_answers() {
    assert_eq!(utf16_to_string_lossy(&vec![0x68, 0xD800, 0x69]), "h\u{FFFD}i");
}

#[test]
fn ascii_case_mapping_touches_only_ascii() {
    assert_eq!(to_ascii_lowercase("MiXeD-09 é"), "mixed-09 é");
    assert_eq!(to_ascii_uppercase("gnome"), "GNOME");
    let once = to_ascii_lowercase("HOST");
    assert_eq!(to_ascii_lowercase(&once), once);
}

#[test]
fn chars_round_trip_through_vectors() {
    let v: Vec<char> = "round trip".chars().collect();
    assert_eq!(string_from_chars(&v), "round trip");
    assert_eq!(subvec(&v, 0, 5), "round".chars().collect::<Vec<char>>());
}

#[test]
fn split_and_trim_behave_like_their_specs() {
    let v: Vec<char> = "a;;b".chars().collect();
    let parts = split_chars(&v, ';');
    assert_eq!(parts.len(), 3);
    assert_eq!(parts[0], vec!['a']);
    assert_eq!(parts[1], Vec::<char>::new());
    assert_eq!(parts[2], vec!['b']);

    let quoted: Vec<char> = "\"\"name\"".chars().collect();
    assert_eq!(trim_char(&quoted, '"'), "name".chars().collect::<Vec<char>>());
    let all: Vec<char> = "\"\"".chars().collect();
    assert_eq!(trim_char(&all, '"'), Vec::<char>::new());
}

#[test]
fn substring_search_finds_runs() {
    let hay: Vec<char> = "one two three".chars().collect();
    assert!(contains_sub(&hay, &"two".chars().collect()));
    assert!(!contains_sub(&hay, &"four".chars().collect()));
}

#[test]
fn digit_parsing_accepts_exactly_fitting_numbers() {
    assert_eq!(parse_usize(&"0".chars().collect()), Some(0));
    assert_eq!(parse_usize(&"1000".chars().collect()), Some(1000));
    assert_eq!(parse_usize(&"".chars().collect()), None);
    assert_eq!(parse_usize(&"12a".chars().collect()), None);
    assert_eq!(parse_usize(&"-3".chars().collect()), None);
    assert_eq!(parse_usize(&"99999999999999999999999999".chars().collect()), None);
}
