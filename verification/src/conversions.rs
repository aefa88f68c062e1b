//! The native-string codec: strict and lossy decoding of OS-native text.
//!
//! POSIX-like systems hand text over as byte strings that are usually, but
//! not always, valid UTF-8; Windows-like systems hand it over as UTF-16
//! code units that may contain unpaired surrogates.  This module turns both
//! into checked Rust strings, either strictly (reporting
//! [`Error::InvalidData`]) or lossily (substituting U+FFFD), and holds the
//! small ASCII case-mapping helpers used when a value has to be normalized.

use vstd::prelude::*;
use vstd::utf8::{decode_utf8, is_scalar, valid_utf8};

use crate::error::Error;

verus! {

/// Relies on `String::from_utf8`: it succeeds exactly on valid UTF-8 input
/// and then returns the string whose encoding is that input, as `vstd`'s
/// UTF-8 model states it.
#[verifier::external_body]
fn string_from_utf8(bytes: Vec<u8>) -> (r: Option<String>)
    ensures
        r is Some <==> valid_utf8(bytes@),
        r is Some ==> r->0@ == decode_utf8(bytes@),
{
    String::from_utf8(bytes).ok()
}

/// Relies on `String::from_utf8_lossy`: valid UTF-8 input is returned
/// decoded and unchanged; invalid sequences are replaced with U+FFFD.
#[verifier::external_body]
fn string_from_utf8_lossy_raw(bytes: &Vec<u8>) -> (r: String)
    ensures
        valid_utf8(bytes@) ==> r@ == decode_utf8(bytes@),
{
    String::from_utf8_lossy(bytes.as_slice()).into_owned()
}

/// Relies on `String::push`: it appends the given character to the end of
/// the string.
#[verifier::external_body]
pub fn push_char(s: &mut String, c: char)
    ensures
        final(s)@ == old(s)@.push(c),
{
    s.push(c)
}

/// Relies on `char::from_u32`: it returns `Some` exactly for Unicode scalar
/// values, and then the returned character has the given value.
pub assume_specification[ char::from_u32 ](i: u32) -> (r: Option<char>)
    ensures
        r is Some <==> is_scalar(i),
        r is Some ==> r->0 as u32 == i,
;

/// The Unicode uppercase mapping of one character, which may be more than
/// one character long.
pub uninterp spec fn upper_chars_of(c: char) -> Seq<char>;

/// Relies on `char::to_uppercase`: the full Unicode uppercase mapping of a
/// character is a function of that character alone.
#[verifier::external_body]
pub fn char_to_uppercase(c: char) -> (r: Vec<char>)
    ensures
        r@ == upper_chars_of(c),
{
    c.to_uppercase().collect()
}

/// Decode a byte string strictly: exactly the valid UTF-8 byte strings are
/// accepted, and decoding yields their character sequence.
pub fn decode_bytes(bytes: Vec<u8>) -> (r: Result<String, Error>)
    ensures
        r is Ok <==> valid_utf8(bytes@),
        r is Ok ==> r->Ok_0@ == decode_utf8(bytes@),
        r is Err ==> r->Err_0 == Error::InvalidData,
{
    match string_from_utf8(bytes) {
        Some(s) => Ok(s),
        None => Err(Error::InvalidData),
    }
}

/// Decode a byte string lossily: valid UTF-8 input decodes exactly; invalid
/// sequences are replaced, so a string always comes back.
pub fn decode_bytes_lossy(bytes: &Vec<u8>) -> (r: String)
    ensures
        valid_utf8(bytes@) ==> r@ == decode_utf8(bytes@),
{
    string_from_utf8_lossy_raw(bytes)
}

/// An owned copy of a byte vector.
pub fn copy_bytes(v: &Vec<u8>) -> (r: Vec<u8>)
    ensures
        r@ == v@,
{
    let mut out: Vec<u8> = Vec::new();
    let mut i: usize = 0;
    while i < v.len()
        invariant
            0 <= i <= v@.len(),
            out@ == v@.take(i as int),
        decreases v@.len() - i,
    {
        out.push(v[i]);
        i = i + 1;
        proof {
            assert(out@ =~= v@.take(i as int));
        }
    }
    proof {
        assert(v@.take(v@.len() as int) =~= v@);
    }
    out
}

/// Decode a native string strictly: the codec's single entry point for
/// provider data on byte-string platforms.
pub fn string_from_os(ns: crate::os::NativeString) -> (r: Result<String, Error>)
    ensures
        r is Ok <==> valid_utf8(ns@),
        r is Ok ==> r->Ok_0@ == decode_utf8(ns@),
        r is Err ==> r->Err_0 == Error::InvalidData,
{
    decode_bytes(ns.bytes)
}

/// The characters of a string as a vector, for random access.
pub fn chars_vec(s: &str) -> (r: Vec<char>)
    ensures
        r@ == s@,
{
    let n = s.unicode_len();
    let mut out: Vec<char> = Vec::new();
    let mut i: usize = 0;
    while i < n
        invariant
            n == s@.len(),
            0 <= i <= n,
            out@ == s@.take(i as int),
        decreases n - i,
    {
        let c = s.get_char(i);
        out.push(c);
        i = i + 1;
        proof {
            assert(out@ =~= s@.take(i as int));
        }
    }
    proof {
        assert(s@.take(n as int) =~= s@);
    }
    out
}

/// Build a string from a vector of characters.
pub fn string_from_chars(v: &Vec<char>) -> (r: String)
    ensures
        r@ == v@,
{
    let mut out = String::new();
    let mut i: usize = 0;
    while i < v.len()
        invariant
            0 <= i <= v@.len(),
            out@ == v@.take(i as int),
        decreases v@.len() - i,
    {
        push_char(&mut out, v[i]);
        i = i + 1;
        proof {
            assert(out@ =~= v@.take(i as int));
        }
    }
    proof {
        assert(v@.take(v@.len() as int) =~= v@);
    }
    out
}

/// True for UTF-16 code units in the high-surrogate range.
pub open spec fn is_high_surrogate(u: u16) -> bool {
    0xD800 <= u <= 0xDBFF
}

/// True for UTF-16 code units in the low-surrogate range.
pub open spec fn is_low_surrogate(u: u16) -> bool {
    0xDC00 <= u <= 0xDFFF
}

/// The scalar value a surrogate pair encodes.
pub open spec fn surrogate_pair_value(hi: u16, lo: u16) -> u32 {
    (0x10000 + ((hi as u32) - 0xD800) * 0x400 + ((lo as u32) - 0xDC00)) as u32
}

/// Strict UTF-16 decoding: `None` exactly when an unpaired surrogate
/// occurs; otherwise the decoded character sequence.
pub open spec fn utf16_decode(units: Seq<u16>) -> Option<Seq<char>>
    decreases units.len(),
{
    if units.len() == 0 {
        Some(Seq::<char>::empty())
    } else {
        let u = units[0];
        if is_high_surrogate(u) {
            if units.len() >= 2 && is_low_surrogate(units[1]) {
                match utf16_decode(units.skip(2)) {
                    None => None,
                    Some(rest) => Some(seq![surrogate_pair_value(u, units[1]) as char] + rest),
                }
            } else {
                None
            }
        } else if is_low_surrogate(u) {
            None
        } else {
            match utf16_decode(units.skip(1)) {
                None => None,
                Some(rest) => Some(seq![(u as u32) as char] + rest),
            }
        }
    }
}

/// Lossy UTF-16 decoding: each unpaired surrogate becomes U+FFFD.
pub open spec fn utf16_decode_lossy(units: Seq<u16>) -> Seq<char>
    decreases units.len(),
{
    if units.len() == 0 {
        Seq::<char>::empty()
    } else {
        let u = units[0];
        if is_high_surrogate(u) && units.len() >= 2 && is_low_surrogate(units[1]) {
            seq![surrogate_pair_value(u, units[1]) as char] + utf16_decode_lossy(units.skip(2))
        } else if is_high_surrogate(u) || is_low_surrogate(u) {
            seq!['\u{fffd}'] + utf16_decode_lossy(units.skip(1))
        } else {
            seq![(u as u32) as char] + utf16_decode_lossy(units.skip(1))
        }
    }
}

/// Decode UTF-16 code units lossily, substituting U+FFFD for every
/// unpaired surrogate, so that a string always comes back.
pub fn utf16_to_string_lossy(units: &Vec<u16>) -> (r: String)
    ensures
        r@ == utf16_decode_lossy(units@),
{
    let mut out = String::new();
    let mut i: usize = 0;
    proof {
        assert(units@.skip(0) =~= units@);
    }
    while i < units.len()
        invariant
            0 <= i <= units@.len(),
            utf16_decode_lossy(units@) == out@ + utf16_decode_lossy(units@.skip(i as int)),
        decreases units@.len() - i,
    {
        let ghost tail = units@.skip(i as int);
        proof {
            assert(tail[0] == units@[i as int]);
            assert(tail.skip(1) =~= units@.skip(i as int + 1));
            if tail.len() >= 2 {
                assert(tail[1] == units@[i as int + 1]);
                assert(tail.skip(2) =~= units@.skip(i as int + 2));
            }
        }
        let u = units[i];
        let mut step: usize = 1;
        if 0xD800 <= u && u <= 0xDBFF {
            if i + 1 < units.len() {
                let u2 = units[i + 1];
                if 0xDC00 <= u2 && u2 <= 0xDFFF {
                    let v: u32 = 0x10000 + ((u as u32) - 0xD800) * 0x400 + ((u2 as u32) - 0xDC00);
                    proof {
                        assert(is_scalar(v));
                    }
                    match char::from_u32(v) {
                        Some(c) => {
                            proof {
                                vstd::utf8::char_u32_cast(c, v);
                            }
                            push_char(&mut out, c);
                        },
                        None => {
                            proof {
                                assert(false);
                            }
                        },
                    }
                    step = 2;
                }
            }
            if step == 1 {
                push_char(&mut out, '\u{fffd}');
            }
        } else if 0xDC00 <= u && u <= 0xDFFF {
            push_char(&mut out, '\u{fffd}');
        } else {
            let v: u32 = u as u32;
            proof {
                assert(is_scalar(v));
            }
            match char::from_u32(v) {
                Some(c) => {
                    proof {
                        vstd::utf8::char_u32_cast(c, v);
                    }
                    push_char(&mut out, c);
                },
                None => {
                    proof {
                        assert(false);
                    }
                },
            }
        }
        i = i + step;
        proof {
            assert(out@ + utf16_decode_lossy(units@.skip(i as int)) =~= utf16_decode_lossy(
                units@,
            ));
        }
    }
    proof {
        assert(units@.skip(units@.len() as int) =~= Seq::<u16>::empty());
    }
    out
}

/// Decode UTF-16 code units strictly: exactly the sequences without
/// unpaired surrogates are accepted.
pub fn utf16_to_string(units: &Vec<u16>) -> (r: Result<String, Error>)
    ensures
        r is Ok <==> utf16_decode(units@) is Some,
        r is Ok ==> r->Ok_0@ == utf16_decode(units@)->0,
        r is Err ==> r->Err_0 == Error::InvalidData,
{
    let mut out = String::new();
    let mut i: usize = 0;
    proof {
        assert(units@.skip(0) =~= units@);
    }
    while i < units.len()
        invariant
            0 <= i <= units@.len(),
            utf16_decode(units@) is Some <==> utf16_decode(units@.skip(i as int)) is Some,
            utf16_decode(units@.skip(i as int)) is Some ==> utf16_decode(units@)->0 == out@
                + utf16_decode(units@.skip(i as int))->0,
        decreases units@.len() - i,
    {
        let ghost tail = units@.skip(i as int);
        proof {
            assert(tail[0] == units@[i as int]);
            assert(tail.skip(1) =~= units@.skip(i as int + 1));
            if tail.len() >= 2 {
                assert(tail[1] == units@[i as int + 1]);
                assert(tail.skip(2) =~= units@.skip(i as int + 2));
            }
        }
        let u = units[i];
        if 0xD800 <= u && u <= 0xDBFF {
            if i + 1 < units.len() {
                let u2 = units[i + 1];
                if 0xDC00 <= u2 && u2 <= 0xDFFF {
                    let v: u32 = 0x10000 + ((u as u32) - 0xD800) * 0x400 + ((u2 as u32) - 0xDC00);
                    proof {
                        assert(is_scalar(v));
                    }
                    match char::from_u32(v) {
                        Some(c) => {
                            proof {
                                vstd::utf8::char_u32_cast(c, v);
                            }
                            push_char(&mut out, c);
                        },
                        None => {
                            proof {
                                assert(false);
                            }
                        },
                    }
                    i = i + 2;
                } else {
                    return Err(Error::InvalidData);
                }
            } else {
                return Err(Error::InvalidData);
            }
        } else if 0xDC00 <= u && u <= 0xDFFF {
            return Err(Error::InvalidData);
        } else {
            let v: u32 = u as u32;
            proof {
                assert(is_scalar(v));
            }
            match char::from_u32(v) {
                Some(c) => {
                    proof {
                        vstd::utf8::char_u32_cast(c, v);
                    }
                    push_char(&mut out, c);
                },
                None => {
                    proof {
                        assert(false);
                    }
                },
            }
            i = i + 1;
        }
        proof {
            if utf16_decode(units@.skip(i as int)) is Some {
                assert(out@ + utf16_decode(units@.skip(i as int))->0 =~= utf16_decode(units@)->0);
            }
        }
    }
    proof {
        assert(units@.skip(units@.len() as int) =~= Seq::<u16>::empty());
    }
    Ok(out)
}

/// The ASCII lowercase form of one character: `A`..`Z` map to `a`..`z`,
/// every other character is unchanged.
pub open spec fn lower_char(c: char) -> char {
    if 'A' <= c && c <= 'Z' {
        (((c as u32) + 32) as u32) as char
    } else {
        c
    }
}

/// The ASCII uppercase form of one character: `a`..`z` map to `A`..`Z`,
/// every other character is unchanged.
pub open spec fn upper_char(c: char) -> char {
    if 'a' <= c && c <= 'z' {
        (((c as u32) - 32) as u32) as char
    } else {
        c
    }
}

/// The ASCII lowercase form of a character sequence.
pub open spec fn ascii_lower(s: Seq<char>) -> Seq<char> {
    s.map_values(|c: char| lower_char(c))
}

/// The ASCII uppercase form of a character sequence.
pub open spec fn ascii_upper(s: Seq<char>) -> Seq<char> {
    s.map_values(|c: char| upper_char(c))
}

/// Map one character to ASCII lowercase.
pub fn lower_char_exec(c: char) -> (r: char)
    ensures
        r == lower_char(c),
{
    let u = c as u32;
    if 65 <= u && u <= 90 {
        proof {
            vstd::utf8::char_u32_cast(c, u);
            assert('A' <= c && c <= 'Z');
            assert(is_scalar((u + 32) as u32));
        }
        match char::from_u32(u + 32) {
            Some(l) => {
                proof {
                    vstd::utf8::char_u32_cast(l, (u + 32) as u32);
                }
                l
            },
            None => c,
        }
    } else {
        proof {
            vstd::utf8::char_u32_cast(c, u);
            assert(!('A' <= c && c <= 'Z'));
        }
        c
    }
}

/// Map one character to ASCII uppercase.
pub fn upper_char_exec(c: char) -> (r: char)
    ensures
        r == upper_char(c),
{
    let u = c as u32;
    if 97 <= u && u <= 122 {
        proof {
            vstd::utf8::char_u32_cast(c, u);
            assert('a' <= c && c <= 'z');
            assert(is_scalar((u - 32) as u32));
        }
        match char::from_u32(u - 32) {
            Some(l) => {
                proof {
                    vstd::utf8::char_u32_cast(l, (u - 32) as u32);
                }
                l
            },
            None => c,
        }
    } else {
        proof {
            vstd::utf8::char_u32_cast(c, u);
            assert(!('a' <= c && c <= 'z'));
        }
        c
    }
}

/// Map a whole string to ASCII lowercase.
pub fn to_ascii_lowercase(s: &str) -> (r: String)
    ensures
        r@ == ascii_lower(s@),
{
    let v = chars_vec(s);
    let mut out = String::new();
    let mut i: usize = 0;
    while i < v.len()
        invariant
            v@ == s@,
            0 <= i <= v@.len(),
            out@ == ascii_lower(s@.take(i as int)),
        decreases v@.len() - i,
    {
        let l = lower_char_exec(v[i]);
        push_char(&mut out, l);
        i = i + 1;
        proof {
            assert(out@ =~= ascii_lower(s@.take(i as int)));
        }
    }
    proof {
        assert(ascii_lower(s@.take(s@.len() as int)) =~= ascii_lower(s@));
    }
    out
}

/// Map a whole string to ASCII uppercase.
pub fn to_ascii_uppercase(s: &str) -> (r: String)
    ensures
        r@ == ascii_upper(s@),
{
    let v = chars_vec(s);
    let mut out = String::new();
    let mut i: usize = 0;
    while i < v.len()
        invariant
            v@ == s@,
            0 <= i <= v@.len(),
            out@ == ascii_upper(s@.take(i as int)),
        decreases v@.len() - i,
    {
        let u = upper_char_exec(v[i]);
        push_char(&mut out, u);
        i = i + 1;
        proof {
            assert(out@ =~= ascii_upper(s@.take(i as int)));
        }
    }
    proof {
        assert(ascii_upper(s@.take(s@.len() as int)) =~= ascii_upper(s@));
    }
    out
}

/// Lowering a character twice is the same as lowering it once.
pub proof fn lemma_lower_char_idempotent(c: char)
    ensures
        lower_char(lower_char(c)) == lower_char(c),
{
    if 'A' <= c && c <= 'Z' {
        let u = c as u32;
        vstd::utf8::char_is_scalar(c);
        vstd::utf8::char_u32_cast(((u + 32) as u32) as char, (u + 32) as u32);
    }
}

/// An ASCII-lowercased string is unchanged by lowercasing it again.
pub proof fn lemma_ascii_lower_idempotent(s: Seq<char>)
    ensures
        ascii_lower(ascii_lower(s)) == ascii_lower(s),
{
    assert forall|i: int| 0 <= i < s.len() implies lower_char(lower_char(s[i])) == lower_char(
        s[i],
    ) by {
        lemma_lower_char_idempotent(s[i]);
    }
    assert(ascii_lower(ascii_lower(s)) =~= ascii_lower(s));
}

} // verus!
