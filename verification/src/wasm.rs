//! The provider logic for browser-hosted WebAssembly.
//!
//! In a browser the only identity source is the `navigator.userAgent`
//! string; fetching it is host-API work and stays with the caller, which
//! hands the string in.  User and host names have no browser source at
//! all, so they are fixed placeholders.  Everything that reads the user
//! agent apart — browser name, operating-system label, platform family —
//! is here, verified against a transcription of the string's shape.

use vstd::prelude::*;

use crate::conversions::{chars_vec, string_from_chars};
use crate::desktop_env::DesktopEnv;
use crate::platform::Platform;
use crate::text::{
    contains_seq, contains_sub, find_char, find_sub, first_index_of, first_match_of, rfind_char,
    last_index_of, starts_with_chars, starts_with_seq, subvec,
};

verus! {

/// A fixed placeholder: the browser exposes no login name.
pub fn username() -> (r: String)
    ensures
        r@ == "anonymous"@,
{
    String::from_str("anonymous")
}

/// A fixed placeholder: the browser exposes no real name.
pub fn realname() -> (r: String)
    ensures
        r@ == "Anonymous"@,
{
    String::from_str("Anonymous")
}

/// A fixed placeholder: the browser exposes no hostname.
pub fn hostname() -> (r: String)
    ensures
        r@ == "localhost"@,
{
    String::from_str("localhost")
}

/// The browser name a user-agent string advertises: the token between the
/// last space and the last slash, with the Safari token disambiguated
/// from Chrome's; a string without both marks reads as an unknown
/// browser.
pub open spec fn computer_spec(ua: Seq<char>) -> Seq<char> {
    match (last_index_of(ua, '/'), last_index_of(ua, ' ')) {
        (Some(e), Some(st)) => {
            if st + 1 > e {
                "Unknown Browser"@
            } else {
                let w = ua.subrange(st + 1, e);
                if w == "Safari"@ {
                    if contains_seq(ua, "Chrome"@) {
                        "Chrome"@
                    } else {
                        "Safari"@
                    }
                } else {
                    w
                }
            }
        },
        _ => "Unknown Browser"@,
    }
}

/// The browser name in a user-agent string.
pub fn computer(user_agent: &str) -> (r: String)
    ensures
        r@ == computer_spec(user_agent@),
{
    let v = chars_vec(user_agent);
    let e = match rfind_char(&v, '/') {
        Some(e) => e,
        None => {
            return String::from_str("Unknown Browser");
        },
    };
    let st = match rfind_char(&v, ' ') {
        Some(st) => st,
        None => {
            return String::from_str("Unknown Browser");
        },
    };
    if st >= e {
        return String::from_str("Unknown Browser");
    }
    let w = subvec(&v, st + 1, e);
    if crate::text::chars_eq_str(&w, "Safari") {
        if contains_sub(&v, &chars_vec("Chrome")) {
            String::from_str("Chrome")
        } else {
            String::from_str("Safari")
        }
    } else {
        string_from_chars(&w)
    }
}

/// The Windows release named inside a user-agent's parenthesized system
/// block: the text between `NT ` and the first `.`, behind `"Windows "`.
pub open spec fn windows_ua(inner: Seq<char>) -> Option<Seq<char>> {
    match first_match_of(inner, "NT"@) {
        None => Some("Windows"@),
        Some(b2) => match first_index_of(inner, '.') {
            None => Some("Windows"@),
            Some(e2) => if b2 + 3 > e2 {
                Some("Windows"@)
            } else {
                Some("Windows "@ + inner.subrange(b2 + 3, e2))
            },
        },
    }
}

/// The distribution named after a window-system token, up to the next
/// `;`; a block that only says `Linux` reads as an unknown Linux.
pub open spec fn linux_tail(s2: Seq<char>) -> Option<Seq<char>> {
    if starts_with_seq(s2, "Linux"@) {
        Some("Unknown Linux"@)
    } else {
        match first_index_of(s2, ';') {
            None => Some("Unknown Linux"@),
            Some(e3) => Some(s2.take(e3)),
        }
    }
}

/// The Linux distribution a parenthesized system block names, skipping a
/// leading `X11;` or `Wayland;` entry.
pub open spec fn linux_ua(inner: Seq<char>) -> Option<Seq<char>> {
    if contains_seq(inner, "X11"@) || contains_seq(inner, "Wayland"@) {
        match first_index_of(inner, ';') {
            None => Some("Unknown Linux"@),
            Some(b3) => if b3 + 2 > inner.len() {
                Some("Unknown Linux"@)
            } else {
                linux_tail(inner.skip(b3 + 2))
            },
        }
    } else {
        linux_tail(inner)
    }
}

/// The macOS version a parenthesized system block names: from `Mac OS X`
/// to the next `;`, or to the block's end with `_` read as `.`.
pub open spec fn mac_ua(inner: Seq<char>) -> Option<Seq<char>> {
    match first_match_of(inner, "Mac OS X"@) {
        None => Some(inner),
        Some(b4) => match first_index_of(inner.skip(b4), ';') {
            None => Some(
                inner.skip(b4).map_values(
                    |c: char|
                        if c == '_' {
                            '.'
                        } else {
                            c
                        },
                ),
            ),
            Some(e4) => Some(inner.subrange(b4, b4 + e4)),
        },
    }
}

/// The operating-system label a user-agent string advertises, read from
/// its first parenthesized block; nothing when the string has no such
/// block.
pub open spec fn os_spec(ua: Seq<char>) -> Option<Seq<char>> {
    match (first_index_of(ua, '('), first_index_of(ua, ')')) {
        (Some(b), Some(e)) => {
            if b + 1 > e {
                None
            } else {
                let inner = ua.subrange(b + 1, e);
                if contains_seq(inner, "Win32"@) || contains_seq(inner, "Win64"@) {
                    windows_ua(inner)
                } else if contains_seq(inner, "Linux"@) {
                    linux_ua(inner)
                } else if contains_seq(inner, "Mac OS X"@) {
                    mac_ua(inner)
                } else {
                    Some(inner)
                }
            }
        },
        _ => None,
    }
}

/// The operating-system label in a user-agent string.
pub fn os(user_agent: &str) -> (r: Option<String>)
    ensures
        match r {
            Some(s) => os_spec(user_agent@) == Some(s@),
            None => os_spec(user_agent@) is None,
        },
{
    let v = chars_vec(user_agent);
    let b = match find_char(&v, '(') {
        Some(b) => b,
        None => {
            return None;
        },
    };
    let e = match find_char(&v, ')') {
        Some(e) => e,
        None => {
            return None;
        },
    };
    if b >= e {
        return None;
    }
    let inner = subvec(&v, b + 1, e);
    if contains_sub(&inner, &chars_vec("Win32")) || contains_sub(&inner, &chars_vec("Win64")) {
        let b2 = match find_sub(&inner, &chars_vec("NT")) {
            Some(b2) => b2,
            None => {
                return Some(String::from_str("Windows"));
            },
        };
        let e2 = match find_char(&inner, '.') {
            Some(e2) => e2,
            None => {
                return Some(String::from_str("Windows"));
            },
        };
        if e2 < 3 || b2 > e2 - 3 {
            return Some(String::from_str("Windows"));
        }
        let ver = subvec(&inner, b2 + 3, e2);
        let mut out = String::from_str("Windows ");
        let vs = string_from_chars(&ver);
        out.append(vs.as_str());
        Some(out)
    } else if contains_sub(&inner, &chars_vec("Linux")) {
        let s2: Vec<char> = if contains_sub(&inner, &chars_vec("X11")) || contains_sub(
            &inner,
            &chars_vec("Wayland"),
        ) {
            let b3 = match find_char(&inner, ';') {
                Some(b3) => b3,
                None => {
                    return Some(String::from_str("Unknown Linux"));
                },
            };
            if inner.len() < 2 || b3 > inner.len() - 2 {
                return Some(String::from_str("Unknown Linux"));
            }
            let tail = subvec(&inner, b3 + 2, inner.len());
            proof {
                assert(tail@ =~= inner@.skip(b3 as int + 2));
            }
            tail
        } else {
            subvec(&inner, 0, inner.len())
        };
        proof {
            assert(inner@.subrange(0, inner@.len() as int) =~= inner@);
        }
        if starts_with_chars(&s2, &chars_vec("Linux")) {
            Some(String::from_str("Unknown Linux"))
        } else {
            match find_char(&s2, ';') {
                Some(e3) => {
                    let head = subvec(&s2, 0, e3);
                    proof {
                        assert(head@ =~= s2@.take(e3 as int));
                    }
                    Some(string_from_chars(&head))
                },
                None => Some(String::from_str("Unknown Linux")),
            }
        }
    } else if contains_sub(&inner, &chars_vec("Mac OS X")) {
        let b4 = match find_sub(&inner, &chars_vec("Mac OS X")) {
            Some(b4) => b4,
            None => {
                return Some(string_from_chars(&inner));
            },
        };
        let tail = subvec(&inner, b4, inner.len());
        proof {
            assert(tail@ =~= inner@.skip(b4 as int));
        }
        match find_char(&tail, ';') {
            Some(e4) => {
                let head = subvec(&inner, b4, b4 + e4);
                Some(string_from_chars(&head))
            },
            None => {
                let mut rep: Vec<char> = Vec::new();
                let mut i: usize = 0;
                while i < tail.len()
                    invariant
                        0 <= i <= tail@.len(),
                        rep@ == tail@.take(i as int).map_values(
                            |c: char|
                                if c == '_' {
                                    '.'
                                } else {
                                    c
                                },
                        ),
                    decreases tail@.len() - i,
                {
                    let c = tail[i];
                    if c == '_' {
                        rep.push('.');
                    } else {
                        rep.push(c);
                    }
                    i = i + 1;
                    proof {
                        assert(rep@ =~= tail@.take(i as int).map_values(
                            |c: char|
                                if c == '_' {
                                    '.'
                                } else {
                                    c
                                },
                        ));
                    }
                }
                proof {
                    assert(tail@.take(tail@.len() as int) =~= tail@);
                }
                Some(string_from_chars(&rep))
            },
        }
    } else {
        Some(string_from_chars(&inner))
    }
}

/// What the platform read from a user-agent string must be: the family
/// its parenthesized system block names, or an unknown platform carrying
/// the block itself; a string without a block reads as `"Unknown"`.
pub open spec fn platform_matches(ua: Seq<char>, r: Platform) -> bool {
    match (first_index_of(ua, '('), first_index_of(ua, ')')) {
        (Some(b), Some(e)) => {
            if b + 1 > e {
                r matches Platform::Unknown(u) && u@ == "Unknown"@
            } else {
                let inner = ua.subrange(b + 1, e);
                if contains_seq(inner, "Win32"@) || contains_seq(inner, "Win64"@) {
                    r == Platform::Windows
                } else if contains_seq(inner, "Linux"@) {
                    r == Platform::Linux
                } else if contains_seq(inner, "Mac OS X"@) {
                    r == Platform::Mac
                } else {
                    r matches Platform::Unknown(u) && u@ == inner
                }
            }
        },
        _ => r matches Platform::Unknown(u) && u@ == "Unknown"@,
    }
}

/// The platform family a user-agent string advertises.
pub fn platform(user_agent: &str) -> (r: Platform)
    ensures
        platform_matches(user_agent@, r),
{
    let v = chars_vec(user_agent);
    let b = match find_char(&v, '(') {
        Some(b) => b,
        None => {
            return Platform::Unknown(String::from_str("Unknown"));
        },
    };
    let e = match find_char(&v, ')') {
        Some(e) => e,
        None => {
            return Platform::Unknown(String::from_str("Unknown"));
        },
    };
    if b >= e {
        return Platform::Unknown(String::from_str("Unknown"));
    }
    let inner = subvec(&v, b + 1, e);
    if contains_sub(&inner, &chars_vec("Win32")) || contains_sub(&inner, &chars_vec("Win64")) {
        Platform::Windows
    } else if contains_sub(&inner, &chars_vec("Linux")) {
        Platform::Linux
    } else if contains_sub(&inner, &chars_vec("Mac OS X")) {
        Platform::Mac
    } else {
        Platform::Unknown(string_from_chars(&inner))
    }
}

/// The desktop environment this provider serves.
pub fn env() -> (r: DesktopEnv)
    ensures
        r == DesktopEnv::Wasm,
{
    DesktopEnv::Wasm
}

} // verus!
