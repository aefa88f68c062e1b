//! The provider logic for Windows-like systems.
//!
//! On these systems the raw facts arrive as UTF-16 buffers from the
//! session and computer-name queries, and as one packed version integer.
//! Filling those buffers is foreign-call work and stays with the caller;
//! decoding them, dispatching on the error code of the display-name query
//! and reading the packed version apart is here, verified.

use vstd::prelude::*;

use crate::conversions::{utf16_decode_lossy, utf16_to_string_lossy};
use crate::desktop_env::DesktopEnv;
use crate::platform::Platform;

verus! {

/// The buffer of a username query without its trailing NUL unit, decoded
/// lossily.  The OS hands the name back NUL-terminated; an empty buffer
/// decodes to an empty name.
pub fn username(wide: &Vec<u16>) -> (r: String)
    ensures
        wide@.len() > 0 ==> r@ == utf16_decode_lossy(wide@.drop_last()),
        wide@.len() == 0 ==> r@ == Seq::<char>::empty(),
{
    if wide.len() == 0 {
        return String::new();
    }
    let mut trimmed: Vec<u16> = Vec::new();
    let mut i: usize = 0;
    let n = wide.len() - 1;
    while i < n
        invariant
            n == wide@.len() - 1,
            0 <= i <= n,
            trimmed@ == wide@.take(i as int),
        decreases n - i,
    {
        trimmed.push(wide[i]);
        i = i + 1;
        proof {
            assert(trimmed@ =~= wide@.take(i as int));
        }
    }
    proof {
        assert(wide@.take(n as int) =~= wide@.drop_last());
    }
    utf16_to_string_lossy(&trimmed)
}

/// What the display-name query answered, given the error code of its
/// probe call: the decoded buffer when more data was announced, a fixed
/// `"Unknown"` when no domain controller could be contacted, the login
/// name when no name is mapped, and nothing for any other code.
pub fn realname(last_error: u32, wide: &Vec<u16>, fallback_username: &str) -> (r: Option<String>)
    ensures
        last_error == 0xEA ==> (r matches Some(s) && s@ == utf16_decode_lossy(wide@)),
        last_error == 0x54B ==> (r matches Some(s) && s@ == "Unknown"@),
        last_error == 0x534 ==> (r matches Some(s) && s@ == fallback_username@),
        last_error != 0xEA && last_error != 0x54B && last_error != 0x534 ==> r is None,
{
    if last_error == 0xEA {
        Some(utf16_to_string_lossy(wide))
    } else if last_error == 0x54B {
        Some(String::from_str("Unknown"))
    } else if last_error == 0x534 {
        Some(String::from_str(fallback_username))
    } else {
        None
    }
}

/// The buffer of a fully-qualified computer-name query, decoded lossily.
pub fn computer(wide: &Vec<u16>) -> (r: String)
    ensures
        r@ == utf16_decode_lossy(wide@),
{
    utf16_to_string_lossy(wide)
}

/// The buffer of a NetBIOS computer-name query, decoded lossily.
pub fn hostname(wide: &Vec<u16>) -> (r: String)
    ensures
        r@ == utf16_decode_lossy(wide@),
{
    utf16_to_string_lossy(wide)
}

/// The release name a packed version integer decodes to: the low byte is
/// the major version, the next byte the minor version, and the high half
/// the build number.
pub open spec fn os_name(bits: u32) -> Seq<char> {
    let major = bits & 0xFF;
    let minor = (bits & 0xFF00) >> 8;
    let build = (bits & 0xFFFF0000) >> 16;
    "Windows "@ + if major == 5 {
        "XP"@
    } else if major == 6 {
        if minor == 0 {
            "Vista"@
        } else if minor == 1 {
            "7"@
        } else if minor == 2 {
            if build == 9200 {
                "10"@
            } else {
                "8"@
            }
        } else {
            "8"@
        }
    } else {
        "Unknown"@
    }
}

/// Get the OS release name from the packed version integer the OS
/// reports.
pub fn os(bits: u32) -> (r: Option<String>)
    ensures
        r matches Some(s) && s@ == os_name(bits),
{
    let major: u32 = bits & 0xFF;
    let minor: u32 = (bits & 0xFF00) >> 8;
    let build: u32 = (bits & 0xFFFF0000) >> 16;
    let mut out = String::from_str("Windows ");
    if major == 5 {
        out.append("XP");
    } else if major == 6 {
        if minor == 0 {
            out.append("Vista");
        } else if minor == 1 {
            out.append("7");
        } else if minor == 2 {
            if build == 9200 {
                out.append("10");
            } else {
                out.append("8");
            }
        } else {
            out.append("8");
        }
    } else {
        out.append("Unknown");
    }
    Some(out)
}

/// The desktop environment this provider serves.
pub fn env() -> (r: DesktopEnv)
    ensures
        r == DesktopEnv::Windows,
{
    DesktopEnv::Windows
}

/// The platform this provider serves.
pub fn platform() -> (r: Platform)
    ensures
        r == Platform::Windows,
{
    Platform::Windows
}

} // verus!
