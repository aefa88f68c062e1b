//! The provider for sandboxed WebAssembly targets without OS access.
//!
//! Such a target can reach no user database, no hostname query and no
//! release file, so every fact is a fixed placeholder.  Nothing here can
//! fail: absence of information is itself the answer.

use vstd::prelude::*;
use vstd::utf8::encode_utf8;

use crate::arch::Arch;
use crate::desktop_env::DesktopEnv;
use crate::error::Error;
use crate::os::NativeString;
use crate::platform::Platform;

verus! {

/// The fixed language list: American English.
pub fn lang() -> (r: Vec<String>)
    ensures
        r@.len() == 1,
        r@[0]@ == "en-US"@,
{
    let mut out: Vec<String> = Vec::new();
    out.push(String::from_str("en-US"));
    out
}

/// The fixed login name.
pub fn username() -> (r: Result<String, Error>)
    ensures
        r is Ok && r->Ok_0@ == "anonymous"@,
{
    Ok(String::from_str("anonymous"))
}

/// The fixed login name, in native form.
pub fn username_os() -> (r: Result<NativeString, Error>)
    ensures
        r is Ok && r->Ok_0@ == encode_utf8("anonymous"@),
{
    Ok(NativeString::from_text("anonymous"))
}

/// The fixed real name.
pub fn realname() -> (r: Result<String, Error>)
    ensures
        r is Ok && r->Ok_0@ == "Anonymous"@,
{
    Ok(String::from_str("Anonymous"))
}

/// The fixed real name, in native form.
pub fn realname_os() -> (r: Result<NativeString, Error>)
    ensures
        r is Ok && r->Ok_0@ == encode_utf8("Anonymous"@),
{
    Ok(NativeString::from_text("Anonymous"))
}

/// The fixed device name.
pub fn devicename() -> (r: Result<String, Error>)
    ensures
        r is Ok && r->Ok_0@ == "Unknown"@,
{
    Ok(String::from_str("Unknown"))
}

/// The fixed device name, in native form.
pub fn devicename_os() -> (r: Result<NativeString, Error>)
    ensures
        r is Ok && r->Ok_0@ == encode_utf8("Unknown"@),
{
    Ok(NativeString::from_text("Unknown"))
}

/// The fixed hostname.
pub fn hostname() -> (r: Result<String, Error>)
    ensures
        r is Ok && r->Ok_0@ == "localhost"@,
{
    Ok(String::from_str("localhost"))
}

/// The fixed distribution label.
pub fn distro() -> (r: Result<String, Error>)
    ensures
        r is Ok && r->Ok_0@ == "Emulated"@,
{
    Ok(String::from_str("Emulated"))
}

/// The fixed distribution label, in native form.
pub fn distro_os() -> (r: Result<NativeString, Error>)
    ensures
        r is Ok && r->Ok_0@ == encode_utf8("Emulated"@),
{
    Ok(NativeString::from_text("Emulated"))
}

/// The desktop environment: unknown, labelled as WebAssembly.
pub fn desktop_env() -> (r: DesktopEnv)
    ensures
        r matches DesktopEnv::Unknown(s) && s@ == "WebAssembly"@,
{
    DesktopEnv::Unknown(String::from_str("WebAssembly"))
}

/// The platform: unknown.
pub fn platform() -> (r: Platform)
    ensures
        r matches Platform::Unknown(s) && s@ == "Unknown"@,
{
    Platform::Unknown(String::from_str("Unknown"))
}

/// The architecture: the WebAssembly variant matching the target's
/// pointer width.
pub fn arch(pointer_width_64: bool) -> (r: Arch)
    ensures
        r == if pointer_width_64 {
            Arch::Wasm64
        } else {
            Arch::Wasm32
        },
{
    if pointer_width_64 {
        Arch::Wasm64
    } else {
        Arch::Wasm32
    }
}

} // verus!
