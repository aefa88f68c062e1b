//! The provider for the Daku WebAssembly host.
//!
//! The host exposes no identity facts yet, so every answer is a fixed
//! placeholder, labelled for Daku where the label is visible.

use vstd::prelude::*;
use vstd::utf8::encode_utf8;

use crate::arch::Arch;
use crate::desktop_env::DesktopEnv;
use crate::error::Error;
use crate::os::NativeString;
use crate::platform::Platform;

verus! {

/// The fixed language list: one `en/US` entry.
pub fn lang() -> (r: Vec<String>)
    ensures
        r@.len() == 1,
        r@[0]@ == "en/US"@,
{
    let mut out: Vec<String> = Vec::new();
    out.push(String::from_str("en/US"));
    out
}

/// The fixed raw locale string.
pub fn langs() -> (r: Result<String, Error>)
    ensures
        r is Ok && r->Ok_0@ == "en/US"@,
{
    Ok(String::from_str("en/US"))
}

/// The fixed real name, in native form.
pub fn realname() -> (r: Result<NativeString, Error>)
    ensures
        r is Ok && r->Ok_0@ == encode_utf8("Anonymous"@),
{
    Ok(NativeString::from_text("Anonymous"))
}

/// The fixed login name, in native form.
pub fn username() -> (r: Result<NativeString, Error>)
    ensures
        r is Ok && r->Ok_0@ == encode_utf8("anonymous"@),
{
    Ok(NativeString::from_text("anonymous"))
}

/// The fixed device name, in native form.
pub fn devicename() -> (r: Result<NativeString, Error>)
    ensures
        r is Ok && r->Ok_0@ == encode_utf8("Unknown"@),
{
    Ok(NativeString::from_text("Unknown"))
}

/// The fixed hostname.
pub fn hostname() -> (r: Result<String, Error>)
    ensures
        r is Ok && r->Ok_0@ == "localhost"@,
{
    Ok(String::from_str("localhost"))
}

/// The fixed distribution label.
pub fn distro() -> (r: Result<String, Error>)
    ensures
        r is Ok && r->Ok_0@ == "Emulated"@,
{
    Ok(String::from_str("Emulated"))
}

/// The desktop environment: unknown, labelled for Daku.
pub fn desktop_env() -> (r: DesktopEnv)
    ensures
        r matches DesktopEnv::Unknown(s) && s@ == "Unknown Daku"@,
{
    DesktopEnv::Unknown(String::from_str("Unknown Daku"))
}

/// The platform: unknown, labelled Daku.
pub fn platform() -> (r: Platform)
    ensures
        r matches Platform::Unknown(s) && s@ == "Daku"@,
{
    Platform::Unknown(String::from_str("Daku"))
}

/// The architecture: the WebAssembly variant matching the target's
/// pointer width.
pub fn arch(pointer_width_64: bool) -> (r: Arch)
    ensures
        r == if pointer_width_64 {
            Arch::Wasm64
        } else {
            Arch::Wasm32
        },
{
    if pointer_width_64 {
        Arch::Wasm64
    } else {
        Arch::Wasm32
    }
}

} // verus!
