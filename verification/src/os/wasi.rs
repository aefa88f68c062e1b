//! The provider for WASI runtimes, over the `wasite` conventions.
//!
//! A WASI runtime hands identity facts over as environment variables with
//! agreed names, which the `wasite` crate reads.  What those variables
//! hold depends entirely on the runtime, so the trusted wrappers promise
//! nothing; the defaulting and splitting applied to whatever came back is
//! verified in the `*_from` functions, which the wrapping queries call.

use vstd::prelude::*;

use crate::arch::Arch;
use crate::conversions::{chars_vec, string_from_chars};
use crate::desktop_env::DesktopEnv;
use crate::error::Error;
use crate::platform::Platform;
use crate::text::{split_chars, split_seq};

verus! {

/// Relies on `wasite::user`: reads the `USER` environment variable; what
/// it holds depends on the runtime, so nothing is promised.
#[verifier::external_body]
fn wasite_user() -> (r: Option<String>) {
    wasite::user().ok()
}

/// Relies on `wasite::hostname`: reads the `HOSTNAME` environment
/// variable; what it holds depends on the runtime, so nothing is
/// promised.
#[verifier::external_body]
fn wasite_hostname() -> (r: Option<String>) {
    wasite::hostname().ok()
}

/// Relies on `wasite::name`: reads the `NAME` environment variable; what
/// it holds depends on the runtime, so nothing is promised.
#[verifier::external_body]
fn wasite_name() -> (r: Option<String>) {
    wasite::name().ok()
}

/// Relies on `wasite::langs`: reads the `LANGS` environment variable;
/// what it holds depends on the runtime, so nothing is promised.
#[verifier::external_body]
fn wasite_langs() -> (r: Option<String>) {
    wasite::langs().ok()
}

/// The login name for what the runtime reported: the value itself, or
/// `"anonymous"` when the runtime had none.
pub fn username_from(raw: Option<String>) -> (r: String)
    ensures
        match raw {
            Some(s) => r@ == s@,
            None => r@ == "anonymous"@,
        },
{
    match raw {
        Some(s) => s,
        None => String::from_str("anonymous"),
    }
}

/// The user's login name, from the runtime's environment.
pub fn username() -> String {
    username_from(wasite_user())
}

/// The real name for what the runtime reported: the value itself, or
/// `"Anonymous"` when the runtime had none.
pub fn realname_from(raw: Option<String>) -> (r: String)
    ensures
        match raw {
            Some(s) => r@ == s@,
            None => r@ == "Anonymous"@,
        },
{
    match raw {
        Some(s) => s,
        None => String::from_str("Anonymous"),
    }
}

/// The user's real name, from the runtime's environment.
pub fn realname() -> String {
    realname_from(wasite_user())
}

/// The device name for what the runtime reported: the value itself, or
/// `"Unknown"` when the runtime had none.
pub fn devicename_from(raw: Option<String>) -> (r: String)
    ensures
        match raw {
            Some(s) => r@ == s@,
            None => r@ == "Unknown"@,
        },
{
    match raw {
        Some(s) => s,
        None => String::from_str("Unknown"),
    }
}

/// The device's pretty name, from the runtime's environment.
pub fn devicename() -> String {
    devicename_from(wasite_name())
}

/// The hostname for what the runtime reported: the value itself, or
/// `"localhost"` when the runtime had none.
pub fn hostname_from(raw: Option<String>) -> (r: String)
    ensures
        match raw {
            Some(s) => r@ == s@,
            None => r@ == "localhost"@,
        },
{
    match raw {
        Some(s) => s,
        None => String::from_str("localhost"),
    }
}

/// The device's hostname, from the runtime's environment.
pub fn hostname() -> String {
    hostname_from(wasite_hostname())
}

/// The language list for what the runtime reported: the raw value — or
/// `"en_US"` when the runtime had none — split at each `;`.
pub fn lang_from(raw: Option<String>) -> (r: Vec<String>)
    ensures
        r.deep_view() == split_seq(
            match raw {
                Some(s) => s@,
                None => "en_US"@,
            },
            ';',
        ),
{
    let s: String = match raw {
        Some(s) => s,
        None => String::from_str("en_US"),
    };
    let v = chars_vec(s.as_str());
    let parts = split_chars(&v, ';');
    let ghost target = split_seq(s@, ';');
    let mut out: Vec<String> = Vec::new();
    let mut i: usize = 0;
    while i < parts.len()
        invariant
            parts.deep_view() == target,
            0 <= i <= target.len(),
            out.deep_view() == target.take(i as int),
        decreases target.len() - i,
    {
        let ghost before = out.deep_view();
        let piece = string_from_chars(&parts[i]);
        proof {
            assert(parts@[i as int]@ =~= parts.deep_view()[i as int]);
            assert(piece@ =~= target[i as int]);
        }
        out.push(piece);
        i = i + 1;
        proof {
            assert(out.deep_view() =~~= before.push(piece@));
            assert(out.deep_view() =~~= target.take(i as int));
        }
    }
    proof {
        assert(target.take(target.len() as int) =~~= target);
    }
    out
}

/// The user's preferred languages, from the runtime's environment.
pub fn lang() -> Vec<String> {
    lang_from(wasite_langs())
}

/// The distribution label: WASI runtimes name no distribution.
pub fn distro() -> (r: Result<String, Error>)
    ensures
        r is Ok && r->Ok_0@ == "Unknown WASI"@,
{
    Ok(String::from_str("Unknown WASI"))
}

/// The desktop environment: unknown, keeping the session value when one
/// is set.
pub fn desktop_env(session: Option<String>) -> (r: DesktopEnv)
    ensures
        match session {
            Some(env) => r matches DesktopEnv::Unknown(u) && u@ == env@,
            None => r matches DesktopEnv::Unknown(u) && u@ == "Unknown WASI"@,
        },
{
    match session {
        Some(env) => DesktopEnv::Unknown(env),
        None => DesktopEnv::Unknown(String::from_str("Unknown WASI")),
    }
}

/// The platform: unknown, labelled WASI.
pub fn platform() -> (r: Platform)
    ensures
        r matches Platform::Unknown(s) && s@ == "WASI"@,
{
    Platform::Unknown(String::from_str("WASI"))
}

/// The architecture: the WebAssembly variant matching the target's
/// pointer width.
pub fn arch(pointer_width_64: bool) -> (r: Arch)
    ensures
        r == if pointer_width_64 {
            Arch::Wasm64
        } else {
            Arch::Wasm32
        },
{
    if pointer_width_64 {
        Arch::Wasm64
    } else {
        Arch::Wasm32
    }
}

} // verus!
