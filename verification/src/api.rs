//! The convenience layer: every query answers with a usable value.
//!
//! Each function here walks a documented fallback chain over a provider's
//! [`Os`] report and never returns an error: a failed or undecodable field
//! is treated exactly like an absent one, and the chain ends in a fixed
//! placeholder.  Callers who need to distinguish those outcomes use
//! [`crate::fallible`] instead.
//!
//! The chain, stated by the `spec_*` functions below:
//! * [`username`] — the decoded login name, or `"unknown"`;
//! * [`realname`] — the decoded real name if nonempty, else [`username`];
//! * [`hostname`] — the decoded hostname, or `"localhost"`, lowercased at
//!   this boundary only;
//! * [`devicename`] — the decoded device name if nonempty, else
//!   [`hostname`];
//! * [`distro`] — the provider's distribution label, or `"Unknown "`
//!   followed by the platform's label;
//! * [`desktop_env`], [`platform`], [`arch`] — pass-throughs, since a
//!   provider always has a value for them.

use vstd::prelude::*;

use crate::arch::Arch;
use crate::conversions::{ascii_lower, lemma_ascii_lower_idempotent, to_ascii_lowercase};
use crate::desktop_env::DesktopEnv;
use crate::error::Error;
use crate::fallible;
use crate::language::{lang_matches, locale_tokens, parse_locale, Language};
use crate::os::{field_result, NativeString, Os};
use crate::platform::Platform;

verus! {

/// What [`username`] returns for a report.
pub open spec fn spec_username(os: Os) -> Seq<char> {
    match field_result(os.username) {
        Ok(s) => s,
        Err(_) => "unknown"@,
    }
}

/// What [`hostname`] returns for a report.
pub open spec fn spec_hostname(os: Os) -> Seq<char> {
    match field_result(os.hostname) {
        Ok(s) => ascii_lower(s),
        Err(_) => ascii_lower("localhost"@),
    }
}

/// What [`realname`] returns for a report.
pub open spec fn spec_realname(os: Os) -> Seq<char> {
    let fr = field_result(os.realname);
    if fr is Ok && fr->Ok_0.len() > 0 {
        fr->Ok_0
    } else {
        spec_username(os)
    }
}

/// What [`devicename`] returns for a report.
pub open spec fn spec_devicename(os: Os) -> Seq<char> {
    let fd = field_result(os.devicename);
    if fd is Ok && fd->Ok_0.len() > 0 {
        fd->Ok_0
    } else {
        spec_hostname(os)
    }
}

/// What [`distro`] returns for a report.
pub open spec fn spec_distro(os: Os) -> Seq<char> {
    match os.distro {
        Ok(s) => s@,
        Err(_) => "Unknown "@ + os.platform.display_spec(),
    }
}

/// Get the user's username: the provider's login name, or `"unknown"` on
/// any failure.
pub fn username(os: &Os) -> (r: String)
    ensures
        r@ == spec_username(*os),
{
    match fallible::username(os) {
        Ok(s) => s,
        Err(_) => String::from_str("unknown"),
    }
}

/// Get the user's real (full) name: the provider's real name when it is
/// present and nonempty, else the [`username`] chain.
pub fn realname(os: &Os) -> (r: String)
    ensures
        r@ == spec_realname(*os),
{
    match fallible::realname(os) {
        Ok(s) => {
            if s.as_str().is_empty() {
                username(os)
            } else {
                s
            }
        },
        Err(_) => username(os),
    }
}

/// Get the host device's hostname, defaulted to `"localhost"` and then
/// lowercased.  Case normalization happens only at this public boundary,
/// never inside a provider.
pub fn hostname(os: &Os) -> (r: String)
    ensures
        r@ == spec_hostname(*os),
{
    match fallible::hostname(os) {
        Ok(s) => to_ascii_lowercase(s.as_str()),
        Err(_) => to_ascii_lowercase("localhost"),
    }
}

/// Get the device name (also known as "pretty name"): the provider's
/// device name when it is present and nonempty, else the [`hostname`]
/// chain.
pub fn devicename(os: &Os) -> (r: String)
    ensures
        r@ == spec_devicename(*os),
{
    match fallible::devicename(os) {
        Ok(s) => {
            if s.as_str().is_empty() {
                hostname(os)
            } else {
                s
            }
        },
        Err(_) => hostname(os),
    }
}

/// Get the name of the OS distribution and (possibly) version, or
/// `"Unknown "` followed by the platform's label when the provider could
/// not read any release information.
pub fn distro(os: &Os) -> (r: String)
    ensures
        r@ == spec_distro(*os),
{
    match fallible::distro(os) {
        Ok(s) => s,
        Err(_) => {
            let mut out = String::from_str("Unknown ");
            let p = os.platform.display();
            out.append(p.as_str());
            out
        },
    }
}

/// Get the desktop environment, exactly as the provider inferred it.
pub fn desktop_env(os: &Os) -> (r: DesktopEnv)
    ensures
        r == os.desktop_env,
{
    os.desktop_env.duplicate()
}

/// Get the platform, exactly as the provider fixed it.
pub fn platform(os: &Os) -> (r: Platform)
    ensures
        r == os.platform,
{
    os.platform.duplicate()
}

/// Get the CPU architecture.  A provider always fixes one from its build
/// target, so the report must carry a value.
pub fn arch(os: &Os) -> (r: Arch)
    requires
        os.arch is Ok,
    ensures
        r == os.arch->Ok_0,
{
    match &os.arch {
        Ok(a) => a.duplicate(),
        Err(_) => vstd::pervasive::unreached(),
    }
}

/// Get the user's account name, strictly decoded: usually the username,
/// possibly with an account server suffix.  No fallback is applied.
pub fn account(os: &Os) -> (r: Result<String, Error>)
    ensures
        crate::os::res_matches(r, field_result(os.account)),
{
    match &os.account {
        Ok(ns) => crate::conversions::decode_bytes(crate::conversions::copy_bytes(&ns.bytes)),
        Err(e) => Err(*e),
    }
}

/// The user's account name in its native form, exactly as reported.
pub fn account_os(os: &Os) -> (r: Result<NativeString, Error>)
    ensures
        r is Ok <==> os.account is Ok,
        r is Ok ==> r->Ok_0@ == os.account->Ok_0@,
        r is Err ==> r->Err_0 == os.account->Err_0,
{
    match &os.account {
        Ok(ns) => Ok(ns.duplicate()),
        Err(e) => Err(*e),
    }
}

/// The user's login name in its native form, exactly as reported.
pub fn username_os(os: &Os) -> (r: Result<NativeString, Error>)
    ensures
        r is Ok <==> os.username is Ok,
        r is Ok ==> r->Ok_0@ == os.username->Ok_0@,
        r is Err ==> r->Err_0 == os.username->Err_0,
{
    match &os.username {
        Ok(ns) => Ok(ns.duplicate()),
        Err(e) => Err(*e),
    }
}

/// The user's real name in its native form, exactly as reported.
pub fn realname_os(os: &Os) -> (r: Result<NativeString, Error>)
    ensures
        r is Ok <==> os.realname is Ok,
        r is Ok ==> r->Ok_0@ == os.realname->Ok_0@,
        r is Err ==> r->Err_0 == os.realname->Err_0,
{
    match &os.realname {
        Ok(ns) => Ok(ns.duplicate()),
        Err(e) => Err(*e),
    }
}

/// The device name in its native form, exactly as reported.
pub fn devicename_os(os: &Os) -> (r: Result<NativeString, Error>)
    ensures
        r is Ok <==> os.devicename is Ok,
        r is Ok ==> r->Ok_0@ == os.devicename->Ok_0@,
        r is Err ==> r->Err_0 == os.devicename->Err_0,
{
    match &os.devicename {
        Ok(ns) => Ok(ns.duplicate()),
        Err(e) => Err(*e),
    }
}

/// Get the user's preferred languages, most preferred first, by parsing
/// the provider's raw locale string with [`parse_locale`].  Fails only
/// when the provider could not supply a locale string at all.
pub fn langs(os: &Os) -> (r: Result<Vec<Language>, Error>)
    ensures
        r is Ok <==> os.langs is Ok,
        r is Err ==> r->Err_0 == os.langs->Err_0,
        r is Ok ==> r->Ok_0@.len() == locale_tokens(os.langs->Ok_0@).len(),
        r is Ok ==> forall|i: int|
            0 <= i < r->Ok_0@.len() ==> lang_matches(
                #[trigger] r->Ok_0@[i],
                locale_tokens(os.langs->Ok_0@)[i],
            ),
{
    match &os.langs {
        Ok(s) => Ok(parse_locale(s.as_str())),
        Err(e) => Err(*e),
    }
}

/// The convenience hostname is already lowercase: lowercasing what
/// [`hostname`] returns changes nothing, on any report.
pub proof fn lemma_hostname_lowercase(os: Os)
    ensures
        spec_hostname(os) == ascii_lower(spec_hostname(os)),
{
    match field_result(os.hostname) {
        Ok(s) => {
            lemma_ascii_lower_idempotent(s);
        },
        Err(_) => {
            lemma_ascii_lower_idempotent("localhost"@);
        },
    }
}

/// Whenever the realname field yields no usable nonempty text — the
/// provider failed, the bytes are not valid UTF-8, or the OS reported an
/// absent (empty) real name — [`realname`] returns exactly what
/// [`username`] returns.
pub proof fn lemma_realname_falls_back(os: Os)
    requires
        !(field_result(os.realname) is Ok && field_result(os.realname)->Ok_0.len() > 0),
    ensures
        spec_realname(os) == spec_username(os),
{
}

/// Whenever the devicename field yields no usable nonempty text — the
/// provider failed, the bytes are not valid UTF-8, or no device name is
/// configured (empty) — [`devicename`] returns exactly what [`hostname`]
/// returns.
pub proof fn lemma_devicename_falls_back(os: Os)
    requires
        !(field_result(os.devicename) is Ok && field_result(os.devicename)->Ok_0.len() > 0),
    ensures
        spec_devicename(os) == spec_hostname(os),
{
}

/// An empty native string decodes to empty text: a provider that reports
/// an unset field with zero bytes lands in the fallback case of the
/// chains above.
pub proof fn lemma_empty_field_decodes_empty(f: Result<NativeString, Error>)
    requires
        f is Ok,
        f->Ok_0@.len() == 0,
    ensures
        field_result(f) is Ok,
        field_result(f)->Ok_0.len() == 0,
{
    assert(vstd::utf8::valid_utf8(f->Ok_0@));
}

} // verus!
