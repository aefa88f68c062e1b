//! The raw facts a platform provider reports, before any normalization.

use vstd::prelude::*;

use crate::arch::Arch;
use crate::desktop_env::DesktopEnv;
use crate::error::Error;
use crate::platform::Platform;

pub mod daku;
pub mod redox;
pub mod wasi;

verus! {

/// Text in the operating system's own representation: a byte string that
/// is usually, but not always, valid UTF-8.  It is decoded once by the
/// codec in [`crate::conversions`], or handed back as-is to callers who
/// accept native strings.
#[derive(Debug)]
pub struct NativeString {
    pub bytes: Vec<u8>,
}

impl View for NativeString {
    type V = Seq<u8>;

    open spec fn view(&self) -> Seq<u8> {
        self.bytes@
    }
}

impl NativeString {
    /// Wrap owned bytes as a native string.
    pub fn from_vec(bytes: Vec<u8>) -> (r: NativeString)
        ensures
            r@ == bytes@,
    {
        NativeString { bytes }
    }

    /// The UTF-8 encoding of checked text, as a native string.
    pub fn from_text(s: &str) -> (r: NativeString)
        ensures
            r@ == vstd::utf8::encode_utf8(s@),
    {
        NativeString { bytes: s.as_bytes_vec() }
    }

    /// Whether the native string holds no bytes at all.
    pub fn is_empty(&self) -> (r: bool)
        ensures
            r == (self@.len() == 0),
    {
        self.bytes.len() == 0
    }

    /// An owned copy of this native string.
    pub fn duplicate(&self) -> (r: NativeString)
        ensures
            r@ == self@,
    {
        NativeString { bytes: crate::conversions::copy_bytes(&self.bytes) }
    }
}

/// One report of raw identity facts, as a platform provider collected them
/// from the operating system.
///
/// Each field holds either the data the OS handed back or the [`Error`]
/// that kept the provider from answering.  A provider that can reach its
/// source but finds the field unset reports success with an empty value:
/// that distinction is what lets the fallback chain in [`crate`]'s
/// convenience layer work.  The query layers never mutate a report and
/// keep no state between calls.
#[derive(Debug)]
pub struct Os {
    /// The user's account name, possibly with an account server suffix.
    pub account: Result<NativeString, Error>,
    /// The user's login name.
    pub username: Result<NativeString, Error>,
    /// The user's full name; empty when the OS has none on record.
    pub realname: Result<NativeString, Error>,
    /// The device's human-friendly name; empty when none is configured.
    pub devicename: Result<NativeString, Error>,
    /// The device's hostname, case-preserving, from a fixed-size query.
    pub hostname: Result<NativeString, Error>,
    /// The OS distribution label, already extracted by the provider.
    pub distro: Result<String, Error>,
    /// The desktop environment, inferred by the provider; never an error.
    pub desktop_env: DesktopEnv,
    /// The platform family, fixed by the build target; never an error.
    pub platform: Platform,
    /// The CPU architecture, fixed by the build target.
    pub arch: Result<Arch, Error>,
    /// The raw, still-delimited locale preference string.
    pub langs: Result<String, Error>,
}

/// The outcome of strictly decoding one native-string field: the provider
/// error if the field failed, [`Error::InvalidData`] if the bytes are not
/// UTF-8, and the decoded text otherwise.
pub open spec fn field_result(f: Result<NativeString, Error>) -> Result<Seq<char>, Error> {
    match f {
        Err(e) => Err(e),
        Ok(ns) => if vstd::utf8::valid_utf8(ns@) {
            Ok(vstd::utf8::decode_utf8(ns@))
        } else {
            Err(Error::InvalidData)
        },
    }
}

/// Whether an executable string result carries exactly the outcome a
/// mathematical result states.
pub open spec fn res_matches(r: Result<String, Error>, m: Result<Seq<char>, Error>) -> bool {
    match (r, m) {
        (Ok(s), Ok(t)) => s@ == t,
        (Err(e), Err(f)) => e == f,
        _ => false,
    }
}

} // verus!
