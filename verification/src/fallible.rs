//! Fallible versions of the identity queries.
//!
//! The convenience functions at the crate root return `"Unknown"`,
//! `"unknown"` or `"localhost"` when a fact cannot be established.  That
//! might not be desirable in some situations, so each query also exists
//! here, returning a [`Result`] instead: the provider's own error is
//! surfaced untouched, bytes that are not valid UTF-8 are reported as
//! [`Error::InvalidData`], and nothing is ever defaulted.  A provider that
//! found its source but an unset value yields `Ok` with an empty string.

use vstd::prelude::*;

use crate::conversions::string_from_os;
use crate::error::Error;
use crate::os::{field_result, res_matches, NativeString, Os};

verus! {

/// Strictly decode one native-string field of a report.
fn decode_field(f: &Result<NativeString, Error>) -> (r: Result<String, Error>)
    ensures
        res_matches(r, field_result(*f)),
{
    match f {
        Ok(ns) => string_from_os(ns.duplicate()),
        Err(e) => Err(*e),
    }
}

/// The user's login name, strictly decoded.
pub fn username(os: &Os) -> (r: Result<String, Error>)
    ensures
        res_matches(r, field_result(os.username)),
{
    decode_field(&os.username)
}

/// The user's real (full) name, strictly decoded.  An empty result means
/// the OS has no real name on record; that is not an error.
pub fn realname(os: &Os) -> (r: Result<String, Error>)
    ensures
        res_matches(r, field_result(os.realname)),
{
    decode_field(&os.realname)
}

/// The device's human-friendly name, strictly decoded.  An empty result
/// means none is configured; that is not an error.
pub fn devicename(os: &Os) -> (r: Result<String, Error>)
    ensures
        res_matches(r, field_result(os.devicename)),
{
    decode_field(&os.devicename)
}

/// The device's hostname, strictly decoded and case-preserving: no
/// normalization happens below the convenience layer.
pub fn hostname(os: &Os) -> (r: Result<String, Error>)
    ensures
        res_matches(r, field_result(os.hostname)),
{
    decode_field(&os.hostname)
}

/// The OS distribution label, exactly as the provider extracted it.
pub fn distro(os: &Os) -> (r: Result<String, Error>)
    ensures
        r is Ok <==> os.distro is Ok,
        r is Ok ==> r->Ok_0@ == os.distro->Ok_0@,
        r is Err ==> r->Err_0 == os.distro->Err_0,
{
    match &os.distro {
        Ok(s) => Ok(s.clone()),
        Err(e) => Err(*e),
    }
}

} // verus!
