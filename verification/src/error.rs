//! The error taxonomy shared by every fallible query.

use vstd::prelude::*;

verus! {

/// Why a query about the user or the device could not be answered.
#[derive(Clone, Copy, Debug, PartialEq, Eq, Structural)]
pub enum Error {
    /// The underlying data source could not be reached: no record for the
    /// user, a failed system call, a missing file or an unspawnable process.
    Unavailable,
    /// The data source answered, but its bytes are not valid text under the
    /// platform's strict decoding rule.
    InvalidData,
    /// The width of an architecture outside the canonical table was asked
    /// for; it cannot be inferred from a free-form name.
    UnknownArch,
}

} // verus!
