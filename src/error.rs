//! The ways a verification can fail.

use vstd::prelude::*;

verus! {

/// Why a file could not be shown to carry a trusted signature.
#[derive(Clone, Copy, Debug, PartialEq, Eq)]
pub enum Error {
    /// The file carries no signature, embedded or through a catalog.
    Unsigned,
    /// The platform reported a failure; its raw status code is kept.
    OsError(i32),
    /// The path could not be put in the form the platform needs.
    InvalidPath,
    /// The trust engine accepted the file but gave no signing certificate.
    LeafCertNotFound,
}

/// A platform status, as the signed 32-bit code it is reported as.
pub open spec fn status_code(s: u32) -> i32 {
    if s <= 0x7fff_ffff {
        s as i32
    } else {
        (s - 0x1_0000_0000) as i32
    }
}

/// Reads a platform status as a signed 32-bit code, bit for bit.
pub fn to_status_code(s: u32) -> (r: i32)
    ensures
        r == status_code(s),
{
    if s <= 0x7fff_ffff {
        s as i32
    } else {
        (s as i64 - 0x1_0000_0000i64) as i32
    }
}

} // verus!
