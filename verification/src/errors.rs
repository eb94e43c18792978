//! The library's error taxonomy.

use vstd::prelude::*;

verus! {

/// Failures the verified core can report. Remote "not found" outcomes are
/// not errors (they drive the must-upload branch) and are carried in
/// `RemoteObjectState` instead.
#[derive(Debug, Clone, Copy, PartialEq, Eq, Structural)]
pub enum ShukError {
    /// The object store rejected a lookup for a reason other than
    /// "not found" (permissions, throttling, ...).
    LookupFailed,
    /// A catalog query was made but the catalog holds no file list.
    NoFiles,
    /// Aggregate size computation exceeded the representable range.
    SizeOverflow,
}

impl ShukError {
    /// A short human-readable description, for callers that print errors.
    pub fn message(&self) -> (r: &'static str)
        ensures
            self is LookupFailed ==> r@ == "remote lookup failed"@,
            self is NoFiles ==> r@ == "no files in metadata"@,
            self is SizeOverflow ==> r@ == "total size overflow"@,
    {
        match self {
            ShukError::LookupFailed => "remote lookup failed",
            ShukError::NoFiles => "no files in metadata",
            ShukError::SizeOverflow => "total size overflow",
        }
    }
}

} // verus!
