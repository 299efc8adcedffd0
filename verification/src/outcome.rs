//! The typed outcomes a resolution can end in, and HTTP status
//! classification.

use vstd::prelude::*;

verus! {

/// The fatal outcomes of a request, each surfaced to the caller unchanged.
/// `NoIconFound` is a legitimate terminal outcome, kept distinct from the
/// failures.
#[derive(Clone, Debug, PartialEq, Eq)]
pub enum IconError {
    /// The reachability check failed: the target returned a non-2xx status
    /// or the transport failed.
    TargetUnreachable,
    /// The mandatory root-document fetch failed.
    DiscoveryFetchFailed,
    /// The discovery chain exhausted every strategy without a candidate.
    NoIconFound,
    /// Fetching the resolved candidate failed; carries the observed status
    /// when the transport produced one.
    IconFetchFailed { status: Option<u16> },
    /// The candidate's bytes could not be decoded as an image.
    IconDecodeFailed,
}

/// A status in the 2xx range.
pub open spec fn spec_is_success(status: u16) -> bool {
    200 <= status && status < 300
}

/// Whether a response status counts as success (2xx).
pub fn is_success_status(status: u16) -> (r: bool)
    ensures
        r == spec_is_success(status),
{
    200 <= status && status < 300
}

} // verus!
