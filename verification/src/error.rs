//! The error taxonomy of the library.
use vstd::prelude::*;
use vstd::string::StringExecFns;

verus! {

/// Why a request or an inbound activity was refused.
#[derive(Clone, Copy, PartialEq, Eq, Structural, Debug)]
pub enum ApiError {
    /// Unknown article, instance or version.
    NotFound,
    /// Stale baseline: the caller edited against an outdated snapshot, or a
    /// concurrent edit already advanced the chain.
    Conflict,
    /// Diverging chains: two edits were authored against the same parent.
    Fork,
    /// The diff did not apply cleanly against the current text.
    PatchFailed,
    /// The change is empty: the new text equals the current one.
    NoOp,
    /// The payload fails shape validation.
    Malformed,
    /// The activity references an identifier this instance cannot resolve.
    UnknownReference,
    /// A remote fetch failed.
    FetchFailed,
    /// A remote representation failed verification.
    UntrustedSource,
    /// An outbound delivery failed.
    DeliveryFailed,
    /// The edit targets a protected article and the caller is no admin.
    Unauthorized,
}

impl ApiError {
    /// A human-readable description.
    pub fn message(&self) -> String {
        match self {
            ApiError::NotFound => String::from_str("not found"),
            ApiError::Conflict => String::from_str("edit conflict: stale baseline"),
            ApiError::Fork => String::from_str("diverging edit chains"),
            ApiError::PatchFailed => String::from_str("diff does not apply cleanly"),
            ApiError::NoOp => String::from_str("edit carries no change"),
            ApiError::Malformed => String::from_str("malformed payload"),
            ApiError::UnknownReference => String::from_str("unresolvable reference"),
            ApiError::FetchFailed => String::from_str("remote fetch failed"),
            ApiError::UntrustedSource => String::from_str("remote object failed verification"),
            ApiError::DeliveryFailed => String::from_str("delivery failed"),
            ApiError::Unauthorized => String::from_str("not allowed"),
        }
    }
}

} // verus!
