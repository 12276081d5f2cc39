//! Errors of the domain layer.

use vstd::prelude::*;

verus! {

/// Why a piece of user input was rejected as a media URL.
#[derive(Debug, Clone, PartialEq, Eq)]
pub enum DomainError {
    /// The input is not an absolute URL with a host; carries the reason.
    InvalidUrl(String),
    /// The URL uses a scheme other than http or https; carries the scheme.
    UnsupportedScheme(String),
}

/// The text shown for a domain error.
pub open spec fn domain_error_text(e: DomainError) -> Seq<char> {
    match e {
        DomainError::InvalidUrl(s) => "invalid URL: "@ + s@,
        DomainError::UnsupportedScheme(s) => "unsupported URL scheme: "@ + s@,
    }
}

impl DomainError {
    /// Human-readable description of the error.
    pub fn message(&self) -> (s: String)
        ensures
            s@ == domain_error_text(*self),
    {
        match self {
            DomainError::InvalidUrl(detail) => {
                let mut s = String::from_str("invalid URL: ");
                s.append(detail.as_str());
                s
            },
            DomainError::UnsupportedScheme(scheme) => {
                let mut s = String::from_str("unsupported URL scheme: ");
                s.append(scheme.as_str());
                s
            },
        }
    }
}

} // verus!
