//! Failures that an operation of this layer can report.
use vstd::prelude::*;

verus! {

/// Which identity an operation needed and did not find.
#[derive(Clone, Copy, Debug, PartialEq, Eq)]
pub enum Missing {
    /// The entity to delete was never stored.
    Identifier,
    /// The entity an edge starts from was never stored.
    Source,
    /// The entity an edge points to was never stored.
    Target,
}

/// Why an operation failed.
#[derive(Clone, Debug, PartialEq, Eq)]
pub enum SormError {
    /// The storage service failed; the text is its account of the cause.
    Storage(String),
    /// The operation needs an identity that is absent. Detected locally,
    /// before anything is sent to the storage service.
    PreconditionFailed(Missing),
}

/// The wording of a missing-identity failure.
pub open spec fn missing_text(m: Missing) -> Seq<char> {
    match m {
        Missing::Identifier => "missing identifier"@,
        Missing::Source => "source identifier missing"@,
        Missing::Target => "target identifier missing"@,
    }
}

impl SormError {
    /// A human-readable account of the failure.
    pub fn cause(&self) -> (r: String)
        ensures
            r@ == match *self {
                SormError::Storage(s) => s@,
                SormError::PreconditionFailed(m) => missing_text(m),
            },
    {
        match self {
            SormError::Storage(s) => s.clone(),
            SormError::PreconditionFailed(m) => match m {
                Missing::Identifier => String::from_str("missing identifier"),
                Missing::Source => String::from_str("source identifier missing"),
                Missing::Target => String::from_str("target identifier missing"),
            },
        }
    }
}

} // verus!
