//! The error taxonomy: every failure of the conversion core collapses to an
//! `AppError`, a kind plus a displayable message.

use vstd::prelude::*;
use vstd::string::StringExecFns;

verus! {

/// The abstract kind of a failure.
#[derive(Clone, Copy, Debug, PartialEq, Eq, Structural)]
pub enum ErrorKind {
    /// Malformed or empty input, rejected before any network call.
    Validation,
    /// Connection or transport failure reaching an external service.
    UpstreamTransport,
    /// An external service responded with a non-success status.
    UpstreamStatus,
    /// A response body was unreadable or undecodable as the expected schema.
    UpstreamFormat,
    /// A country lookup returned no usable record: zero matches, more than
    /// one match, or a single match without a currency.
    ResolutionAmbiguity,
}

/// A normalized failure: one kind of the taxonomy and a message for the
/// HTTP boundary. No failure is recovered inside the core; every one
/// surfaces unchanged as a value of this type.
#[derive(Clone, Debug, PartialEq)]
pub struct AppError {
    pub kind: ErrorKind,
    pub details: String,
}

impl AppError {
    /// Builds an error of the given kind carrying `msg` verbatim.
    pub fn new(kind: ErrorKind, msg: &str) -> (e: AppError)
        ensures
            e.kind == kind,
            e.details@ == msg@,
    {
        AppError { kind, details: msg.to_owned() }
    }

    /// The message as the boundary sends it: the fixed prefix followed by
    /// the details, exactly.
    pub fn boundary_message(&self) -> (m: String)
        ensures
            m@ == "Something went wrong: "@ + self.details@,
    {
        let mut m = "Something went wrong: ".to_owned();
        m.append(self.details.as_str());
        m
    }
}

} // verus!
