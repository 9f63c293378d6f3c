//! The failures that handling one event or one session step can end in.

use vstd::prelude::*;

verus! {

/// Why an event could not be turned into a typed record, or why a session
/// step could not be taken.
#[derive(Debug, Clone, Copy, PartialEq, Eq)]
pub enum LiveError {
    /// A required field is absent or has the wrong shape; the name says which.
    MissingField(&'static str),
    /// The embedded binary sub-message could not be decoded.
    DecodeFailure,
    /// The payload of a known event breaks a rule other than a field's
    /// presence; the text says which.
    ClassificationFailure(&'static str),
    /// The lock around the connection could not be taken.
    LockFailure,
}

} // verus!
