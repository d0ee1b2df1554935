//! The closed error taxonomy shared by every storage backend.

use vstd::prelude::*;

verus! {

/// Everything a store operation can fail with.
///
/// `NotFound` reports a category without a backing namespace (a missing key
/// is reported by an absent value, not by an error). `InvalidData` reports a
/// structural precondition broken by the caller, such as a batch whose key
/// and value counts differ. `Internal` wraps a failure of the underlying
/// engine or of the filesystem, with a human-readable detail.
#[derive(Debug, Clone, PartialEq, Eq)]
pub enum DatabaseError {
    /// The requested category has no backing namespace.
    NotFound,
    /// A structural precondition on the input was broken.
    InvalidData,
    /// The underlying engine or the filesystem failed; the detail is kept
    /// for diagnostics only.
    Internal(String),
}

impl DatabaseError {
    /// A human-readable rendering of the error.
    pub fn message(&self) -> (r: String)
        ensures
            self is NotFound ==> r@ == "not found"@,
            self is InvalidData ==> r@ == "invalid data"@,
            self matches DatabaseError::Internal(detail) ==> r@ == "internal error: "@ + detail@,
    {
        match self {
            DatabaseError::NotFound => "not found".to_owned(),
            DatabaseError::InvalidData => "invalid data".to_owned(),
            DatabaseError::Internal(detail) => {
                let mut r = "internal error: ".to_owned();
                r.append(detail.as_str());
                r
            },
        }
    }
}

} // verus!
