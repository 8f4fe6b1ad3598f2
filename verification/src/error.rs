//! The error of the library.

use vstd::prelude::*;

verus! {

/// Why a distance computation was refused.
#[derive(Debug, Clone, Copy, PartialEq, Eq, Structural)]
pub enum SpdistError {
    /// The coordinate vectors do not have the lengths that belong together.
    VectorSizeMismatch,
}

impl SpdistError {
    /// The text of the error, as a sequence of characters.
    pub open spec fn message_text(self) -> Seq<char> {
        match self {
            SpdistError::VectorSizeMismatch => "Vector size VectorSizeMismatch"@,
        }
    }

    /// The text to show for this error.
    pub fn message(&self) -> (text: String)
        ensures
            text@ == self.message_text(),
    {
        match self {
            SpdistError::VectorSizeMismatch => "Vector size VectorSizeMismatch".to_owned(),
        }
    }
}

} // verus!
