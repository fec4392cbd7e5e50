//! The failures that an operation can report to a script.

use vstd::prelude::*;

verus! {

/// A typed failure of a filesystem operation.
#[derive(Debug, Clone, PartialEq, Eq)]
pub enum FsError {
    /// The operating system failed the call; carries its message unchanged.
    IoFailure(String),
    /// Bytes that were read are not valid UTF-8; carries the decoder's message.
    EncodingFailure(String),
    /// A byte count or offset does not fit the script engine's integer.
    NumericOverflow,
}

impl FsError {
    /// The human-readable text of this failure.
    pub open spec fn message_spec(self) -> Seq<char> {
        match self {
            FsError::IoFailure(text) => text@,
            FsError::EncodingFailure(text) => text@,
            FsError::NumericOverflow => "number out of range of the script integer type"@,
        }
    }

    /// Returns the text to show to the script: the carried message, or a fixed
    /// sentence for an overflow.
    pub fn message(&self) -> (text: String)
        ensures
            text@ == self.message_spec(),
    {
        match self {
            FsError::IoFailure(text) => text.clone(),
            FsError::EncodingFailure(text) => text.clone(),
            FsError::NumericOverflow => "number out of range of the script integer type".to_owned(),
        }
    }
}

} // verus!
