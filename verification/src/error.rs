//! What can end the writing of a document.

use vstd::prelude::*;
use vstd::string::StringExecFns;

verus! {

/// The failures that end the writing of a document. A cell that a sheet does
/// not take is none of them: it is left out and the writing goes on.
#[derive(Debug, Clone, PartialEq)]
pub enum WriteError {
    /// A sheet name is not valid. Holds the name.
    Validation(String),
    /// A sheet refused its freeze-pane coordinates. Holds the words of the
    /// sheet.
    FreezePane(String),
    /// The document could not be put together. Holds the words of the
    /// workbook.
    Io(String),
}

/// The text of an error: what happened, then the name or the words it holds.
pub open spec fn message_text(error: WriteError) -> Seq<char> {
    match error {
        WriteError::Validation(name) => "Invalid sheet name '"@ + name@
            + "'. Sheet names must be <= 31 chars and cannot contain [ ] : * ? / \\"@,
        WriteError::FreezePane(words) => "Failed to set freeze panes: "@ + words@,
        WriteError::Io(words) => "Failed to save workbook: "@ + words@,
    }
}

impl WriteError {
    /// The error as a text for a reader.
    pub fn message(&self) -> (text: String)
        ensures
            text@ == message_text(*self),
    {
        match self {
            WriteError::Validation(name) => {
                let mut text = String::from_str("Invalid sheet name '");
                text.append(name.as_str());
                text.append("'. Sheet names must be <= 31 chars and cannot contain [ ] : * ? / \\");
                text
            },
            WriteError::FreezePane(words) => {
                let mut text = String::from_str("Failed to set freeze panes: ");
                text.append(words.as_str());
                text
            },
            WriteError::Io(words) => {
                let mut text = String::from_str("Failed to save workbook: ");
                text.append(words.as_str());
                text
            },
        }
    }
}

} // verus!
