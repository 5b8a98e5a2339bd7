//! Errors of the clipboard commands.
use vstd::prelude::*;

use crate::text::push_str;

verus! {

/// Why a clipboard command failed.
#[derive(Debug, Clone, PartialEq, Eq)]
pub enum ClipboardError {
    /// The clipboard history library (storage) failed.
    Library { message: String },
    /// The OS clipboard could not be opened, read or written.
    Access { message: String },
    /// Pasting into the target application failed.
    PasteFailed { reason: String },
    /// A requested item does not exist.
    NotFound { what: String },
    /// Synthetic paste needs the Accessibility permission, which is not held.
    AccessibilityRequired,
}

/// The human-readable message of an error.
pub open spec fn spec_clipboard_message(e: ClipboardError) -> Seq<char> {
    match e {
        ClipboardError::Library { message } => "library error: "@ + message@,
        ClipboardError::Access { message } => "clipboard access failed: "@ + message@,
        ClipboardError::PasteFailed { reason } => "paste failed: "@ + reason@,
        ClipboardError::NotFound { what } => "not found: "@ + what@,
        ClipboardError::AccessibilityRequired => "accessibility permission required"@,
    }
}

impl ClipboardError {
    /// The human-readable message of this error.
    pub fn message(&self) -> (r: String)
        ensures
            r@ == spec_clipboard_message(*self),
    {
        let mut s = String::new();
        match self {
            ClipboardError::Library { message } => {
                push_str(&mut s, "library error: ");
                push_str(&mut s, message.as_str());
            },
            ClipboardError::Access { message } => {
                push_str(&mut s, "clipboard access failed: ");
                push_str(&mut s, message.as_str());
            },
            ClipboardError::PasteFailed { reason } => {
                push_str(&mut s, "paste failed: ");
                push_str(&mut s, reason.as_str());
            },
            ClipboardError::NotFound { what } => {
                push_str(&mut s, "not found: ");
                push_str(&mut s, what.as_str());
            },
            ClipboardError::AccessibilityRequired => push_str(
                &mut s,
                "accessibility permission required",
            ),
        }
        s
    }
}

} // verus!
