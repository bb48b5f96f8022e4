use vstd::prelude::*;
use vstd::string::StringExecFns;

verus! {

/// Every failure that the snip workflow reports to its caller.
#[derive(Debug, PartialEq, Eq)]
pub enum SnipError {
    /// The primary display could not be found or read.
    Capture(String),
    /// The image could not be written as PNG, for the reason given.
    Encode(String),
    /// A query or finish arrived while no snip was in progress.
    NoActiveSnip,
    /// The selection has a non-positive width or height, or the viewport is empty.
    InvalidSelection,
    /// The selection covers no whole pixel once mapped and clamped to the capture.
    SelectionTooSmall,
    /// A window operation that the workflow depends on failed.
    WindowOp(String),
}

/// The human-readable text carried by each error.
pub open spec fn message_of(e: SnipError) -> Seq<char> {
    match e {
        SnipError::Capture(m) => "capture failed: "@ + m@,
        SnipError::Encode(m) => "image encoding failed: "@ + m@,
        SnipError::NoActiveSnip => "No snip state"@,
        SnipError::InvalidSelection => "Invalid selection"@,
        SnipError::SelectionTooSmall => "Selection too small"@,
        SnipError::WindowOp(m) => m@,
    }
}

impl SnipError {
    /// The message handed back to the user interface.
    pub fn message(&self) -> (r: String)
        ensures
            r@ == message_of(*self),
    {
        match self {
            SnipError::Capture(m) => {
                let mut s = String::from_str("capture failed: ");
                s.append(m.as_str());
                s
            },
            SnipError::Encode(m) => {
                let mut s = String::from_str("image encoding failed: ");
                s.append(m.as_str());
                s
            },
            SnipError::NoActiveSnip => String::from_str("No snip state"),
            SnipError::InvalidSelection => String::from_str("Invalid selection"),
            SnipError::SelectionTooSmall => String::from_str("Selection too small"),
            SnipError::WindowOp(m) => m.clone(),
        }
    }
}

} // verus!
