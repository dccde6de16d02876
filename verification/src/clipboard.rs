//! What to tell the user when the clipboard cannot be used.
use vstd::prelude::*;

verus! {

/// The step at which putting a password into the clipboard failed.
#[derive(Clone, Copy, Debug, PartialEq, Eq, Structural)]
pub enum ClipboardFailure {
    /// The clipboard could not be opened.
    Initialise,
    /// The clipboard did not take the password.
    Copy,
}

impl ClipboardFailure {
    /// The text of the message for this failure.
    pub open spec fn text(self) -> Seq<char> {
        match self {
            ClipboardFailure::Initialise => "Could not initialise clipboard. "@
                + "Try running using the -d flag and manually copying."@,
            ClipboardFailure::Copy => "Could not copy password to clipboard. "@
                + "Try running with the -d flag and manually copying."@,
        }
    }

    /// The message that reports this failure.
    pub fn message(self) -> (message: String)
        ensures
            message@ == self.text(),
    {
        match self {
            ClipboardFailure::Initialise => "Could not initialise clipboard. ".to_owned().concat(
                "Try running using the -d flag and manually copying.",
            ),
            ClipboardFailure::Copy => "Could not copy password to clipboard. ".to_owned().concat(
                "Try running with the -d flag and manually copying.",
            ),
        }
    }
}

} // verus!
