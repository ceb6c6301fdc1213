use vstd::prelude::*;

verus! {

/// The kind of status message the reporting layer renders. The library only
/// fixes each kind's title text; colors and printing are presentation.
#[derive(Debug, Clone, Copy, PartialEq, Eq, Structural)]
pub enum MessageType {
    Warning,
    Error,
    Note,
}

impl MessageType {
    /// The title printed in front of a message of this kind.
    pub fn get_title(self) -> (r: String)
        ensures
            self is Warning ==> r@ == "Warning"@,
            self is Error ==> r@ == "Error"@,
            self is Note ==> r@ == "Note"@,
    {
        match self {
            MessageType::Warning => String::from_str("Warning"),
            MessageType::Error => String::from_str("Error"),
            MessageType::Note => String::from_str("Note"),
        }
    }
}

} // verus!
