//! The failures that the stores report.

use vstd::prelude::*;

verus! {

/// Why an operation on the stored files failed.
#[derive(Debug, Clone, PartialEq, Eq)]
pub enum StoreError {
    /// The user's home directory cannot be determined, so no path can be
    /// resolved.
    HomeUnknown,
    /// The host could not read a file; the text is the host's own message.
    Read(String),
    /// A file's content is not valid JSON; the text is the parser's message.
    Parse(String),
}

/// A `StoreError` with its message as a sequence of characters.
pub enum Fault {
    HomeUnknown,
    Read(Seq<char>),
    Parse(Seq<char>),
}

impl Fault {
    /// The descriptive text of the fault.
    pub open spec fn text(self) -> Seq<char> {
        match self {
            Fault::HomeUnknown => "the home directory cannot be determined"@,
            Fault::Read(text) => text,
            Fault::Parse(text) => text,
        }
    }
}

impl View for StoreError {
    type V = Fault;

    open spec fn view(&self) -> Fault {
        match self {
            StoreError::HomeUnknown => Fault::HomeUnknown,
            StoreError::Read(text) => Fault::Read(text@),
            StoreError::Parse(text) => Fault::Parse(text@),
        }
    }
}

/// The outcome of producing a text, with text and error by their views.
pub open spec fn text_outcome(outcome: Result<String, StoreError>) -> Result<Seq<char>, Fault> {
    match outcome {
        Ok(text) => Ok(text@),
        Err(e) => Err(e@),
    }
}

impl StoreError {
    /// The descriptive text of the failure, as it is shown to the user.
    pub fn message(&self) -> (text: String)
        ensures
            text@ == self@.text(),
    {
        match self {
            StoreError::HomeUnknown => "the home directory cannot be determined".to_owned(),
            StoreError::Read(text) => text.clone(),
            StoreError::Parse(text) => text.clone(),
        }
    }
}

} // verus!
