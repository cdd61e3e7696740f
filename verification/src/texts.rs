//! Views of the plain values that the host hands to the stores.

use vstd::prelude::*;

verus! {

/// The view of a text that may be missing.
pub open spec fn text_of(content: Option<&str>) -> Option<Seq<char>> {
    match content {
        Some(text) => Some(text@),
        None => None,
    }
}

/// The view of an owned text that may be missing.
pub open spec fn owned_text_of(content: Option<String>) -> Option<Seq<char>> {
    match content {
        Some(text) => Some(text@),
        None => None,
    }
}

/// What the host's attempt to read a file gave, by its view: the content, or
/// the host's message.
pub open spec fn read_view(read: Result<String, String>) -> Result<Seq<char>, Seq<char>> {
    match read {
        Ok(text) => Ok(text@),
        Err(message) => Err(message@),
    }
}

} // verus!
