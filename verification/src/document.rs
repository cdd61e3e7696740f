//! The document: the one JSON value that holds tasks, projects and settings.
//!
//! The stores never look inside it. Unlike the configuration, a document
//! that cannot be read or is not JSON is an error that the caller sees.

use crate::error::{Fault, StoreError};
use crate::json::{describe, error_text, json_parsed, json_pretty, parse, pretty};
use crate::texts::{owned_text_of, read_view};
use serde_json::Value;
use vstd::prelude::*;

verus! {

/// The persisted state of the application: an opaque JSON value.
#[derive(Debug, PartialEq)]
pub struct Document {
    pub value: Value,
}

/// The outcome of producing a document: the JSON value, or the error by its
/// view.
pub open spec fn document_outcome(outcome: Result<Document, StoreError>) -> Result<Value, Fault> {
    match outcome {
        Ok(document) => Ok(document.value),
        Err(e) => Err(e@),
    }
}

/// The text of the first document: no tasks, no projects, no settings.
pub open spec fn skeleton() -> Seq<char> {
    "{\n  \"projects\": [],\n  \"settings\": {},\n  \"tasks\": []\n}"@
}

/// What is written at start-up: the skeleton where there is no data file,
/// nothing where there is one.
pub open spec fn initial_write(exists: bool) -> Option<Seq<char>> {
    if exists {
        None
    } else {
        Some(skeleton())
    }
}

/// A file's content after an optional full overwrite; `None` is a file that
/// does not exist.
pub open spec fn file_after(before: Option<Seq<char>>, written: Option<Seq<char>>) -> Option<
    Seq<char>,
> {
    match written {
        Some(text) => Some(text),
        None => before,
    }
}

/// The data file after start-up.
pub open spec fn initialized(file: Option<Seq<char>>) -> Option<Seq<char>> {
    file_after(file, initial_write(file is Some))
}

/// The document that a read of the data file yields: the host's failure is a
/// `Read` fault, a content that is not JSON a `Parse` fault with the parser's
/// message.
pub open spec fn loaded(read: Result<Seq<char>, Seq<char>>) -> Result<Value, Fault> {
    match read {
        Err(message) => Err(Fault::Read(message)),
        Ok(text) => match json_parsed(text) {
            Ok(value) => Ok(value),
            Err(e) => Err(Fault::Parse(error_text(e))),
        },
    }
}

/// The text that is stored for a document: its indented JSON.
pub open spec fn saved(value: Value) -> Seq<char> {
    json_pretty(value)
}

impl Document {
    /// Reads a document from JSON text.
    pub fn parse(text: &str) -> (document: Result<Document, StoreError>)
        ensures
            document_outcome(document) == loaded(Ok(text@)),
    {
        match parse(text) {
            Ok(value) => Ok(Document { value }),
            Err(e) => Err(StoreError::Parse(describe(&e))),
        }
    }

    /// The indented JSON text of the document.
    pub fn render(&self) -> (text: String)
        ensures
            text@ == saved(self.value),
    {
        match pretty(&self.value) {
            Ok(text) => text,
            Err(_) => unreached(),
        }
    }
}

/// The content of a fresh data file.
pub fn skeleton_text() -> (text: String)
    ensures
        text@ == skeleton(),
{
    "{\n  \"projects\": [],\n  \"settings\": {},\n  \"tasks\": []\n}".to_owned()
}

/// Decides what start-up writes to the data file, given whether the file
/// exists: the skeleton where it does not, and nothing where it does,
/// whatever the file holds.
pub fn ensure_initialized(exists: bool) -> (write: Option<String>)
    ensures
        owned_text_of(write) == initial_write(exists),
{
    if exists {
        None
    } else {
        Some(skeleton_text())
    }
}

/// Loads the document from what the host read at the data file's path:
/// the content, or the host's message where the read failed.
pub fn load(read: Result<String, String>) -> (document: Result<Document, StoreError>)
    ensures
        document_outcome(document) == loaded(read_view(read)),
{
    match read {
        Ok(text) => Document::parse(text.as_str()),
        Err(message) => Err(StoreError::Read(message)),
    }
}

/// The content with which the data file is overwritten to save `document`.
pub fn save(document: &Document) -> (text: String)
    ensures
        text@ == saved(document.value),
{
    document.render()
}

/// Start-up is idempotent, and leaves an existing file as it is, whatever it
/// holds: the data file after two start-ups is the file after one, a file
/// that existed keeps its content, and a missing one holds the skeleton.
pub proof fn lemma_initialization_idempotent(file: Option<Seq<char>>)
    ensures
        initialized(initialized(file)) == initialized(file),
        file is Some ==> initialized(file) == file,
        file is None ==> initialized(file) == Some(skeleton()),
{
}

} // verus!
