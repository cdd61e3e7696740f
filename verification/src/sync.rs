//! Synchronisation: a one-way push of the local document to the snapshot in
//! the sync directory. Nothing is merged; a snapshot that exists is read only
//! to see that it is JSON, and is then overwritten.

use crate::document::{file_after, load, loaded, saved, Document};
use crate::error::{Fault, StoreError};
use crate::texts::read_view;
use serde_json::Value;
use vstd::prelude::*;

verus! {

/// What a sync hands back: the local document, and the text with which the
/// snapshot is overwritten.
#[derive(Debug, PartialEq)]
pub struct SyncResult {
    /// The local document, as it was pushed.
    pub document: Document,
    /// The new content of the snapshot file.
    pub snapshot: String,
}

/// A `SyncResult` by its views.
pub struct SyncResultView {
    pub document: Value,
    pub snapshot: Seq<char>,
}

impl View for SyncResult {
    type V = SyncResultView;

    open spec fn view(&self) -> SyncResultView {
        SyncResultView { document: self.document.value, snapshot: self.snapshot@ }
    }
}

/// The outcome of a sync, with result and error by their views.
pub open spec fn sync_outcome(outcome: Result<SyncResult, StoreError>) -> Result<
    SyncResultView,
    Fault,
> {
    match outcome {
        Ok(result) => Ok(result@),
        Err(e) => Err(e@),
    }
}

/// What the host found at the snapshot's path, by its view: `None` where no
/// file exists, else the outcome of reading it.
pub open spec fn snapshot_view(snapshot: Option<Result<String, String>>) -> Option<
    Result<Seq<char>, Seq<char>>,
> {
    match snapshot {
        Some(read) => Some(read_view(read)),
        None => None,
    }
}

/// The fault in an existing snapshot, if any: it could not be read, or is
/// not JSON. A missing snapshot has none.
pub open spec fn snapshot_fault(snapshot: Option<Result<Seq<char>, Seq<char>>>) -> Option<Fault> {
    match snapshot {
        None => None,
        Some(read) => match loaded(read) {
            Ok(_) => None,
            Err(fault) => Some(fault),
        },
    }
}

/// The push: the local document is loaded, an existing snapshot is checked,
/// and the snapshot's new content is the local document's text. The first
/// fault on the way is the outcome; without one the push succeeds.
pub open spec fn synced(
    local: Result<Seq<char>, Seq<char>>,
    snapshot: Option<Result<Seq<char>, Seq<char>>>,
) -> Result<SyncResultView, Fault> {
    match loaded(local) {
        Err(fault) => Err(fault),
        Ok(document) => match snapshot_fault(snapshot) {
            Some(fault) => Err(fault),
            None => Ok(SyncResultView { document, snapshot: saved(document) }),
        },
    }
}

/// Pushes the local document to the snapshot. `local` is what the host read
/// at the data file's path; `snapshot` is `None` where no snapshot exists,
/// else what the host read at the snapshot's path. On success the caller
/// overwrites the snapshot with the returned text.
pub fn sync(local: Result<String, String>, snapshot: Option<Result<String, String>>) -> (outcome:
    Result<SyncResult, StoreError>)
    ensures
        sync_outcome(outcome) == synced(read_view(local), snapshot_view(snapshot)),
{
    let document = match load(local) {
        Ok(document) => document,
        Err(e) => {
            return Err(e);
        },
    };
    match snapshot {
        Some(read) => match load(read) {
            Ok(_) => {},
            Err(e) => {
                return Err(e);
            },
        },
        None => {},
    }
    let text = document.render();
    Ok(SyncResult { document, snapshot: text })
}

/// A push overwrites. With a snapshot that is missing or is JSON, it
/// succeeds exactly when the local document loads; the document handed back
/// is then the local one and the snapshot's new content is its text,
/// whatever the snapshot held before.
pub proof fn lemma_sync_overwrites(
    local: Result<Seq<char>, Seq<char>>,
    before: Option<Result<Seq<char>, Seq<char>>>,
    other: Option<Result<Seq<char>, Seq<char>>>,
)
    requires
        snapshot_fault(before) is None,
        snapshot_fault(other) is None,
    ensures
        synced(local, before) == synced(local, other),
        synced(local, before) is Ok <==> loaded(local) is Ok,
        synced(local, before) matches Ok(result) ==> loaded(local) == Ok::<Value, Fault>(
            result.document,
        ) && result.snapshot == saved(result.document),
        synced(local, before) matches Ok(result) ==> file_after(
            match before {
                Some(Ok(text)) => Some(text),
                _ => None,
            },
            Some(result.snapshot),
        ) == Some(saved(result.document)),
{
}

} // verus!
