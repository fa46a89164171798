//! The durable persistence adapter: stores a document as snapshot text in a
//! key-value-style store, serialized in the crate's field-named text format.
//!
//! The adapter's `snapshot` is whatever document the stored text decodes to,
//! and because the parser provably inverts the renderer, a successful save
//! always leaves a snapshot equal to the saved document.

use vstd::prelude::*;
use vstd::string::StringExecFns;

use crate::codec::{parse_document, render_document};
use crate::errors::StorageError;
use crate::format::{lemma_document_round_trip, spec_parse_document};
use crate::models::{Resume, ResumeView};
use crate::repository::ResumeRepository;

verus! {

/// The storage medium behind the durable adapter: one slot of snapshot text,
/// addressed by a fixed key that the concrete store chooses.
pub trait SnapshotStore: Sized {
    /// The text currently stored, if any.
    spec fn text(&self) -> Option<Seq<char>>;

    /// Stores `text`, overwriting any prior text.  On failure the stored
    /// text is unchanged.
    fn write_text(&mut self, text: &str) -> (r: Result<(), StorageError>)
        ensures
            r is Ok ==> final(self).text() == Some(text@),
            r is Err ==> final(self).text() == old(self).text(),
    ;

    /// Returns a copy of the stored text, or `None` when none is stored.
    fn read_text(&self) -> (r: Option<String>)
        ensures
            r matches Some(t) ==> self.text() == Some(t@),
            r is None ==> self.text() is None,
    ;
}

/// An in-memory snapshot store: a single text slot held in this process.
pub struct InMemorySnapshotStore {
    contents: Option<String>,
}

impl InMemorySnapshotStore {
    /// Creates an empty store.
    pub fn new() -> (r: Self)
        ensures
            r.text() is None,
    {
        InMemorySnapshotStore { contents: None }
    }
}

impl SnapshotStore for InMemorySnapshotStore {
    closed spec fn text(&self) -> Option<Seq<char>> {
        match self.contents {
            Some(t) => Some(t@),
            None => None,
        }
    }

    /// Writing in memory always succeeds.
    fn write_text(&mut self, text: &str) -> (r: Result<(), StorageError>)
        ensures
            r is Ok,
    {
        self.contents = Some(text.to_owned());
        Ok(())
    }

    fn read_text(&self) -> (r: Option<String>) {
        match &self.contents {
            Some(t) => Some(t.clone()),
            None => None,
        }
    }
}

/// The durable adapter over a chosen snapshot store.
pub struct DurableResumeRepository<S: SnapshotStore> {
    pub store: S,
}

impl<S: SnapshotStore> DurableResumeRepository<S> {
    /// Wraps the given store.
    pub fn new(store: S) -> (r: Self)
        ensures
            r.store == store,
    {
        DurableResumeRepository { store }
    }
}

impl<S: SnapshotStore> ResumeRepository for DurableResumeRepository<S> {
    /// A snapshot is present exactly when the store holds text, whether or
    /// not that text decodes as a document.
    open spec fn present(&self) -> bool {
        self.store.text() is Some
    }

    open spec fn snapshot(&self) -> Option<ResumeView> {
        match self.store.text() {
            None => None,
            Some(t) => spec_parse_document(t),
        }
    }

    proof fn snapshot_implies_present(&self) {
    }

    /// Renders the document and writes the text; by the round-trip law the
    /// stored snapshot then equals the saved document.
    fn save(&mut self, resume: &Resume) -> (r: Result<(), StorageError>) {
        let text = render_document(resume);
        proof {
            lemma_document_round_trip(resume@);
        }
        match self.store.write_text(text.as_str()) {
            Ok(()) => Ok(()),
            Err(e) => Err(e),
        }
    }

    /// Reads and decodes the stored text: absence fails with `NotFound`,
    /// undecodable text with `SerializationFailure`.
    fn load(&self) -> (r: Result<Resume, StorageError>)
        ensures
            self.snapshot() matches Some(v) ==> (r matches Ok(d) && d@ == v),
    {
        match self.store.read_text() {
            None => Err(StorageError::NotFound),
            Some(t) => match parse_document(t.as_str()) {
                Some(d) => Ok(d),
                None => Err(StorageError::SerializationFailure),
            },
        }
    }

    /// A pure presence check on the store's slot; it does not decode.
    fn has_snapshot(&self) -> (r: bool) {
        self.store.read_text().is_some()
    }
}

} // verus!
