//! The persistence port: an abstract contract for saving, loading and
//! checking existence of a resume document, together with the ephemeral
//! in-memory adapter.
//!
//! Every adapter is modelled by two spec functions.  `present` says whether
//! any snapshot is stored under the adapter's slot, decodable or not, and is
//! what the non-failing presence check reports.  `snapshot` is the view of
//! the document the stored snapshot decodes to, or `None` when nothing is
//! stored or the stored snapshot no longer decodes as a document.

use vstd::prelude::*;

use crate::errors::StorageError;
use crate::models::{Resume, ResumeView};

verus! {

/// The persistence port.  The document service talks to storage only through
/// this trait; concrete adapters are chosen once at session start.
pub trait ResumeRepository: Sized {
    /// Whether any snapshot is stored, decodable or not.
    spec fn present(&self) -> bool;

    /// The stored document: the view the stored snapshot decodes to, or
    /// `None` when nothing is stored or the stored snapshot does not decode.
    spec fn snapshot(&self) -> Option<ResumeView>;

    /// A stored document is in particular a stored snapshot.
    proof fn snapshot_implies_present(&self)
        ensures
            self.snapshot() is Some ==> self.present(),
    ;

    /// Persists a full snapshot of `resume`, overwriting any prior snapshot.
    /// On failure the stored snapshot is unchanged.
    fn save(&mut self, resume: &Resume) -> (r: Result<(), StorageError>)
        ensures
            r is Ok ==> final(self).snapshot() == Some(resume@) && final(self).present(),
            r is Err ==> final(self).snapshot() == old(self).snapshot() && final(self).present()
                == old(self).present(),
    ;

    /// Returns the last saved snapshot.  Absence fails with `NotFound` and
    /// nothing else does; a stored snapshot that does not decode fails with
    /// `SerializationFailure`.
    fn load(&self) -> (r: Result<Resume, StorageError>)
        ensures
            r matches Ok(d) ==> self.snapshot() == Some(d@),
            !self.present() ==> r == Err::<Resume, StorageError>(StorageError::NotFound),
            r == Err::<Resume, StorageError>(StorageError::NotFound) ==> !self.present(),
            self.present() && self.snapshot() is None ==> r == Err::<Resume, StorageError>(
                StorageError::SerializationFailure,
            ),
    ;

    /// Non-failing presence check: whether a snapshot is stored.
    fn has_snapshot(&self) -> (r: bool)
        ensures
            r == self.present(),
    ;
}

/// The ephemeral adapter: holds the snapshot in memory, with a lifetime bound
/// to the running session.
pub struct InMemoryResumeRepository {
    stored: Option<Resume>,
}

impl InMemoryResumeRepository {
    /// Creates an empty store: no snapshot exists yet.
    pub fn new() -> (r: Self)
        ensures
            !r.present(),
            r.snapshot() is None,
    {
        InMemoryResumeRepository { stored: None }
    }
}

impl ResumeRepository for InMemoryResumeRepository {
    /// In memory a snapshot is stored exactly when a document is.
    closed spec fn present(&self) -> bool {
        self.stored is Some
    }

    closed spec fn snapshot(&self) -> Option<ResumeView> {
        match self.stored {
            Some(d) => Some(d@),
            None => None,
        }
    }

    proof fn snapshot_implies_present(&self) {
    }

    /// Saving in memory always succeeds.
    fn save(&mut self, resume: &Resume) -> (r: Result<(), StorageError>)
        ensures
            r is Ok,
    {
        self.stored = Some(resume.clone());
        Ok(())
    }

    /// Loads the stored document, or fails with `NotFound` when none exists.
    fn load(&self) -> (r: Result<Resume, StorageError>)
        ensures
            self.snapshot() matches Some(s) ==> (r matches Ok(d) && d@ == s),
            self.snapshot() is None ==> r == Err::<Resume, StorageError>(StorageError::NotFound),
    {
        match &self.stored {
            Some(d) => Ok(d.clone()),
            None => Err(StorageError::NotFound),
        }
    }

    fn has_snapshot(&self) -> (r: bool) {
        self.stored.is_some()
    }
}

} // verus!
