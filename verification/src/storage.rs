//! The storage port: the capability the middleware consumes to persist,
//! retrieve and remove session records, keyed by identifier.
//!
//! An implementation is modelled by two ghost projections: `contents`, the
//! live records (at most one per identifier; a record expired away is simply
//! absent), and `ops`, the trace of calls the middleware made against it.
//! Every error is surfaced to the caller as a request-level failure; the
//! middleware never retries.

use vstd::prelude::*;

use crate::session::Entries;

verus! {

/// A failure reported by the storage backend.
#[derive(Clone, Copy, Debug, PartialEq, Eq, Structural)]
pub struct StorageError;

/// One call made against the storage port, as recorded in its trace.
pub enum StorageOp {
    /// A lookup of the record for `id`.
    Load { id: Seq<char> },
    /// An upsert of the record for `id` with the full entry mapping and the
    /// TTL hint.
    Update { id: Seq<char>, entries: Map<Seq<char>, serde_json::Value>, ttl_seconds: u64 },
    /// An idempotent delete of the record for `id`.
    Remove { id: Seq<char> },
}

/// The asynchronous, fallible storage capability, expressed as a trait so
/// backends (memory, distributed cache, ...) are swappable without touching
/// the middleware.
pub trait SessionStorage: Sized {
    /// The backend's internal well-formedness.
    spec fn inv(self) -> bool;

    /// The live records: identifier to stored entry mapping.
    spec fn contents(self) -> Map<Seq<char>, Map<Seq<char>, serde_json::Value>>;

    /// The trace of calls made so far.
    spec fn ops(self) -> Seq<StorageOp>;

    /// Load the record for an identifier; `Ok(None)` on a miss (unknown or
    /// expired identifier), never an error for a miss. Does not change the
    /// records.
    fn load_session(&mut self, session_id: &String) -> (r: Result<Option<Entries>, StorageError>)
        requires
            old(self).inv(),
        ensures
            final(self).inv(),
            final(self).contents() == old(self).contents(),
            final(self).ops() == old(self).ops().push(StorageOp::Load { id: session_id@ }),
            match r {
                Ok(Some(entries)) => entries.wf() && old(self).contents().contains_key(session_id@)
                    && entries@ == old(self).contents()[session_id@],
                Ok(None) => !old(self).contents().contains_key(session_id@),
                Err(_) => true,
            },
    ;

    /// Upsert the record for an identifier, resetting its TTL. A failed
    /// upsert leaves the records as they were.
    fn update_session(&mut self, session_id: &String, entries: &Entries, ttl_seconds: u64) -> (r:
        Result<(), StorageError>)
        requires
            old(self).inv(),
            entries.wf(),
        ensures
            final(self).inv(),
            final(self).ops() == old(self).ops().push(
                StorageOp::Update { id: session_id@, entries: entries@, ttl_seconds },
            ),
            match r {
                Ok(_) => final(self).contents() == old(self).contents().insert(
                    session_id@,
                    entries@,
                ),
                Err(_) => final(self).contents() == old(self).contents(),
            },
    ;

    /// Delete the record for an identifier; removing an absent identifier is
    /// not an error. A failed delete leaves the records as they were.
    fn remove_session(&mut self, session_id: &String) -> (r: Result<(), StorageError>)
        requires
            old(self).inv(),
        ensures
            final(self).inv(),
            final(self).ops() == old(self).ops().push(StorageOp::Remove { id: session_id@ }),
            match r {
                Ok(_) => final(self).contents() == old(self).contents().remove(session_id@),
                Err(_) => final(self).contents() == old(self).contents(),
            },
    ;
}

} // verus!
