//! The per-request session: a mutable set of entries plus the status flag
//! that drives the persistence protocol.

use vstd::prelude::*;

use crate::kv::KvList;
use crate::status::SessionStatus;

verus! {

/// serde_json's JSON value, the type of a session entry. It is carried
/// through opaquely: the session never looks inside a value.
#[verifier::external_type_specification]
#[verifier::external_body]
pub struct ExValue(serde_json::Value);

/// Relies on serde_json: `Value`'s derived `Clone` produces a copy equal to
/// the original.
pub assume_specification[ <serde_json::Value as Clone>::clone ](v: &serde_json::Value) -> (r:
    serde_json::Value)
    ensures
        r == *v,
;

/// A session's entries: a mapping from string key to JSON value.
pub type Entries = KvList<serde_json::Value>;

/// Copy an entry set, pair by pair.
pub fn clone_entries(entries: &Entries) -> (r: Entries)
    ensures
        r.pairs@ == entries.pairs@,
        r@ == entries@,
        r.wf() == entries.wf(),
{
    let mut pairs: Vec<(String, serde_json::Value)> = Vec::new();
    let n = entries.pairs.len();
    let mut i: usize = 0;
    while i < n
        invariant
            n == entries.pairs@.len(),
            i <= n,
            pairs@ == entries.pairs@.take(i as int),
        decreases n - i,
    {
        let key = entries.pairs[i].0.clone();
        let value = entries.pairs[i].1.clone();
        pairs.push((key, value));
        proof {
            assert(pairs@ =~= entries.pairs@.take(i + 1 as int));
        }
        i = i + 1;
    }
    proof {
        assert(entries.pairs@.take(n as int) =~= entries.pairs@);
    }
    KvList { pairs }
}

/// The request-scoped session handed to the downstream handler.
///
/// It is created by the middleware (either from stored entries or empty),
/// mutated only by the handler through the methods below, and read once by
/// the middleware after the handler returns. Each mutating method also sets
/// the status; a later call overrides what an earlier one set.
pub struct Session {
    pub data: Entries,
    pub status: SessionStatus,
}

impl Session {
    /// Internal shape: entry keys are unique.
    pub open spec fn wf(self) -> bool {
        self.data.wf()
    }

    /// The entry mapping this session holds.
    pub open spec fn entries_view(self) -> Map<Seq<char>, serde_json::Value> {
        self.data@
    }

    /// A fresh session with no entries.
    pub fn empty() -> (r: Self)
        ensures
            r.wf(),
            r.entries_view() == Map::<Seq<char>, serde_json::Value>::empty(),
            r.status == SessionStatus::Unchanged,
    {
        Session { data: KvList::new(), status: SessionStatus::Unchanged }
    }

    /// A session resolved from stored entries.
    pub fn new(entries: Entries) -> (r: Self)
        requires
            entries.wf(),
        ensures
            r.wf(),
            r.entries_view() == entries@,
            r.status == SessionStatus::Unchanged,
    {
        Session { data: entries, status: SessionStatus::Unchanged }
    }

    /// Read an entry.
    pub fn get(&self, key: &String) -> (r: Option<&serde_json::Value>)
        requires
            self.wf(),
        ensures
            match r {
                Some(v) => self.entries_view().contains_key(key@) && *v == self.entries_view()[key@],
                None => !self.entries_view().contains_key(key@),
            },
    {
        self.data.get(key)
    }

    /// Write an entry and mark the session changed.
    pub fn set(&mut self, key: String, value: serde_json::Value)
        requires
            old(self).wf(),
        ensures
            final(self).wf(),
            final(self).entries_view() == old(self).entries_view().insert(key@, value),
            final(self).status == SessionStatus::Changed,
    {
        self.data.set(key, value);
        self.status = SessionStatus::Changed;
    }

    /// Remove an entry and mark the session changed.
    pub fn remove(&mut self, key: &String)
        requires
            old(self).wf(),
        ensures
            final(self).wf(),
            final(self).entries_view() == old(self).entries_view().remove(key@),
            final(self).status == SessionStatus::Changed,
    {
        self.data.remove(key);
        self.status = SessionStatus::Changed;
    }

    /// Ask for identifier rotation while keeping the entries.
    pub fn renew(&mut self)
        ensures
            final(self).data == old(self).data,
            final(self).status == SessionStatus::Renewed,
    {
        self.status = SessionStatus::Renewed;
    }

    /// Ask for session termination.
    pub fn purge(&mut self)
        ensures
            final(self).data == old(self).data,
            final(self).status == SessionStatus::Purged,
    {
        self.status = SessionStatus::Purged;
    }

    /// The terminal status, read by the middleware after the handler.
    pub fn status(&self) -> (r: SessionStatus)
        ensures
            r == self.status,
    {
        self.status
    }

    /// A copy of the entries, as handed to the storage port.
    pub fn entries(&self) -> (r: Entries)
        ensures
            r@ == self.entries_view(),
            r.wf() == self.wf(),
    {
        clone_entries(&self.data)
    }
}

} // verus!
