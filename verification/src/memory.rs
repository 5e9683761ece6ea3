//! An in-memory storage backend: the simplest implementation of the storage
//! port, and the one the tests run the middleware against.

use vstd::prelude::*;

use crate::kv::KvList;
use crate::session::{clone_entries, Entries};
use crate::storage::{SessionStorage, StorageError, StorageOp};

verus! {

/// Session records held in process memory.
///
/// Besides the records it keeps a ghost trace of the calls made against it,
/// and executable call counters so a test can observe how often each
/// operation ran.
pub struct MemoryStorage {
    pub records: KvList<Entries>,
    pub load_calls: u64,
    pub update_calls: u64,
    pub remove_calls: u64,
    pub op_log: Ghost<Seq<StorageOp>>,
}

impl MemoryStorage {
    /// An empty store with an empty trace.
    pub fn new() -> (r: Self)
        ensures
            r.inv(),
            r.contents() == Map::<Seq<char>, Map<Seq<char>, serde_json::Value>>::empty(),
            r.ops() == Seq::<StorageOp>::empty(),
            r.load_calls == 0,
            r.update_calls == 0,
            r.remove_calls == 0,
    {
        let r = MemoryStorage {
            records: KvList::new(),
            load_calls: 0,
            update_calls: 0,
            remove_calls: 0,
            op_log: Ghost(Seq::empty()),
        };
        proof {
            assert(r.contents() =~= Map::<Seq<char>, Map<Seq<char>, serde_json::Value>>::empty());
        }
        r
    }
}

impl SessionStorage for MemoryStorage {
    open spec fn inv(self) -> bool {
        self.records.wf() && (forall|k: Seq<char>|
            self.records@.contains_key(k) ==> self.records@[k].wf())
    }

    open spec fn contents(self) -> Map<Seq<char>, Map<Seq<char>, serde_json::Value>> {
        self.records@.map_values(|e: Entries| e@)
    }

    open spec fn ops(self) -> Seq<StorageOp> {
        self.op_log@
    }

    fn load_session(&mut self, session_id: &String) -> (r: Result<Option<Entries>, StorageError>) {
        if self.load_calls < u64::MAX {
            self.load_calls = self.load_calls + 1;
        }
        self.op_log = Ghost(self.op_log@.push(StorageOp::Load { id: session_id@ }));
        let r = match self.records.get(session_id) {
            Some(stored) => Some(clone_entries(stored)),
            None => None,
        };
        proof {
            assert(self.contents() =~= old(self).contents());
        }
        Ok(r)
    }

    fn update_session(&mut self, session_id: &String, entries: &Entries, ttl_seconds: u64) -> (r:
        Result<(), StorageError>) {
        if self.update_calls < u64::MAX {
            self.update_calls = self.update_calls + 1;
        }
        self.op_log = Ghost(
            self.op_log@.push(StorageOp::Update { id: session_id@, entries: entries@, ttl_seconds }),
        );
        let stored = clone_entries(entries);
        self.records.set(session_id.clone(), stored);
        proof {
            assert(self.contents() =~= old(self).contents().insert(session_id@, entries@));
            assert forall|k: Seq<char>|
                self.records@.contains_key(k) implies self.records@[k].wf() by {
                if k != session_id@ {
                    assert(old(self).records@.contains_key(k));
                }
            }
        }
        Ok(())
    }

    fn remove_session(&mut self, session_id: &String) -> (r: Result<(), StorageError>) {
        if self.remove_calls < u64::MAX {
            self.remove_calls = self.remove_calls + 1;
        }
        self.op_log = Ghost(self.op_log@.push(StorageOp::Remove { id: session_id@ }));
        self.records.remove(session_id);
        proof {
            assert(self.contents() =~= old(self).contents().remove(session_id@));
            assert forall|k: Seq<char>|
                self.records@.contains_key(k) implies self.records@[k].wf() by {
                assert(old(self).records@.contains_key(k));
            }
        }
        Ok(())
    }
}

} // verus!
