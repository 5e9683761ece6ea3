//! The server-session middleware: on each request it resolves the session
//! from the cookie-carried identifier and the store, hands it to the
//! downstream handler, and afterwards runs the persistence protocol keyed on
//! the session's final status.

use vstd::prelude::*;

use crate::cookie::{jar_view, CookieConfig, CookieJar, CookieVal};
use crate::session::Session;
use crate::sid::{generate_session_id, is_session_id};
use crate::status::SessionStatus;
use crate::storage::{SessionStorage, StorageError, StorageOp};

verus! {

/// The live records of a store: identifier to entry mapping.
pub type StoreContents = Map<Seq<char>, Map<Seq<char>, serde_json::Value>>;

/// The identifier candidate carried by the inbound jar, if any.
pub open spec fn candidate_id(config: CookieConfig, jar: CookieJar) -> Option<Seq<char>> {
    if jar_view(jar).contains_key(config.cookie_name@) {
        Some(jar_view(jar)[config.cookie_name@].value)
    } else {
        None
    }
}

/// The identifier a request resolves to: the candidate, if the store holds a
/// record for it; a candidate the store does not know is discarded.
pub open spec fn resolved_id(contents: StoreContents, candidate: Option<Seq<char>>) -> Option<
    Seq<char>,
> {
    match candidate {
        Some(id) => if contents.contains_key(id) {
            Some(id)
        } else {
            None
        },
        None => None,
    }
}

/// The entries a request starts from: the stored record on a hit, empty on a
/// miss or without a candidate.
pub open spec fn resolved_entries(contents: StoreContents, candidate: Option<Seq<char>>) -> Map<
    Seq<char>,
    serde_json::Value,
> {
    match candidate {
        Some(id) => if contents.contains_key(id) {
            contents[id]
        } else {
            Map::empty()
        },
        None => Map::empty(),
    }
}

/// The view of an optional identifier.
pub open spec fn sid_view(sid: Option<String>) -> Option<Seq<char>> {
    match sid {
        Some(s) => Some(s@),
        None => None,
    }
}

/// The storage trace after session resolution: one load for the candidate,
/// none without one.
pub open spec fn begin_ops(
    config: CookieConfig,
    jar: CookieJar,
    ops0: Seq<StorageOp>,
) -> Seq<StorageOp> {
    match candidate_id(config, jar) {
        Some(c) => ops0.push(StorageOp::Load { id: c }),
        None => ops0,
    }
}

/// A fresh identifier was issued and written: the jar gained the session
/// cookie with some identifier of the generated shape and the configured
/// attributes, and the store gained that identifier's record, through exactly
/// one upsert.
pub open spec fn fresh_write(
    config: CookieConfig,
    entries: Map<Seq<char>, serde_json::Value>,
    cb: StoreContents,
    c1: StoreContents,
    ob: Seq<StorageOp>,
    ops1: Seq<StorageOp>,
    j0: Map<Seq<char>, CookieVal>,
    j1: Map<Seq<char>, CookieVal>,
) -> bool {
    let nid = j1[config.cookie_name@].value;
    &&& j1.contains_key(config.cookie_name@)
    &&& is_session_id(nid)
    &&& j1 == j0.insert(config.cookie_name@, config.cookie_for(nid))
    &&& c1 == cb.insert(nid, entries)
    &&& ops1 == ob.push(StorageOp::Update { id: nid, entries, ttl_seconds: config.ttl_seconds })
}

/// A fresh identifier was issued and the cookie written, but the upsert
/// failed: the jar carries the new cookie, the trace the attempted upsert.
pub open spec fn failed_fresh(
    config: CookieConfig,
    entries: Map<Seq<char>, serde_json::Value>,
    ob: Seq<StorageOp>,
    ops1: Seq<StorageOp>,
    j0: Map<Seq<char>, CookieVal>,
    j1: Map<Seq<char>, CookieVal>,
) -> bool {
    let nid = j1[config.cookie_name@].value;
    &&& j1.contains_key(config.cookie_name@)
    &&& is_session_id(nid)
    &&& j1 == j0.insert(config.cookie_name@, config.cookie_for(nid))
    &&& ops1 == ob.push(StorageOp::Update { id: nid, entries, ttl_seconds: config.ttl_seconds })
}

/// The persistence protocol, successful outcome. Relates the session's final
/// status and entries and the resolved identifier to the store records
/// (`c0` to `c1`), the storage trace (`ops0` to `ops1`) and the jar (`j0` to
/// `j1`).
pub open spec fn persist_ok(
    config: CookieConfig,
    status: SessionStatus,
    entries: Map<Seq<char>, serde_json::Value>,
    sid: Option<Seq<char>>,
    c0: StoreContents,
    c1: StoreContents,
    ops0: Seq<StorageOp>,
    ops1: Seq<StorageOp>,
    j0: Map<Seq<char>, CookieVal>,
    j1: Map<Seq<char>, CookieVal>,
) -> bool {
    match status {
        SessionStatus::Unchanged => c1 == c0 && ops1 == ops0 && j1 == j0,
        SessionStatus::Changed => match sid {
            Some(id) => {
                &&& c1 == c0.insert(id, entries)
                &&& ops1 == ops0.push(
                    StorageOp::Update { id, entries, ttl_seconds: config.ttl_seconds },
                )
                &&& j1 == j0
            },
            None => fresh_write(config, entries, c0, c1, ops0, ops1, j0, j1),
        },
        SessionStatus::Renewed => match sid {
            Some(id) => fresh_write(
                config,
                entries,
                c0.remove(id),
                c1,
                ops0.push(StorageOp::Remove { id }),
                ops1,
                j0,
                j1,
            ),
            None => fresh_write(config, entries, c0, c1, ops0, ops1, j0, j1),
        },
        SessionStatus::Purged => match sid {
            Some(id) => {
                &&& c1 == c0.remove(id)
                &&& ops1 == ops0.push(StorageOp::Remove { id })
                &&& j1 == j0.remove(config.cookie_name@)
            },
            None => c1 == c0 && ops1 == ops0 && j1 == j0,
        },
    }
}

/// The persistence protocol, failed outcome: exactly where a storage call
/// error left the records, the trace and the jar.
pub open spec fn persist_err(
    config: CookieConfig,
    status: SessionStatus,
    entries: Map<Seq<char>, serde_json::Value>,
    sid: Option<Seq<char>>,
    c0: StoreContents,
    c1: StoreContents,
    ops0: Seq<StorageOp>,
    ops1: Seq<StorageOp>,
    j0: Map<Seq<char>, CookieVal>,
    j1: Map<Seq<char>, CookieVal>,
) -> bool {
    match status {
        SessionStatus::Unchanged => false,
        SessionStatus::Changed => c1 == c0 && match sid {
            Some(id) => ops1 == ops0.push(
                StorageOp::Update { id, entries, ttl_seconds: config.ttl_seconds },
            ) && j1 == j0,
            None => failed_fresh(config, entries, ops0, ops1, j0, j1),
        },
        SessionStatus::Renewed => match sid {
            Some(id) => (c1 == c0 && ops1 == ops0.push(StorageOp::Remove { id }) && j1 == j0) || (
            c1 == c0.remove(id) && failed_fresh(
                config,
                entries,
                ops0.push(StorageOp::Remove { id }),
                ops1,
                j0,
                j1,
            )),
            None => c1 == c0 && failed_fresh(config, entries, ops0, ops1, j0, j1),
        },
        SessionStatus::Purged => match sid {
            Some(id) => c1 == c0 && ops1 == ops0.push(StorageOp::Remove { id }) && j1 == j0,
            None => false,
        },
    }
}

/// Resolve the session for a request: read the candidate identifier from the
/// inbound jar, load its record if there is one, and construct the session
/// the handler will see — from the stored entries on a hit, empty (with the
/// stale candidate discarded) on a miss or without a candidate.
pub fn begin_request<S: SessionStorage>(
    config: &CookieConfig,
    storage: &mut S,
    jar: &CookieJar,
) -> (r: Result<(Session, Option<String>), StorageError>)
    requires
        old(storage).inv(),
        jar.wf(),
    ensures
        final(storage).inv(),
        final(storage).contents() == old(storage).contents(),
        final(storage).ops() == begin_ops(*config, *jar, old(storage).ops()),
        candidate_id(*config, *jar) is None ==> r is Ok,
        match r {
            Ok((session, sid)) => {
                &&& session.wf()
                &&& session.status == SessionStatus::Unchanged
                &&& session.entries_view() == resolved_entries(
                    old(storage).contents(),
                    candidate_id(*config, *jar),
                )
                &&& sid_view(sid) == resolved_id(
                    old(storage).contents(),
                    candidate_id(*config, *jar),
                )
            },
            Err(_) => candidate_id(*config, *jar) is Some,
        },
{
    match config.get_cookie_value(jar) {
        Some(id) => match storage.load_session(&id) {
            Ok(Some(entries)) => Ok((Session::new(entries), Some(id))),
            Ok(None) => Ok((Session::empty(), None)),
            Err(e) => Err(e),
        },
        None => Ok((Session::empty(), None)),
    }
}

/// Persist a request's outcome: inspect the session's terminal status and
/// run the protocol — upsert on `Changed` (issuing an identifier if none was
/// resolved), rotate on `Renewed` (remove the old record first, then always
/// issue and write a new identifier), delete record and cookie on `Purged`,
/// touch nothing on `Unchanged`. A storage error aborts the protocol where
/// it struck.
pub fn finish_request<S: SessionStorage>(
    config: &CookieConfig,
    storage: &mut S,
    jar: &mut CookieJar,
    session: &Session,
    session_id: Option<String>,
) -> (r: Result<(), StorageError>)
    requires
        old(storage).inv(),
        old(jar).wf(),
        session.wf(),
    ensures
        final(storage).inv(),
        final(jar).wf(),
        r is Ok ==> persist_ok(
            *config,
            session.status,
            session.entries_view(),
            sid_view(session_id),
            old(storage).contents(),
            final(storage).contents(),
            old(storage).ops(),
            final(storage).ops(),
            jar_view(*old(jar)),
            jar_view(*final(jar)),
        ),
        r is Err ==> persist_err(
            *config,
            session.status,
            session.entries_view(),
            sid_view(session_id),
            old(storage).contents(),
            final(storage).contents(),
            old(storage).ops(),
            final(storage).ops(),
            jar_view(*old(jar)),
            jar_view(*final(jar)),
        ),
        session.status == SessionStatus::Unchanged ==> r is Ok,
        session.status == SessionStatus::Purged && session_id is None ==> r is Ok,
{
    match session.status() {
        SessionStatus::Changed => match session_id {
            Some(id) => {
                let entries = session.entries();
                storage.update_session(&id, &entries, config.ttl())
            },
            None => {
                let new_id = generate_session_id();
                config.set_cookie_value(jar, &new_id);
                let entries = session.entries();
                storage.update_session(&new_id, &entries, config.ttl())
            },
        },
        SessionStatus::Renewed => {
            match &session_id {
                Some(id) => {
                    match storage.remove_session(id) {
                        Ok(_) => {},
                        Err(e) => {
                            return Err(e);
                        },
                    }
                },
                None => {},
            }
            let new_id = generate_session_id();
            config.set_cookie_value(jar, &new_id);
            let entries = session.entries();
            storage.update_session(&new_id, &entries, config.ttl())
        },
        SessionStatus::Purged => match session_id {
            Some(id) => match storage.remove_session(&id) {
                Ok(_) => {
                    config.remove_cookie(jar);
                    Ok(())
                },
                Err(e) => Err(e),
            },
            None => Ok(()),
        },
        SessionStatus::Unchanged => Ok(()),
    }
}

/// A response produced by the downstream handler.
pub struct Response {
    pub body: String,
}

/// A failure reported by the downstream handler.
pub struct HandlerError;

/// What a request can fail with: a storage error or a handler error.
pub enum SessionError {
    Storage(StorageError),
    Handler(HandlerError),
}

/// The downstream endpoint the middleware wraps. A handler receives the live
/// session handle and may read and mutate it through its methods; the
/// middleware relies on nothing else about it.
pub trait Handler: Sized {
    /// Handle one request against the session.
    fn handle(&mut self, session: &mut Session) -> (r: Result<Response, HandlerError>)
        requires
            old(session).wf(),
        ensures
            final(session).wf(),
    ;
}

/// Middleware for server-side sessions: the cookie configuration and the
/// storage handle, shared across requests.
pub struct ServerSession<S> {
    pub config: CookieConfig,
    pub storage: S,
}

impl<S: SessionStorage> ServerSession<S> {
    /// Create a `ServerSession` middleware.
    pub fn new(config: CookieConfig, storage: S) -> (r: Self)
        ensures
            r.config == config,
            r.storage == storage,
    {
        ServerSession { config, storage }
    }

    /// Wrap a downstream endpoint.
    pub fn transform<H: Handler>(self, inner: H) -> (r: ServerSessionEndpoint<S, H>)
        ensures
            r.config == self.config,
            r.storage == self.storage,
            r.inner == inner,
    {
        ServerSessionEndpoint { inner, config: self.config, storage: self.storage }
    }
}

/// Endpoint for the `ServerSession` middleware: resolves the session, runs
/// the inner handler, then persists by the final status.
pub struct ServerSessionEndpoint<S, H> {
    pub inner: H,
    pub config: CookieConfig,
    pub storage: S,
}

impl<S: SessionStorage, H: Handler> ServerSessionEndpoint<S, H> {
    /// Serve one request whose cookies are in `jar`. On success, for some
    /// terminal status and entry set the handler left behind, storage and
    /// jar changed exactly as the persistence protocol dictates; a handler
    /// failure leaves both untouched beyond the resolution load; a storage
    /// failure left them exactly where the failing call struck.
    pub fn call(&mut self, jar: &mut CookieJar) -> (r: Result<Response, SessionError>)
        requires
            old(self).storage.inv(),
            old(jar).wf(),
        ensures
            final(self).storage.inv(),
            final(jar).wf(),
            final(self).config == old(self).config,
            ({
                let cand = candidate_id(old(self).config, *old(jar));
                let c0 = old(self).storage.contents();
                let ops_b = begin_ops(old(self).config, *old(jar), old(self).storage.ops());
                let sid = resolved_id(c0, cand);
                match r {
                    Ok(_) => exists|st: SessionStatus, e: Map<Seq<char>, serde_json::Value>|
                        #[trigger] persist_ok(
                            old(self).config,
                            st,
                            e,
                            sid,
                            c0,
                            final(self).storage.contents(),
                            ops_b,
                            final(self).storage.ops(),
                            jar_view(*old(jar)),
                            jar_view(*final(jar)),
                        ),
                    Err(SessionError::Handler(_)) => final(self).storage.contents() == c0
                        && final(self).storage.ops() == ops_b
                        && jar_view(*final(jar)) == jar_view(*old(jar)),
                    Err(SessionError::Storage(_)) => (cand is Some
                        && final(self).storage.ops() == ops_b
                        && final(self).storage.contents() == c0
                        && jar_view(*final(jar)) == jar_view(*old(jar)))
                        || exists|st: SessionStatus, e: Map<Seq<char>, serde_json::Value>|
                        #[trigger] persist_err(
                            old(self).config,
                            st,
                            e,
                            sid,
                            c0,
                            final(self).storage.contents(),
                            ops_b,
                            final(self).storage.ops(),
                            jar_view(*old(jar)),
                            jar_view(*final(jar)),
                        ),
                }
            }),
    {
        let (mut session, session_id) = match begin_request(&self.config, &mut self.storage, jar) {
            Ok(resolved) => resolved,
            Err(e) => {
                return Err(SessionError::Storage(e));
            },
        };
        let response = match self.inner.handle(&mut session) {
            Ok(response) => response,
            Err(e) => {
                return Err(SessionError::Handler(e));
            },
        };
        let ghost st = session.status;
        let ghost entries = session.entries_view();
        match finish_request(&self.config, &mut self.storage, jar, &session, session_id) {
            Ok(_) => {
                proof {
                    assert(persist_ok(
                        old(self).config,
                        st,
                        entries,
                        resolved_id(
                            old(self).storage.contents(),
                            candidate_id(old(self).config, *old(jar)),
                        ),
                        old(self).storage.contents(),
                        self.storage.contents(),
                        begin_ops(old(self).config, *old(jar), old(self).storage.ops()),
                        self.storage.ops(),
                        jar_view(*old(jar)),
                        jar_view(*jar),
                    ));
                }
                Ok(response)
            },
            Err(e) => {
                proof {
                    assert(persist_err(
                        old(self).config,
                        st,
                        entries,
                        resolved_id(
                            old(self).storage.contents(),
                            candidate_id(old(self).config, *old(jar)),
                        ),
                        old(self).storage.contents(),
                        self.storage.contents(),
                        begin_ops(old(self).config, *old(jar), old(self).storage.ops()),
                        self.storage.ops(),
                        jar_view(*old(jar)),
                        jar_view(*jar),
                    ));
                }
                Err(SessionError::Storage(e))
            },
        }
    }
}


/// An untouched session has no effect: when the protocol runs for an
/// `Unchanged` session, the records, the storage trace and the jar are
/// exactly as they were — no storage call and no cookie write.
pub proof fn lemma_unchanged_no_effects(
    config: CookieConfig,
    entries: Map<Seq<char>, serde_json::Value>,
    sid: Option<Seq<char>>,
    c0: StoreContents,
    c1: StoreContents,
    ops0: Seq<StorageOp>,
    ops1: Seq<StorageOp>,
    j0: Map<Seq<char>, CookieVal>,
    j1: Map<Seq<char>, CookieVal>,
)
    requires
        persist_ok(config, SessionStatus::Unchanged, entries, sid, c0, c1, ops0, ops1, j0, j1),
    ensures
        c1 == c0,
        ops1 == ops0,
        j1 == j0,
{
}

/// A changed session is persisted by exactly one upsert carrying the full
/// current entry mapping; a fresh identifier and its cookie write appear
/// exactly when no identifier was resolved.
pub proof fn lemma_changed_single_upsert(
    config: CookieConfig,
    entries: Map<Seq<char>, serde_json::Value>,
    sid: Option<Seq<char>>,
    c0: StoreContents,
    c1: StoreContents,
    ops0: Seq<StorageOp>,
    ops1: Seq<StorageOp>,
    j0: Map<Seq<char>, CookieVal>,
    j1: Map<Seq<char>, CookieVal>,
)
    requires
        persist_ok(config, SessionStatus::Changed, entries, sid, c0, c1, ops0, ops1, j0, j1),
    ensures
        match sid {
            Some(id) => {
                &&& c1 == c0.insert(id, entries)
                &&& ops1 == ops0.push(
                    StorageOp::Update { id, entries, ttl_seconds: config.ttl_seconds },
                )
                &&& j1 == j0
            },
            None => ({
                let nid = j1[config.cookie_name@].value;
                &&& is_session_id(nid)
                &&& c1 == c0.insert(nid, entries)
                &&& ops1 == ops0.push(
                    StorageOp::Update { id: nid, entries, ttl_seconds: config.ttl_seconds },
                )
                &&& j1 == j0.insert(config.cookie_name@, config.cookie_for(nid))
            }),
        },
{
}

/// Renewal always rotates: a fresh identifier of the generated shape is
/// issued and written whether or not one was resolved, and the old
/// identifier's record, if any, is removed from storage before the new
/// record is written.
pub proof fn lemma_renew_rotates(
    config: CookieConfig,
    entries: Map<Seq<char>, serde_json::Value>,
    sid: Option<Seq<char>>,
    c0: StoreContents,
    c1: StoreContents,
    ops0: Seq<StorageOp>,
    ops1: Seq<StorageOp>,
    j0: Map<Seq<char>, CookieVal>,
    j1: Map<Seq<char>, CookieVal>,
)
    requires
        persist_ok(config, SessionStatus::Renewed, entries, sid, c0, c1, ops0, ops1, j0, j1),
    ensures
        ({
            let nid = j1[config.cookie_name@].value;
            &&& is_session_id(nid)
            &&& j1 == j0.insert(config.cookie_name@, config.cookie_for(nid))
            &&& match sid {
                Some(id) => c1 == c0.remove(id).insert(nid, entries) && ops1 == ops0.push(
                    StorageOp::Remove { id },
                ).push(StorageOp::Update { id: nid, entries, ttl_seconds: config.ttl_seconds }),
                None => c1 == c0.insert(nid, entries) && ops1 == ops0.push(
                    StorageOp::Update { id: nid, entries, ttl_seconds: config.ttl_seconds },
                ),
            }
        }),
{
}

/// Purging without a prior identifier is a no-op: zero storage calls, zero
/// cookie changes.
pub proof fn lemma_purge_without_identifier(
    config: CookieConfig,
    entries: Map<Seq<char>, serde_json::Value>,
    c0: StoreContents,
    c1: StoreContents,
    ops0: Seq<StorageOp>,
    ops1: Seq<StorageOp>,
    j0: Map<Seq<char>, CookieVal>,
    j1: Map<Seq<char>, CookieVal>,
)
    requires
        persist_ok(config, SessionStatus::Purged, entries, None, c0, c1, ops0, ops1, j0, j1),
    ensures
        c1 == c0,
        ops1 == ops0,
        j1 == j0,
{
}

/// Purging with a prior identifier removes exactly that record through
/// exactly one remove call, and clears the session cookie.
pub proof fn lemma_purge_with_identifier(
    config: CookieConfig,
    entries: Map<Seq<char>, serde_json::Value>,
    id: Seq<char>,
    c0: StoreContents,
    c1: StoreContents,
    ops0: Seq<StorageOp>,
    ops1: Seq<StorageOp>,
    j0: Map<Seq<char>, CookieVal>,
    j1: Map<Seq<char>, CookieVal>,
)
    requires
        persist_ok(config, SessionStatus::Purged, entries, Some(id), c0, c1, ops0, ops1, j0, j1),
    ensures
        c1 == c0.remove(id),
        ops1 == ops0.push(StorageOp::Remove { id }),
        j1 == j0.remove(config.cookie_name@),
{
}

/// Round trip: entries persisted under an identifier in one request are
/// exactly the entries a later request presenting that identifier resolves,
/// and that identifier is the one the later request keeps.
pub proof fn lemma_round_trip(
    contents: StoreContents,
    id: Seq<char>,
    entries: Map<Seq<char>, serde_json::Value>,
)
    ensures
        resolved_entries(contents.insert(id, entries), Some(id)) == entries,
        resolved_id(contents.insert(id, entries), Some(id)) == Some(id),
{
}

} // verus!
