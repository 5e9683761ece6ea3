use server_session::cookie::{Cookie, CookieConfig, CookieJar};
use server_session::memory::MemoryStorage;
use server_session::server_session::{
    Handler, HandlerError, Response, ServerSession, ServerSessionEndpoint, SessionError,
};
use server_session::session::Session;
use server_session::status::SessionStatus;
use server_session::storage::SessionStorage;

fn config() -> CookieConfig {
    CookieConfig::new(String::from("sid"), 3600, true, true)
}

fn endpoint<H: Handler>(handler: H) -> ServerSessionEndpoint<MemoryStorage, H> {
    ServerSession::new(config(), MemoryStorage::new()).transform(handler)
}

struct NoopHandler;

impl Handler for NoopHandler {
    fn handle(&mut self, _session: &mut Session) -> Result<Response, HandlerError> {
        Ok(Response {
            body: String::from("ok"),
        })
    }
}

struct SetEntryHandler {
    key: String,
    value: serde_json::Value,
}

impl Handler for SetEntryHandler {
    fn handle(&mut self, session: &mut Session) -> Result<Response, HandlerError> {
        session.set(self.key.clone(), self.value.clone());
        Ok(Response {
            body: String::from("ok"),
        })
    }
}

struct RenewHandler;

impl Handler for RenewHandler {
    fn handle(&mut self, session: &mut Session) -> Result<Response, HandlerError> {
        session.renew();
        Ok(Response {
            body: String::from("ok"),
        })
    }
}

struct PurgeHandler;

impl Handler for PurgeHandler {
    fn handle(&mut self, session: &mut Session) -> Result<Response, HandlerError> {
        session.purge();
        Ok(Response {
            body: String::from("ok"),
        })
    }
}

struct FailingHandler;

impl Handler for FailingHandler {
    fn handle(&mut self, _session: &mut Session) -> Result<Response, HandlerError> {
        Err(HandlerError)
    }
}

/// Records the entries it finds for the given keys, without mutating.
struct ReadingHandler {
    keys: Vec<String>,
    seen: Vec<Option<serde_json::Value>>,
}

impl Handler for ReadingHandler {
    fn handle(&mut self, session: &mut Session) -> Result<Response, HandlerError> {
        for key in &self.keys {
            self.seen.push(session.get(key).cloned());
        }
        Ok(Response {
            body: String::from("ok"),
        })
    }
}

fn cookie_value(jar: &CookieJar) -> Option<String> {
    jar.get(&String::from("sid")).map(|c| c.value.clone())
}

fn seed_record(storage: &mut MemoryStorage, id: &str, key: &str, value: serde_json::Value) {
    let mut session = Session::empty();
    session.set(String::from(key), value);
    let entries = session.entries();
    storage
        .update_session(&String::from(id), &entries, 3600)
        .unwrap();
}

#[test]
fn untouched_session_makes_no_calls_and_sets_no_cookie() {
    let mut ep = endpoint(NoopHandler);
    let mut jar = CookieJar::new();
    let result = ep.call(&mut jar);
    assert!(result.is_ok());
    assert_eq!(ep.storage.load_calls, 0);
    assert_eq!(ep.storage.update_calls, 0);
    assert_eq!(ep.storage.remove_calls, 0);
    assert!(cookie_value(&jar).is_none());
}

#[test]
fn write_without_prior_identifier_issues_one_cookie_and_one_upsert() {
    let mut ep = endpoint(SetEntryHandler {
        key: String::from("user"),
        value: serde_json::Value::from(42i64),
    });
    let mut jar = CookieJar::new();
    let result = ep.call(&mut jar);
    assert!(result.is_ok());
    assert_eq!(ep.storage.load_calls, 0);
    assert_eq!(ep.storage.update_calls, 1);
    assert_eq!(ep.storage.remove_calls, 0);
    let id = cookie_value(&jar).expect("a session cookie must be emitted");
    assert_eq!(id.len(), 43);
    let stored = ep.storage.load_session(&id).unwrap().unwrap();
    let restored = Session::new(stored);
    assert_eq!(
        restored.get(&String::from("user")),
        Some(&serde_json::Value::from(42i64))
    );
}

#[test]
fn stale_cookie_is_discarded_and_replaced_on_write() {
    // Request arrives with `sid=abc`; the store has no record for `abc`; the
    // handler sets `user=42`.
    let mut ep = endpoint(SetEntryHandler {
        key: String::from("user"),
        value: serde_json::Value::from(42i64),
    });
    let mut jar = CookieJar::new();
    jar.set(
        String::from("sid"),
        Cookie {
            value: String::from("abc"),
            max_age_seconds: 3600,
            secure: true,
            http_only: true,
        },
    );
    let result = ep.call(&mut jar);
    assert!(result.is_ok());
    assert_eq!(ep.storage.load_calls, 1);
    assert_eq!(ep.storage.update_calls, 1);
    assert_eq!(ep.storage.remove_calls, 0);
    let new_id = cookie_value(&jar).expect("a fresh identifier must be emitted");
    assert_ne!(new_id, "abc");
    assert_eq!(new_id.len(), 43);
    let cookie = jar.get(&String::from("sid")).unwrap();
    assert_eq!(cookie.max_age_seconds, 3600);
    assert!(cookie.secure);
    assert!(cookie.http_only);
    assert!(ep.storage.load_session(&String::from("abc")).unwrap().is_none());
    let stored = ep.storage.load_session(&new_id).unwrap().unwrap();
    let restored = Session::new(stored);
    assert_eq!(
        restored.get(&String::from("user")),
        Some(&serde_json::Value::from(42i64))
    );
}

#[test]
fn write_with_prior_identifier_updates_in_place() {
    let mut ep = endpoint(SetEntryHandler {
        key: String::from("count"),
        value: serde_json::Value::from(2i64),
    });
    seed_record(
        &mut ep.storage,
        "known",
        "count",
        serde_json::Value::from(1i64),
    );
    let mut jar = CookieJar::new();
    jar.set(
        String::from("sid"),
        Cookie {
            value: String::from("known"),
            max_age_seconds: 3600,
            secure: true,
            http_only: true,
        },
    );
    let result = ep.call(&mut jar);
    assert!(result.is_ok());
    // No new identifier: the cookie still carries the resolved one.
    assert_eq!(cookie_value(&jar), Some(String::from("known")));
    assert_eq!(ep.storage.update_calls, 2); // the seed, then the request
    let stored = ep.storage.load_session(&String::from("known")).unwrap().unwrap();
    let restored = Session::new(stored);
    assert_eq!(
        restored.get(&String::from("count")),
        Some(&serde_json::Value::from(2i64))
    );
}

#[test]
fn renew_rotates_identifier_and_moves_record() {
    let mut ep = endpoint(RenewHandler);
    seed_record(
        &mut ep.storage,
        "oldid",
        "user",
        serde_json::Value::from("alice"),
    );
    let mut jar = CookieJar::new();
    jar.set(
        String::from("sid"),
        Cookie {
            value: String::from("oldid"),
            max_age_seconds: 3600,
            secure: true,
            http_only: true,
        },
    );
    let result = ep.call(&mut jar);
    assert!(result.is_ok());
    assert_eq!(ep.storage.remove_calls, 1);
    assert_eq!(ep.storage.update_calls, 2); // the seed, then the rotation
    let new_id = cookie_value(&jar).expect("renewal must emit a cookie");
    assert_ne!(new_id, "oldid");
    assert_eq!(new_id.len(), 43);
    assert!(ep
        .storage
        .load_session(&String::from("oldid"))
        .unwrap()
        .is_none());
    let stored = ep.storage.load_session(&new_id).unwrap().unwrap();
    let restored = Session::new(stored);
    assert_eq!(
        restored.get(&String::from("user")),
        Some(&serde_json::Value::from("alice"))
    );
}

#[test]
fn renew_without_prior_identifier_still_issues_one() {
    let mut ep = endpoint(RenewHandler);
    let mut jar = CookieJar::new();
    let result = ep.call(&mut jar);
    assert!(result.is_ok());
    assert_eq!(ep.storage.remove_calls, 0);
    assert_eq!(ep.storage.update_calls, 1);
    let new_id = cookie_value(&jar).expect("renewal must emit a cookie");
    assert_eq!(new_id.len(), 43);
    assert!(ep.storage.load_session(&new_id).unwrap().is_some());
}

#[test]
fn purge_without_prior_identifier_is_a_no_op() {
    let mut ep = endpoint(PurgeHandler);
    let mut jar = CookieJar::new();
    let result = ep.call(&mut jar);
    assert!(result.is_ok());
    assert_eq!(ep.storage.load_calls, 0);
    assert_eq!(ep.storage.update_calls, 0);
    assert_eq!(ep.storage.remove_calls, 0);
    assert!(cookie_value(&jar).is_none());
}

#[test]
fn purge_with_prior_identifier_removes_record_and_clears_cookie() {
    let mut ep = endpoint(PurgeHandler);
    seed_record(
        &mut ep.storage,
        "doomed",
        "user",
        serde_json::Value::from("bob"),
    );
    let mut jar = CookieJar::new();
    jar.set(
        String::from("sid"),
        Cookie {
            value: String::from("doomed"),
            max_age_seconds: 3600,
            secure: true,
            http_only: true,
        },
    );
    let result = ep.call(&mut jar);
    assert!(result.is_ok());
    assert_eq!(ep.storage.remove_calls, 1);
    assert!(cookie_value(&jar).is_none());
    assert!(ep
        .storage
        .load_session(&String::from("doomed"))
        .unwrap()
        .is_none());
}

#[test]
fn entries_round_trip_across_requests() {
    let mut ep = endpoint(SetEntryHandler {
        key: String::from("user"),
        value: serde_json::Value::String(String::from("carol")),
    });
    let mut jar = CookieJar::new();
    ep.call(&mut jar).ok().expect("first request must succeed");
    let reader = ReadingHandler {
        keys: vec![String::from("user")],
        seen: Vec::new(),
    };
    // The next request presents the cookie the first one emitted, against the
    // same store.
    let storage = std::mem::replace(&mut ep.storage, MemoryStorage::new());
    let mut ep2 = ServerSession::new(config(), storage).transform(reader);
    let result = ep2.call(&mut jar);
    assert!(result.is_ok());
    assert_eq!(
        ep2.inner.seen,
        vec![Some(serde_json::Value::String(String::from("carol")))]
    );
    // And nothing was re-persisted: the reader left the session unchanged.
    assert_eq!(ep2.storage.update_calls, 1);
}

#[test]
fn handler_failure_persists_nothing() {
    let mut ep = endpoint(FailingHandler);
    let mut jar = CookieJar::new();
    let result = ep.call(&mut jar);
    match result {
        Err(SessionError::Handler(_)) => {}
        _ => panic!("the handler's failure must propagate"),
    }
    assert_eq!(ep.storage.update_calls, 0);
    assert_eq!(ep.storage.remove_calls, 0);
    assert!(cookie_value(&jar).is_none());
}
