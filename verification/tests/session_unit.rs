use server_session::cookie::{Cookie, CookieConfig, CookieJar};
use server_session::session::Session;
use server_session::sid::generate_session_id;
use server_session::status::SessionStatus;

fn config() -> CookieConfig {
    CookieConfig::new(String::from("sid"), 3600, true, true)
}

#[test]
fn fresh_session_is_unchanged_and_empty() {
    let session = Session::empty();
    assert_eq!(session.status(), SessionStatus::Unchanged);
    assert!(session.get(&String::from("user")).is_none());
}

#[test]
fn set_marks_changed_and_stores_value() {
    let mut session = Session::empty();
    session.set(String::from("user"), serde_json::Value::from(42i64));
    assert_eq!(session.status(), SessionStatus::Changed);
    assert_eq!(
        session.get(&String::from("user")),
        Some(&serde_json::Value::from(42i64))
    );
}

#[test]
fn set_overwrites_existing_key() {
    let mut session = Session::empty();
    session.set(String::from("user"), serde_json::Value::from(1i64));
    session.set(String::from("user"), serde_json::Value::from(2i64));
    assert_eq!(
        session.get(&String::from("user")),
        Some(&serde_json::Value::from(2i64))
    );
}

#[test]
fn remove_marks_changed_and_drops_value() {
    let mut session = Session::empty();
    session.set(String::from("user"), serde_json::Value::from(1i64));
    session.remove(&String::from("user"));
    assert_eq!(session.status(), SessionStatus::Changed);
    assert!(session.get(&String::from("user")).is_none());
}

#[test]
fn remove_of_absent_key_is_harmless() {
    let mut session = Session::empty();
    session.remove(&String::from("missing"));
    assert_eq!(session.status(), SessionStatus::Changed);
    assert!(session.get(&String::from("missing")).is_none());
}

#[test]
fn renew_and_purge_set_their_status() {
    let mut session = Session::empty();
    session.renew();
    assert_eq!(session.status(), SessionStatus::Renewed);
    session.purge();
    assert_eq!(session.status(), SessionStatus::Purged);
}

#[test]
fn later_status_overrides_earlier() {
    let mut session = Session::empty();
    session.renew();
    session.set(String::from("k"), serde_json::Value::from("v"));
    assert_eq!(session.status(), SessionStatus::Changed);
}

#[test]
fn cookie_roundtrip_through_jar() {
    let cfg = config();
    let mut jar = CookieJar::new();
    assert!(cfg.get_cookie_value(&jar).is_none());
    cfg.set_cookie_value(&mut jar, &String::from("abc123"));
    assert_eq!(cfg.get_cookie_value(&jar), Some(String::from("abc123")));
    let cookie = jar.get(&String::from("sid")).unwrap();
    assert_eq!(cookie.value, "abc123");
    assert_eq!(cookie.max_age_seconds, 3600);
    assert!(cookie.secure);
    assert!(cookie.http_only);
    cfg.remove_cookie(&mut jar);
    assert!(cfg.get_cookie_value(&jar).is_none());
}

#[test]
fn cookie_reads_only_its_own_name() {
    let cfg = config();
    let mut jar = CookieJar::new();
    jar.set(
        String::from("other"),
        Cookie {
            value: String::from("zzz"),
            max_age_seconds: 5,
            secure: false,
            http_only: false,
        },
    );
    assert!(cfg.get_cookie_value(&jar).is_none());
}

#[test]
fn generated_identifiers_have_fixed_urlsafe_shape() {
    for _ in 0..50 {
        let id = generate_session_id();
        assert_eq!(id.len(), 43);
        assert!(id
            .chars()
            .all(|c| c.is_ascii_alphanumeric() || c == '-' || c == '_'));
    }
}

#[test]
fn consecutive_identifiers_differ() {
    let mut previous = generate_session_id();
    for _ in 0..200 {
        let next = generate_session_id();
        assert_ne!(previous, next);
        previous = next;
    }
}
