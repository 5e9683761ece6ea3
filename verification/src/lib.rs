//! Server-side session management for an HTTP request pipeline.
//!
//! A middleware attaches a per-request [`session::Session`] backed by a
//! pluggable [`storage::SessionStorage`] port, reconciles the session
//! identifier carried in a cookie with the store, lets a downstream handler
//! read and mutate the session, and afterwards persists the outcome keyed on
//! the session's final [`status::SessionStatus`].

pub mod cookie;
pub mod kv;
pub mod memory;
pub mod server_session;
pub mod session;
pub mod sid;
pub mod status;
pub mod storage;
