//! Cookie identifier codec: the session cookie in the request/response jar,
//! and the process-wide cookie configuration.
//!
//! These operations only touch the response-bound cookie jar; they never
//! touch storage.

use vstd::prelude::*;

use crate::kv::KvList;

verus! {

/// One cookie as it stands in a jar: its value and the attributes a
/// `Set-Cookie` header would carry.
pub struct Cookie {
    pub value: String,
    pub max_age_seconds: u64,
    pub secure: bool,
    pub http_only: bool,
}

/// The mathematical shape of a cookie.
pub struct CookieVal {
    pub value: Seq<char>,
    pub max_age_seconds: u64,
    pub secure: bool,
    pub http_only: bool,
}

impl View for Cookie {
    type V = CookieVal;

    open spec fn view(&self) -> CookieVal {
        CookieVal {
            value: self.value@,
            max_age_seconds: self.max_age_seconds,
            secure: self.secure,
            http_only: self.http_only,
        }
    }
}

/// The structured collection of cookies attached to a request or response.
pub type CookieJar = KvList<Cookie>;

/// A jar read as a map from cookie name to cookie shape.
pub open spec fn jar_view(jar: CookieJar) -> Map<Seq<char>, CookieVal> {
    jar@.map_values(|c: Cookie| c@)
}

/// Process-wide, immutable configuration of the session cookie: its name,
/// the TTL used both for cookie expiry and as the storage TTL hint, and the
/// security attributes written on every set.
pub struct CookieConfig {
    pub cookie_name: String,
    pub ttl_seconds: u64,
    pub secure: bool,
    pub http_only: bool,
}

impl CookieConfig {
    /// Build a configuration.
    pub fn new(cookie_name: String, ttl_seconds: u64, secure: bool, http_only: bool) -> (r: Self)
        ensures
            r.cookie_name == cookie_name,
            r.ttl_seconds == ttl_seconds,
            r.secure == secure,
            r.http_only == http_only,
    {
        CookieConfig { cookie_name, ttl_seconds, secure, http_only }
    }

    /// The TTL hint handed to the storage port.
    pub fn ttl(&self) -> (r: u64)
        ensures
            r == self.ttl_seconds,
    {
        self.ttl_seconds
    }

    /// The cookie this configuration writes for a given identifier.
    pub open spec fn cookie_for(self, id: Seq<char>) -> CookieVal {
        CookieVal {
            value: id,
            max_age_seconds: self.ttl_seconds,
            secure: self.secure,
            http_only: self.http_only,
        }
    }

    /// Read the session identifier from the inbound jar; absence yields
    /// `None` (a malformed inbound cookie is modelled as an absent one: a
    /// fresh session is silently created for it).
    pub fn get_cookie_value(&self, jar: &CookieJar) -> (r: Option<String>)
        requires
            jar.wf(),
        ensures
            match r {
                Some(s) => jar_view(*jar).contains_key(self.cookie_name@) && s@ == jar_view(
                    *jar,
                )[self.cookie_name@].value,
                None => !jar_view(*jar).contains_key(self.cookie_name@),
            },
    {
        match jar.get(&self.cookie_name) {
            Some(c) => Some(c.value.clone()),
            None => None,
        }
    }

    /// Insert or overwrite the session cookie with the given identifier and
    /// the configured TTL and security attributes.
    pub fn set_cookie_value(&self, jar: &mut CookieJar, id: &String)
        requires
            old(jar).wf(),
        ensures
            final(jar).wf(),
            jar_view(*final(jar)) == jar_view(*old(jar)).insert(
                self.cookie_name@,
                self.cookie_for(id@),
            ),
    {
        let cookie = Cookie {
            value: id.clone(),
            max_age_seconds: self.ttl_seconds,
            secure: self.secure,
            http_only: self.http_only,
        };
        jar.set(self.cookie_name.clone(), cookie);
        proof {
            assert(jar_view(*jar) =~= jar_view(*old(jar)).insert(
                self.cookie_name@,
                self.cookie_for(id@),
            ));
        }
    }

    /// Delete the session cookie from the outbound jar.
    pub fn remove_cookie(&self, jar: &mut CookieJar)
        requires
            old(jar).wf(),
        ensures
            final(jar).wf(),
            jar_view(*final(jar)) == jar_view(*old(jar)).remove(self.cookie_name@),
    {
        jar.remove(&self.cookie_name);
        proof {
            assert(jar_view(*jar) =~= jar_view(*old(jar)).remove(self.cookie_name@));
        }
    }
}

} // verus!
