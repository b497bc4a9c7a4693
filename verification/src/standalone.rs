use vstd::prelude::*;
use crate::server::text::str_eq;

verus! {

/// The command line of the single-process server.
pub struct Args {
    pub sign: bool,
    pub port: u16,
    pub config_path: String,
    pub log_level: String,
    pub log_path: String,
}

/// A package listed in the single-process server's configuration.
pub struct PackageConfig {
    pub name: String,
    pub run_before: Option<String>,
}

/// The single-process server's configuration.
pub struct Config {
    pub repo_name: Option<String>,
    pub apikey: Option<String>,
    pub packages: Vec<PackageConfig>,
    pub rebuild_time: Option<u64>,
}

/// Answer that only says whether a request succeeded.
pub struct BasicResultResponse {
    pub ok: bool,
}

/// Answer of a failed request, with the error.
pub struct BasicErrorResponse {
    pub ok: bool,
    pub error: String,
}

/// The single-process server's API key check: with a key set, a request passes when
/// its `apikey` query parameter or its `Authorization` header equals the
/// key; with no key set every request passes.
pub struct Auth {
    pub apikey: Option<String>,
}

/// The check as it runs in front of the routes.
pub struct AuthMiddleware {
    apikey: Option<String>,
}

/// Whether a request passes the single-process server's key check.
pub open spec fn key_authorized(apikey: Option<Seq<char>>, query_key: Option<Seq<char>>, header: Option<Seq<char>>) -> bool {
    match apikey {
        None => true,
        Some(k) => query_key == Some(k) || header == Some(k),
    }
}

impl Auth {
    pub fn new_transform(&self) -> (m: AuthMiddleware)
        ensures
            m.key().deep_view() == self.apikey.deep_view(),
    {
        AuthMiddleware { apikey: crate::server::text::clone_opt_string(&self.apikey) }
    }
}

impl AuthMiddleware {
    pub closed spec fn key(&self) -> Option<String> {
        self.apikey
    }

    /// Whether a request with this `apikey` query parameter and this
    /// `Authorization` header passes; see `key_authorized`.
    pub fn call(&self, query_key: Option<&str>, header: Option<&str>) -> (r: bool)
        ensures
            r == key_authorized(self.key().deep_view(),
                match query_key { Some(q) => Some(q@), None => None },
                match header { Some(h) => Some(h@), None => None }),
    {
        match &self.apikey {
            None => true,
            Some(key) => {
                let by_query = match query_key {
                    Some(q) => str_eq(q, key.as_str()),
                    None => false,
                };
                let by_header = match header {
                    Some(h) => str_eq(h, key.as_str()),
                    None => false,
                };
                by_query || by_header
            },
        }
    }
}

} // verus!
