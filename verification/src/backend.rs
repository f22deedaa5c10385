//! The decisions of the backend's HTTP layer: namespace scope resolution,
//! the read-only gate, error responses, the loopback warning, and the cache
//! that keeps each connection's client once it is built.
use vstd::prelude::*;

use crate::config::ConnectionConfig;
use crate::error::{message_of, status_of, CoreError};
use crate::kinds::{normalize_scope, opt_view, scope_spec};
use crate::text::{cat, cat3, chars_of, owned, push_chars, str_eq};

verus! {

broadcast use vstd::string::group_string_axioms;

/// The JSON body of an error response.
#[derive(Debug, Clone)]
pub struct ErrorBody {
    pub error: String,
}

/// An error from a request handler.
#[derive(Debug, Clone)]
pub enum ApiError {
    /// No connection with that id is configured.
    UnknownConnection(String),
    /// The connection is read-only and a destructive verb was attempted.
    ReadOnly,
    /// A Kubernetes operation failed.
    Core(CoreError),
}

impl From<CoreError> for ApiError {
    fn from(e: CoreError) -> (r: ApiError) {
        ApiError::Core(e)
    }
}

impl vstd::std_specs::convert::FromSpecImpl<CoreError> for ApiError {
    open spec fn obeys_from_spec() -> bool {
        true
    }

    open spec fn from_spec(e: CoreError) -> ApiError {
        ApiError::Core(e)
    }
}

/// The status and message an error is answered with.
pub open spec fn response_spec(e: ApiError) -> (u16, Seq<char>) {
    match e {
        ApiError::UnknownConnection(id) => (404, "Unknown connection '"@ + id@ + "'"@),
        ApiError::ReadOnly => (403, "This connection is read-only"@),
        ApiError::Core(c) => (status_of(c), message_of(c)),
    }
}

impl ApiError {
    /// The HTTP status and the `{error}` body text of this error.
    pub fn status_and_body(&self) -> (r: (u16, ErrorBody))
        ensures
            r.0 == response_spec(*self).0,
            r.1.error@ == response_spec(*self).1,
    {
        match self {
            ApiError::UnknownConnection(id) => (
                404,
                ErrorBody { error: cat3("Unknown connection '", id.as_str(), "'") },
            ),
            ApiError::ReadOnly => (403, ErrorBody { error: owned("This connection is read-only") }),
            ApiError::Core(e) => (e.http_status(), ErrorBody { error: e.to_string() }),
        }
    }
}

/// A refused Kubernetes operation is answered with the same text the desktop
/// shows for it locally.
pub proof fn law_remote_error_text_matches_local(e: CoreError)
    ensures
        response_spec(ApiError::Core(e)).1 == message_of(e),
        response_spec(ApiError::Core(e)).0 == status_of(e),
{
}

/// The body of the answer to a path no route matches.
pub fn fallback_body(uri: &str) -> (r: ErrorBody)
    ensures
        r.error@ == "No route for "@ + uri@,
{
    ErrorBody { error: cat("No route for ", uri) }
}

/// The namespace scope of a request: an explicit query (even "All") wins,
/// otherwise the connection's configured namespace; both normalized.
pub open spec fn resolve_ns_spec(query: Option<Seq<char>>, configured: Option<Seq<char>>) -> Option<
    Seq<char>,
> {
    match query {
        Some(q) => scope_spec(Some(q)),
        None => scope_spec(configured),
    }
}

/// Resolve the namespace scope of a request for connection `cfg`.
pub fn resolve_ns(query: Option<String>, cfg: &ConnectionConfig) -> (r: Option<String>)
    ensures
        opt_view(r) == resolve_ns_spec(opt_view(query), opt_view(cfg.namespace)),
{
    match query {
        Some(ns) => normalize_scope(Some(ns)),
        None => normalize_scope(crate::text::clone_opt(&cfg.namespace)),
    }
}

/// The answer of the write guard for a connection: refused exactly when the
/// connection is read-only.
pub open spec fn guard_spec(cfg: ConnectionConfig) -> Result<(), ApiError> {
    if cfg.read_only {
        Err(ApiError::ReadOnly)
    } else {
        Ok(())
    }
}

/// Refuse a destructive verb on a read-only connection.
pub fn guard_writable(cfg: &ConnectionConfig) -> (r: Result<(), ApiError>)
    ensures
        r == guard_spec(*cfg),
{
    if cfg.read_only {
        Err(ApiError::ReadOnly)
    } else {
        Ok(())
    }
}

/// The trailing-line count of a logs request: the query's, else the
/// configured default.
pub fn log_tail(query: Option<i64>, configured: i64) -> (r: i64)
    ensures
        r == match query {
            Some(t) => t,
            None => configured,
        },
{
    match query {
        Some(t) => t,
        None => configured,
    }
}

/// The position of the last ':' in `s`, if any.
pub open spec fn last_colon(s: Seq<char>) -> Option<int>
    decreases s.len(),
{
    if s.len() == 0 {
        None
    } else if s.last() == ':' {
        Some(s.len() - 1)
    } else {
        last_colon(s.drop_last())
    }
}

/// The host part of a listen address: everything before its last ':' (the
/// whole text when there is none).
pub open spec fn host_part(s: Seq<char>) -> Seq<char> {
    match last_colon(s) {
        Some(i) => s.subrange(0, i),
        None => s,
    }
}

/// Whether a listen address that does not parse as a socket address names a
/// loopback host.
pub open spec fn loopback_name_spec(listen: Seq<char>) -> bool {
    let h = host_part(listen);
    h == "127.0.0.1"@ || h == "localhost"@ || h == "::1"@
}

proof fn lemma_last_colon_scan(s: Seq<char>, k: int)
    requires
        0 <= k <= s.len(),
        forall|j: int| k <= j < s.len() ==> s[j] != ':',
    ensures
        last_colon(s) == last_colon(s.subrange(0, k)),
    decreases s.len() - k,
{
    if k < s.len() {
        let t = s.drop_last();
        assert forall|j: int| k <= j < t.len() implies t[j] != ':' by {
            assert(t[j] == s[j]);
        }
        lemma_last_colon_scan(t, k);
        assert(t.subrange(0, k) =~= s.subrange(0, k));
    } else {
        assert(s.subrange(0, k) =~= s);
    }
}

/// The host part of a listen address.
pub fn host_of(listen: &str) -> (r: String)
    ensures
        r@ == host_part(listen@),
{
    let cs = chars_of(listen);
    let mut k: usize = cs.len();
    while k > 0 && cs[k - 1] != ':'
        invariant
            cs@ == listen@,
            k <= cs.len(),
            forall|j: int| k <= j < cs.len() ==> cs@[j] != ':',
        decreases k,
    {
        k -= 1;
    }
    proof {
        lemma_last_colon_scan(listen@, k as int);
        if k > 0 {
            let t = listen@.subrange(0, k as int);
            assert(t.last() == ':');
        }
    }
    let mut r = String::new();
    if k > 0 {
        push_chars(&mut r, &cs, 0, k - 1);
        proof {
            let t = listen@.subrange(0, k as int);
            assert(last_colon(t) == Some(k - 1));
        }
        assert(r@ =~= host_part(listen@));
    } else {
        push_chars(&mut r, &cs, 0, cs.len());
        assert(listen@.subrange(0, 0) =~= Seq::<char>::empty());
        assert(r@ =~= host_part(listen@));
    }
    r
}

/// Whether a listen address that is not a socket address names a loopback
/// host ("127.0.0.1", "localhost" or "::1" before the port).
pub fn is_loopback_name(listen: &str) -> (r: bool)
    ensures
        r == loopback_name_spec(listen@),
{
    let h = host_of(listen);
    str_eq(h.as_str(), "127.0.0.1") || str_eq(h.as_str(), "localhost") || str_eq(h.as_str(), "::1")
}

/// The error of a connection whose kubeconfig file could not be read: a
/// kubeconfig error naming the file.
pub fn kubeconfig_read_failure(path: &str, error: &str) -> (r: CoreError)
    ensures
        r matches CoreError::Kubeconfig(m) && m@ == "kubeconfig error reading "@ + path@ + ": "@
            + error@,
{
    let mut m = crate::text::cat3("kubeconfig error reading ", path, ": ");
    crate::text::push_str(&mut m, error);
    CoreError::Kubeconfig(m)
}

/// On a read-only connection a destructive verb (delete, restart, edit) is
/// refused and answered with 403 and the read-only message; on any other
/// connection it passes the guard.
pub proof fn law_read_only_refusal(cfg: ConnectionConfig)
    ensures
        cfg.read_only ==> (guard_spec(cfg) matches Err(e) && response_spec(e) == (
            403u16,
            "This connection is read-only"@,
        )),
        !cfg.read_only ==> guard_spec(cfg) is Ok,
{
}

/// A configured connection's client: none until the first request builds
/// one, then that one for every later request. A build that fails leaves
/// the slot empty, so the next request builds again.
pub struct ClientSlot<C> {
    client: Option<C>,
}

impl<C> ClientSlot<C> {
    /// The client held, if one was built.
    pub closed spec fn held(&self) -> Option<C> {
        self.client
    }

    /// An empty slot: no client built yet.
    pub fn new() -> (r: Self)
        ensures
            r.held() is None,
    {
        ClientSlot { client: None }
    }

    /// The client held, if one was built.
    pub fn get(&self) -> (r: Option<&C>)
        ensures
            (r is Some) == (self.held() is Some),
            r matches Some(c) ==> self.held() == Some(*c),
    {
        self.client.as_ref()
    }

    /// Keep the client a build gave, or give back the build's error and keep
    /// nothing.
    pub fn fill<E>(&mut self, built: Result<C, E>) -> (r: Option<E>)
        requires
            old(self).held() is None,
        ensures
            match built {
                Ok(c) => final(self).held() == Some(c) && r is None,
                Err(e) => final(self).held() is None && r == Some(e),
            },
    {
        match built {
            Ok(c) => {
                self.client = Some(c);
                None
            },
            Err(e) => Some(e),
        }
    }
}

} // verus!
