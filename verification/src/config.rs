//! The backend's configuration (`backend.toml`) and its validation.
use vstd::prelude::*;

use crate::text::{cat3, chars_of, owned, str_eq};

verus! {

broadcast use vstd::string::group_string_axioms;

/// Top-level server configuration.
#[derive(Debug, Clone)]
pub struct BackendConfig {
    pub listen: String,
    pub base_path: String,
    pub request_timeout_secs: u64,
    pub log_request_tail: i64,
    /// One entry per exposed cluster (`[[connection]]`).
    pub connections: Vec<ConnectionConfig>,
}

/// One exposed cluster connection.
#[derive(Debug, Clone)]
pub struct ConnectionConfig {
    /// URL path segment selecting this connection (`/<id>/api/...`).
    pub id: String,
    pub name: String,
    /// Path to the kubeconfig on this host.
    pub kubeconfig: String,
    /// Context within that kubeconfig.
    pub context: String,
    /// Optional namespace scope; blank or `None` means all namespaces.
    pub namespace: Option<String>,
    /// When true, destructive verbs are refused.
    pub read_only: bool,
}

/// The default listen address.
pub fn default_listen() -> (r: String)
    ensures
        r@ == "127.0.0.1:8080"@,
{
    owned("127.0.0.1:8080")
}

/// The default base path.
pub fn default_base_path() -> (r: String)
    ensures
        r@ == "/"@,
{
    owned("/")
}

/// The default per-request timeout, in seconds.
pub fn default_timeout() -> (r: u64)
    ensures
        r == 15,
{
    15
}

/// The default number of trailing log lines.
pub fn default_tail() -> (r: i64)
    ensures
        r == 200,
{
    200
}

/// A character allowed anywhere in a connection id.
pub open spec fn id_char(c: char) -> bool {
    ('a' <= c && c <= 'z') || ('0' <= c && c <= '9') || c == '-'
}

/// A character allowed first in a connection id.
pub open spec fn id_start(c: char) -> bool {
    ('a' <= c && c <= 'z') || ('0' <= c && c <= '9')
}

/// `^[a-z0-9][a-z0-9-]{0,62}$`: a URL- and DNS-label-safe segment.
pub open spec fn valid_id(s: Seq<char>) -> bool {
    1 <= s.len() <= 63 && id_start(s[0]) && forall|i: int| 0 <= i < s.len() ==> id_char(
        #[trigger] s[i],
    )
}

/// Whether `id` matches `^[a-z0-9][a-z0-9-]{0,62}$`.
pub fn is_valid_id(id: &str) -> (r: bool)
    ensures
        r == valid_id(id@),
{
    let cs = chars_of(id);
    let len = cs.len();
    if len == 0 || len > 63 {
        return false;
    }
    let first = cs[0];
    if !(('a' <= first && first <= 'z') || ('0' <= first && first <= '9')) {
        return false;
    }
    let mut i: usize = 0;
    while i < len
        invariant
            cs@ == id@,
            len == cs.len(),
            i <= len,
            forall|j: int| 0 <= j < i ==> id_char(#[trigger] cs@[j]),
        decreases len - i,
    {
        let c = cs[i];
        if !(('a' <= c && c <= 'z') || ('0' <= c && c <= '9') || c == '-') {
            return false;
        }
        i += 1;
    }
    true
}

/// The refusal of the reserved id.
pub open spec fn reserved_id_msg() -> Seq<char> {
    "connection id must not be 'api' (it would collide with the /<id>/api/ route)"@
}

/// The refusal of an id that does not match the id pattern.
pub open spec fn invalid_id_msg(id: Seq<char>) -> Seq<char> {
    "invalid connection id '"@ + id + "': must match ^[a-z0-9][a-z0-9-]{0,62}$"@
}

/// The refusal of an id that an earlier connection already uses.
pub open spec fn duplicate_id_msg(id: Seq<char>) -> Seq<char> {
    "duplicate connection id '"@ + id + "'"@
}

/// The ids of a list of connections.
pub open spec fn ids_of(cs: Seq<ConnectionConfig>) -> Seq<Seq<char>> {
    cs.map_values(|c: ConnectionConfig| c.id@)
}

/// What is wrong with the `i`-th id, given the ids before it (all of which
/// were accepted), if anything.
pub open spec fn problem_at(ids: Seq<Seq<char>>, i: int) -> Option<Seq<char>> {
    if ids[i] == "api"@ {
        Some(reserved_id_msg())
    } else if !valid_id(ids[i]) {
        Some(invalid_id_msg(ids[i]))
    } else if exists|j: int| 0 <= j < i && ids[j] == ids[i] {
        Some(duplicate_id_msg(ids[i]))
    } else {
        None
    }
}

/// Every id is accepted.
pub open spec fn all_ids_ok(ids: Seq<Seq<char>>) -> bool {
    forall|i: int| 0 <= i < ids.len() ==> problem_at(ids, i) is None
}

/// The outcome expected of validating `ids`: success when every id is
/// accepted, otherwise the problem of the first refused id.
pub open spec fn validation_ok(ids: Seq<Seq<char>>, r: Result<(), String>) -> bool {
    match r {
        Ok(_) => all_ids_ok(ids),
        Err(m) => exists|i: int|
            0 <= i < ids.len() && problem_at(ids, i) == Some(m@) && forall|j: int|
                0 <= j < i ==> problem_at(ids, j) is None,
    }
}

impl BackendConfig {
    /// Check every connection id: not the reserved "api", matching the id
    /// pattern, and not used by an earlier connection. The first refused id
    /// is reported.
    pub fn validate(&self) -> (r: Result<(), String>)
        ensures
            validation_ok(ids_of(self.connections@), r),
    {
        let ghost ids = ids_of(self.connections@);
        let mut seen: Vec<String> = Vec::new();
        let mut i: usize = 0;
        while i < self.connections.len()
            invariant
                ids == ids_of(self.connections@),
                i <= self.connections.len(),
                seen@.len() == i,
                forall|j: int| 0 <= j < i ==> (#[trigger] seen@[j])@ == ids[j],
                forall|j: int| 0 <= j < i ==> problem_at(ids, j) is None,
            decreases self.connections.len() - i,
        {
            let id = &self.connections[i].id;
            assert(id@ == ids[i as int]);
            if str_eq(id.as_str(), "api") {
                assert(problem_at(ids, i as int) == Some(reserved_id_msg()));
                return Err(owned(
                    "connection id must not be 'api' (it would collide with the /<id>/api/ route)",
                ));
            }
            if !is_valid_id(id.as_str()) {
                assert(problem_at(ids, i as int) == Some(invalid_id_msg(id@)));
                return Err(cat3(
                    "invalid connection id '",
                    id.as_str(),
                    "': must match ^[a-z0-9][a-z0-9-]{0,62}$",
                ));
            }
            let mut k: usize = 0;
            while k < seen.len()
                invariant
                    ids == ids_of(self.connections@),
                    i < self.connections.len(),
                    id@ == ids[i as int],
                    id@ != "api"@,
                    valid_id(id@),
                    forall|j: int| 0 <= j < i ==> problem_at(ids, j) is None,
                    seen@.len() == i,
                    k <= seen.len(),
                    forall|j: int| 0 <= j < i ==> (#[trigger] seen@[j])@ == ids[j],
                    forall|j: int| 0 <= j < k ==> ids[j] != id@,
                decreases seen.len() - k,
            {
                if str_eq(seen[k].as_str(), id.as_str()) {
                    assert(ids[k as int] == ids[i as int]);
                    assert(problem_at(ids, i as int) == Some(duplicate_id_msg(id@)));
                    return Err(cat3("duplicate connection id '", id.as_str(), "'"));
                }
                k += 1;
            }
            assert(problem_at(ids, i as int) is None);
            seen.push(id.clone());
            i += 1;
        }
        Ok(())
    }

    /// The position of the connection with id `id`, if one is configured.
    pub fn connection_index(&self, id: &str) -> (r: Option<usize>)
        ensures
            r matches Some(i) ==> i < self.connections@.len() && self.connections@[i as int].id@
                == id@ && forall|j: int| 0 <= j < i ==> self.connections@[j].id@ != id@,
            r is None ==> forall|j: int|
                0 <= j < self.connections@.len() ==> self.connections@[j].id@ != id@,
    {
        let mut i: usize = 0;
        while i < self.connections.len()
            invariant
                i <= self.connections.len(),
                forall|j: int| 0 <= j < i ==> self.connections@[j].id@ != id@,
            decreases self.connections.len() - i,
        {
            if str_eq(self.connections[i].id.as_str(), id) {
                return Some(i);
            }
            i += 1;
        }
        None
    }
}

/// A configuration that validates has distinct, well-formed ids, none of
/// which is the reserved "api".
pub proof fn law_validated_ids_are_distinct(ids: Seq<Seq<char>>)
    requires
        all_ids_ok(ids),
    ensures
        forall|i: int, j: int| 0 <= i < j < ids.len() ==> ids[i] != ids[j],
        forall|i: int| 0 <= i < ids.len() ==> valid_id(#[trigger] ids[i]) && ids[i] != "api"@,
{
    assert forall|i: int, j: int| 0 <= i < j < ids.len() implies ids[i] != ids[j] by {
        assert(problem_at(ids, j) is None);
    }
    assert forall|i: int| 0 <= i < ids.len() implies valid_id(#[trigger] ids[i]) && ids[i]
        != "api"@ by {
        assert(problem_at(ids, i) is None);
    }
}

/// A connection id is valid exactly when it has 1 to 63 characters, each a
/// lower-case ASCII letter, an ASCII digit or '-', and does not start with
/// '-'. So an id with any other character (a '.', an upper-case letter, a
/// space) is refused, and so is an empty one.
pub proof fn law_valid_ids_are_lowercase_alnum_dash(s: Seq<char>)
    ensures
        valid_id(s) == (1 <= s.len() <= 63 && s[0] != '-' && forall|i: int|
            0 <= i < s.len() ==> (('a' as int) <= (#[trigger] s[i] as int) <= ('z' as int)) || (
            ('0' as int) <= (s[i] as int) <= ('9' as int)) || s[i] == '-'),
        (exists|i: int| 0 <= i < s.len() && #[trigger] s[i] == '.') ==> !valid_id(s),
{
    if valid_id(s) {
        assert forall|i: int| 0 <= i < s.len() implies (('a' as int) <= (#[trigger] s[i] as int)
            <= ('z' as int)) || (('0' as int) <= (s[i] as int) <= ('9' as int)) || s[i] == '-' by {
            assert(id_char(s[i]));
        }
        if exists|i: int| 0 <= i < s.len() && #[trigger] s[i] == '.' {
            let i = choose|i: int| 0 <= i < s.len() && #[trigger] s[i] == '.';
            assert(id_char(s[i]));
        }
    }
    if 1 <= s.len() <= 63 && s[0] != '-' && forall|i: int|
        0 <= i < s.len() ==> (('a' as int) <= (#[trigger] s[i] as int) <= ('z' as int)) || (('0' as int)
            <= (s[i] as int) <= ('9' as int)) || s[i] == '-' {
        assert forall|i: int| 0 <= i < s.len() implies id_char(#[trigger] s[i]) by {
            assert((('a' as int) <= (s[i] as int) <= ('z' as int)) || (('0' as int) <= (s[i] as int)
                <= ('9' as int)) || s[i] == '-');
        }
        assert(id_char(s[0]));
    }
}

} // verus!
