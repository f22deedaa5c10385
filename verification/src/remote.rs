//! The desktop's HTTP transport to a `kubefront-backend`: endpoint and URL
//! shaping, query values, error text, and the framing of the server-sent log
//! stream (one JSON `LogEvent` per `data:` line).
use vstd::prelude::*;

use crate::backend::{response_spec, ApiError};
use crate::dto::LogEvent;
use crate::error::{message_of, CoreError};
use crate::logstream::{ended_view, event_view};
use crate::text::{
    chars_of, decimal, owned, push_chars, push_str, push_u64, trim_start_spec, is_whitespace,
};

verus! {

broadcast use vstd::string::group_string_axioms;

/// `s` without its trailing '/' characters.
pub open spec fn trim_slashes(s: Seq<char>) -> Seq<char>
    decreases s.len(),
{
    if s.len() > 0 && s.last() == '/' {
        trim_slashes(s.drop_last())
    } else {
        s
    }
}

proof fn lemma_trim_slashes_at(s: Seq<char>, end: int)
    requires
        0 <= end <= s.len(),
        forall|j: int| end <= j < s.len() ==> s[j] == '/',
        end == 0 || s[end - 1] != '/',
    ensures
        trim_slashes(s) == s.subrange(0, end),
    decreases s.len(),
{
    if s.len() > end {
        let t = s.drop_last();
        assert forall|j: int| end <= j < t.len() implies t[j] == '/' by {
            assert(t[j] == s[j]);
        }
        if end > 0 {
            assert(t[end - 1] == s[end - 1]);
        }
        lemma_trim_slashes_at(t, end);
        assert(t.subrange(0, end) =~= s.subrange(0, end));
    } else {
        assert(s.subrange(0, end) =~= s);
    }
}

/// The base URL a connection is pinned at: the endpoint without trailing
/// slashes, so routes can be appended as `/api/...`.
pub fn endpoint_base(endpoint: &str) -> (r: String)
    ensures
        r@ == trim_slashes(endpoint@),
{
    let cs = chars_of(endpoint);
    let mut end = cs.len();
    while end > 0 && cs[end - 1] == '/'
        invariant
            cs@ == endpoint@,
            end <= cs.len(),
            forall|j: int| end <= j < cs.len() ==> cs@[j] == '/',
        decreases end,
    {
        end -= 1;
    }
    proof {
        lemma_trim_slashes_at(endpoint@, end as int);
    }
    let mut r = String::new();
    push_chars(&mut r, &cs, 0, end);
    r
}

/// The URL of a route below a base URL.
pub fn url(base: &str, path: &str) -> (r: String)
    ensures
        r@ == base@ + path@,
{
    let mut r = owned(base);
    push_str(&mut r, path);
    r
}

/// The value of the `namespace` query parameter for a normalized scope:
/// "All" (cluster-wide, which the backend normalizes back to no scope) when
/// there is none.
pub fn ns_param(namespace: Option<&str>) -> (r: &str)
    ensures
        r@ == match namespace {
            Some(n) => n@,
            None => "All"@,
        },
{
    match namespace {
        Some(n) => n,
        None => "All",
    }
}

/// The message shown when the backend's error body cannot be read.
pub open spec fn http_fallback_spec(status: u16) -> Seq<char> {
    "backend returned HTTP "@ + decimal(status as nat)
}

/// The text the desktop shows for a failed backend request: the `{error}`
/// message of the body when there is one, else the HTTP status.
pub open spec fn backend_error_spec(body_error: Option<Seq<char>>, status: u16) -> Seq<char> {
    match body_error {
        Some(e) => e,
        None => http_fallback_spec(status),
    }
}

/// The backend's `{error}` message when it sent one, else the HTTP status.
pub fn backend_error_text(body_error: Option<String>, status: u16) -> (r: String)
    ensures
        r@ == backend_error_spec(
            match body_error {
                Some(e) => Some(e@),
                None => None,
            },
            status,
        ),
{
    match body_error {
        Some(e) => e,
        None => {
            let mut m = owned("backend returned HTTP ");
            push_u64(&mut m, status as u64);
            m
        },
    }
}

/// `s` without its trailing '\r' and '\n' characters.
pub open spec fn trim_eol(s: Seq<char>) -> Seq<char>
    decreases s.len(),
{
    if s.len() > 0 && (s.last() == '\r' || s.last() == '\n') {
        trim_eol(s.drop_last())
    } else {
        s
    }
}

proof fn lemma_trim_eol_at(s: Seq<char>, end: int)
    requires
        0 <= end <= s.len(),
        forall|j: int| end <= j < s.len() ==> (s[j] == '\r' || s[j] == '\n'),
        end == 0 || (s[end - 1] != '\r' && s[end - 1] != '\n'),
    ensures
        trim_eol(s) == s.subrange(0, end),
    decreases s.len(),
{
    if s.len() > end {
        let t = s.drop_last();
        assert forall|j: int| end <= j < t.len() implies (t[j] == '\r' || t[j] == '\n') by {
            assert(t[j] == s[j]);
        }
        if end > 0 {
            assert(t[end - 1] == s[end - 1]);
        }
        lemma_trim_eol_at(t, end);
        assert(t.subrange(0, end) =~= s.subrange(0, end));
    } else {
        assert(s.subrange(0, end) =~= s);
    }
}

/// The payload of one line of a server-sent event stream: the text after a
/// `data:` prefix (line ending and leading whitespace removed), when the line
/// has that prefix and a non-empty payload.
pub open spec fn sse_payload_spec(line: Seq<char>) -> Option<Seq<char>> {
    let l = trim_eol(line);
    if l.len() >= 5 && l.subrange(0, 5) == "data:"@ {
        let d = trim_start_spec(l.subrange(5, l.len() as int));
        if d.len() > 0 {
            Some(d)
        } else {
            None
        }
    } else {
        None
    }
}

/// The JSON payload carried by one SSE line, if any.
pub fn sse_payload(line: &str) -> (r: Option<String>)
    ensures
        match r {
            Some(p) => sse_payload_spec(line@) == Some(p@),
            None => sse_payload_spec(line@) is None,
        },
{
    proof {
        reveal_strlit("data:");
    }
    let cs = chars_of(line);
    let mut end = cs.len();
    while end > 0 && (cs[end - 1] == '\r' || cs[end - 1] == '\n')
        invariant
            cs@ == line@,
            end <= cs.len(),
            forall|j: int| end <= j < cs.len() ==> (cs@[j] == '\r' || cs@[j] == '\n'),
        decreases end,
    {
        end -= 1;
    }
    proof {
        lemma_trim_eol_at(line@, end as int);
    }
    let ghost l = line@.subrange(0, end as int);
    if end < 5 || cs[0] != 'd' || cs[1] != 'a' || cs[2] != 't' || cs[3] != 'a' || cs[4] != ':' {
        proof {
            if l.len() >= 5 {
                assert(l.subrange(0, 5)[0] == l[0]);
                assert(l.subrange(0, 5)[1] == l[1]);
                assert(l.subrange(0, 5)[2] == l[2]);
                assert(l.subrange(0, 5)[3] == l[3]);
                assert(l.subrange(0, 5)[4] == l[4]);
            }
        }
        return None;
    }
    assert(l.subrange(0, 5) =~= "data:"@);
    let mut a: usize = 5;
    while a < end && is_whitespace(cs[a])
        invariant
            cs@ == line@,
            5 <= a <= end <= cs.len(),
            l == line@.subrange(0, end as int),
            trim_start_spec(l.subrange(5, end as int)) == trim_start_spec(
                l.subrange(a as int, end as int),
            ),
        decreases end - a,
    {
        proof {
            let u = l.subrange(a as int, end as int);
            assert(u.len() > 0 && crate::text::is_ws(u[0]));
            assert(u.drop_first() =~= l.subrange(a + 1, end as int));
        }
        a += 1;
    }
    proof {
        let u = l.subrange(a as int, end as int);
        assert(u.len() == 0 || !crate::text::is_ws(u[0]));
    }
    if a == end {
        assert(l.subrange(a as int, end as int).len() == 0);
        return None;
    }
    let mut p = String::new();
    push_chars(&mut p, &cs, a, end);
    assert(p@ =~= l.subrange(a as int, end as int));
    Some(p)
}

/// Takes the first complete line (through its '\n') off the front of a byte
/// buffer; `None`, with the buffer unchanged, while no line is complete.
pub fn take_line(buf: &mut Vec<u8>) -> (r: Option<Vec<u8>>)
    ensures
        match r {
            Some(line) => exists|pos: int|
                0 <= pos < old(buf)@.len() && old(buf)@[pos] == 10 && (forall|j: int|
                    0 <= j < pos ==> old(buf)@[j] != 10) && line@ == old(buf)@.subrange(
                    0,
                    pos + 1,
                ) && final(buf)@ == old(buf)@.subrange(pos + 1, old(buf)@.len() as int),
            None => (forall|j: int| 0 <= j < old(buf)@.len() ==> old(buf)@[j] != 10)
                && final(buf)@ == old(buf)@,
        },
{
    let mut pos: usize = 0;
    while pos < buf.len() && buf[pos] != 10u8
        invariant
            pos <= buf.len(),
            forall|j: int| 0 <= j < pos ==> buf@[j] != 10,
        decreases buf.len() - pos,
    {
        pos += 1;
    }
    if pos == buf.len() {
        return None;
    }
    let mut line: Vec<u8> = Vec::new();
    let mut rest: Vec<u8> = Vec::new();
    let mut i: usize = 0;
    while i < buf.len()
        invariant
            pos < buf.len(),
            i <= buf.len(),
            i <= pos + 1 ==> line@ == buf@.subrange(0, i as int) && rest@.len() == 0,
            i > pos + 1 ==> line@ == buf@.subrange(0, pos + 1) && rest@ == buf@.subrange(
                pos + 1,
                i as int,
            ),
        decreases buf.len() - i,
    {
        if i <= pos {
            line.push(buf[i]);
        } else {
            rest.push(buf[i]);
        }
        i += 1;
    }
    *buf = rest;
    Some(line)
}

/// Trimming the trailing slashes of a base URL twice changes nothing more.
pub proof fn law_endpoint_base_idempotent(s: Seq<char>)
    ensures
        trim_slashes(trim_slashes(s)) == trim_slashes(s),
    decreases s.len(),
{
    if s.len() > 0 && s.last() == '/' {
        law_endpoint_base_idempotent(s.drop_last());
    }
}

/// The framing of the log stream round-trips: a `data:` line (with or
/// without a space after the colon) carrying a one-line payload that does
/// not start with whitespace yields exactly that payload.
pub proof fn law_sse_frame_round_trip(payload: Seq<char>, spaced: bool)
    requires
        payload.len() > 0,
        !crate::text::is_ws(payload[0]),
        forall|i: int| 0 <= i < payload.len() ==> payload[i] != '\r' && payload[i] != '\n',
    ensures
        sse_payload_spec((if spaced { "data: "@ } else { "data:"@ }) + payload + "\n"@) == Some(
            payload,
        ),
{
    reveal_strlit("data: ");
    reveal_strlit("data:");
    reveal_strlit("\n");
    let prefix = if spaced { "data: "@ } else { "data:"@ };
    let line = prefix + payload + "\n"@;
    let body = prefix + payload;
    assert(line.subrange(0, body.len() as int) =~= body);
    lemma_trim_eol_at(line, body.len() as int);
    assert(trim_eol(line) == body);
    assert(body.subrange(0, 5) =~= "data:"@);
    let rest = body.subrange(5, body.len() as int);
    if spaced {
        assert(rest =~= seq![' '] + payload);
        assert(rest.len() > 0 && crate::text::is_ws(rest[0]));
        assert(rest.drop_first() =~= payload);
        assert(trim_start_spec(rest) == trim_start_spec(payload));
    } else {
        assert(rest =~= payload);
    }
    assert(trim_start_spec(payload) == payload);
}

/// A refused operation reads the same on a remote connection as on a
/// direct one: the backend answers with the error's own text, and the
/// desktop shows the answer's text.
pub proof fn law_remote_failure_reads_as_local(e: CoreError)
    ensures
        backend_error_spec(
            Some(response_spec(ApiError::Core(e)).1),
            response_spec(ApiError::Core(e)).0,
        ) == message_of(e),
{
}

/// `String::from_utf8_lossy(bytes)`: the text of `bytes`, with each invalid
/// sequence replaced by U+FFFD.
pub uninterp spec fn utf8_lossy(bytes: Seq<u8>) -> Seq<char>;

/// `String::from_utf8_lossy(bytes).into_owned()`. Claims that the result is
/// the named lossy decoding of exactly these bytes, and, as std documents,
/// that valid UTF-8 is decoded unchanged.
#[verifier::external_body]
fn decode_lossy(bytes: &[u8]) -> (r: String)
    ensures
        r@ == utf8_lossy(bytes@),
        vstd::utf8::valid_utf8(bytes@) ==> r@ == vstd::utf8::decode_utf8(bytes@),
{
    String::from_utf8_lossy(bytes).into_owned()
}

/// The lines `ls`, each followed by a '\n'.
pub open spec fn joined_lines(ls: Seq<Seq<u8>>) -> Seq<u8>
    decreases ls.len(),
{
    if ls.len() == 0 {
        Seq::empty()
    } else {
        joined_lines(ls.drop_last()) + ls.last() + seq![10u8]
    }
}

/// `b` holds no '\n'.
pub open spec fn no_newline(b: Seq<u8>) -> bool {
    forall|j: int| 0 <= j < b.len() ==> b[j] != 10
}

/// Feed one chunk of the log stream's body into the line buffer: every line
/// that the chunk completes is taken off the buffer and returned, decoded
/// lossily and without its '\n'; the incomplete rest stays buffered.
pub fn sse_feed(buf: &mut Vec<u8>, chunk: &[u8]) -> (lines: Vec<String>)
    requires
        old(buf)@.len() + chunk@.len() <= usize::MAX,
    ensures
        no_newline(final(buf)@),
        exists|ls: Seq<Seq<u8>>|
            {
                &&& ls.len() == lines@.len()
                &&& old(buf)@ + chunk@ == joined_lines(ls) + final(buf)@
                &&& forall|i: int|
                    0 <= i < ls.len() ==> no_newline(#[trigger] ls[i]) && lines@[i]@ == utf8_lossy(
                        ls[i],
                    )
            },
{
    let ghost total = old(buf)@ + chunk@;
    let mut i: usize = 0;
    while i < chunk.len()
        invariant
            i <= chunk.len(),
            buf@ == old(buf)@ + chunk@.subrange(0, i as int),
            old(buf)@.len() + chunk@.len() <= usize::MAX,
        decreases chunk.len() - i,
    {
        buf.push(chunk[i]);
        i += 1;
        assert(buf@ =~= old(buf)@ + chunk@.subrange(0, i as int));
    }
    assert(chunk@.subrange(0, chunk@.len() as int) =~= chunk@);
    let mut out: Vec<String> = Vec::new();
    let ghost mut ls: Seq<Seq<u8>> = Seq::empty();
    assert(joined_lines(ls) + buf@ =~= total);
    loop
        invariant
            total == joined_lines(ls) + buf@,
            ls.len() == out@.len(),
            forall|k: int|
                0 <= k < ls.len() ==> no_newline(#[trigger] ls[k]) && out@[k]@ == utf8_lossy(ls[k]),
        ensures
            no_newline(buf@),
            total == joined_lines(ls) + buf@,
            ls.len() == out@.len(),
            forall|k: int|
                0 <= k < ls.len() ==> no_newline(#[trigger] ls[k]) && out@[k]@ == utf8_lossy(ls[k]),
        decreases buf@.len(),
    {
        let ghost before = buf@;
        match take_line(buf) {
            None => {
                break;
            },
            Some(line) => {
                let ghost pos: int = line@.len() - 1;
                assert(0 <= pos < before.len() && before[pos] == 10 && line@ == before.subrange(0, pos + 1)
                    && buf@ == before.subrange(pos + 1, before.len() as int));
                let mut body: Vec<u8> = Vec::new();
                let mut k: usize = 0;
                while k + 1 < line.len()
                    invariant
                        line@.len() >= 1,
                        k + 1 <= line.len(),
                        body@ == line@.subrange(0, k as int),
                    decreases line.len() - k,
                {
                    body.push(line[k]);
                    k += 1;
                    assert(body@ =~= line@.subrange(0, k as int));
                }
                let text = decode_lossy(body.as_slice());
                proof {
                    assert(body@ =~= before.subrange(0, pos));
                    let ls2 = ls.push(body@);
                    assert(ls2.drop_last() =~= ls);
                    assert(before =~= body@ + seq![10u8] + buf@);
                    assert(joined_lines(ls2) + buf@ =~= joined_lines(ls) + before);
                    ls = ls2;
                }
                out.push(text);
            },
        }
    }
    proof {
        assert(total == joined_lines(ls) + buf@);
    }
    out
}

/// How a stream from the backend ended.
#[derive(Debug, Clone)]
pub enum RemoteLogEnd {
    /// The backend answered with a failure status; its error text.
    Refused(String),
    /// The request could not be made; the client's message.
    RequestFailed(String),
    /// Reading the body failed; the client's message.
    ChunkFailed(String),
    /// The body ended.
    Finished,
}

/// The events that close a stream from the backend: the failure, if any, as
/// one error event, and then always a final `ended`.
pub open spec fn remote_end_spec(end: RemoteLogEnd) -> Seq<(Seq<char>, Seq<char>)> {
    match end {
        RemoteLogEnd::Refused(t) => seq![("error"@, t@), ended_view()],
        RemoteLogEnd::RequestFailed(e) => seq![
            ("error"@, "failed to open log stream: "@ + e@),
            ended_view(),
        ],
        RemoteLogEnd::ChunkFailed(e) => seq![("error"@, "log stream error: "@ + e@), ended_view()],
        RemoteLogEnd::Finished => seq![ended_view()],
    }
}

/// The closing events of a stream from the backend.
pub fn remote_log_end(end: RemoteLogEnd) -> (r: Vec<LogEvent>)
    ensures
        r@.map_values(|e: LogEvent| event_view(e)) == remote_end_spec(end),
        r@.len() > 0,
        event_view(r@.last()) == ended_view(),
{
    let mut out: Vec<LogEvent> = Vec::new();
    match &end {
        RemoteLogEnd::Refused(t) => out.push(LogEvent::error(t.as_str())),
        RemoteLogEnd::RequestFailed(e) => {
            let m = crate::text::cat("failed to open log stream: ", e.as_str());
            out.push(LogEvent::error(m.as_str()));
        },
        RemoteLogEnd::ChunkFailed(e) => {
            let m = crate::text::cat("log stream error: ", e.as_str());
            out.push(LogEvent::error(m.as_str()));
        },
        RemoteLogEnd::Finished => {},
    }
    let done = LogEvent::ended();
    assert(done.line@ =~= Seq::<char>::empty());
    out.push(done);
    assert(out@.map_values(|e: LogEvent| event_view(e)) =~= remote_end_spec(end));
    out
}

} // verus!
