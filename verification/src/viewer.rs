//! The log and pod viewers' rules: the bounded log buffer, the case-blind
//! filters, the lines a viewer shows or copies, and the status colors.
use vstd::prelude::*;

use crate::manager::{lowercase, to_lowercase};
use crate::keys::{insert_key, key_ordered, lemma_map_of_dom, map_of, text_lt};
use crate::model::Pod;
use crate::text::{all_ascii, ascii_lower, cat, cat3, contains, contains_spec, owned, push_str, str_eq};

verus! {

broadcast use vstd::string::group_string_axioms;

/// The most lines a log viewer holds before it is cut back.
pub const LOG_LINES_MAX: usize = 5000;

/// The lines a log viewer keeps when it is cut back.
pub const LOG_LINES_KEPT: usize = 4000;

/// The lines of a log viewer after `line` arrived: when more than
/// `LOG_LINES_MAX` are held, only the newest `LOG_LINES_KEPT` are kept.
pub open spec fn log_ring_spec(lines: Seq<String>, line: String) -> Seq<String> {
    let l = lines.push(line);
    if l.len() > LOG_LINES_MAX {
        l.subrange(l.len() - LOG_LINES_KEPT, l.len() as int)
    } else {
        l
    }
}

/// Append a line to a log viewer's bounded buffer.
pub fn push_log_line(lines: &mut Vec<String>, line: String)
    requires
        old(lines)@.len() < usize::MAX,
    ensures
        final(lines)@ == log_ring_spec(old(lines)@, line),
{
    lines.push(line);
    if lines.len() > LOG_LINES_MAX {
        let cut = lines.len() - LOG_LINES_KEPT;
        let kept = lines.split_off(cut);
        *lines = kept;
    }
}

/// The line shown for a log stream error.
pub fn log_error_line(error: &str) -> (r: String)
    ensures
        r@ == "[ERROR] "@ + error@,
{
    cat("[ERROR] ", error)
}

/// The first line of a log viewer.
pub fn log_stream_header(namespace: &str, pod: &str) -> (r: String)
    ensures
        r@ == "--- Streaming logs for "@ + namespace@ + "/"@ + pod@ + " ---"@,
{
    let mut r = cat3("--- Streaming logs for ", namespace, "/");
    push_str(&mut r, pod);
    push_str(&mut r, " ---");
    r
}

/// Whether a log line passes a viewer's filter: every line passes an empty
/// filter, otherwise the lower-cased line must contain the lower-cased filter.
pub open spec fn line_visible_spec(filter: Seq<char>, line: Seq<char>) -> bool {
    filter.len() == 0 || contains_spec(lowercase(line), lowercase(filter))
}

/// Whether a log line passes a viewer's filter.
pub fn line_visible(filter: &str, line: &str) -> (r: bool)
    ensures
        r == line_visible_spec(filter@, line@),
        all_ascii(filter@) && all_ascii(line@) ==> r == (filter@.len() == 0 || contains_spec(
            ascii_lower(line@),
            ascii_lower(filter@),
        )),
{
    if filter.is_empty() {
        return true;
    }
    let l = to_lowercase(line);
    let f = to_lowercase(filter);
    contains(l.as_str(), f.as_str())
}

/// The lines that pass the filter, in order.
pub open spec fn visible_lines(lines: Seq<String>, filter: Seq<char>) -> Seq<Seq<char>>
    decreases lines.len(),
{
    if lines.len() == 0 {
        Seq::empty()
    } else if line_visible_spec(filter, lines.last()@) {
        visible_lines(lines.drop_last(), filter).push(lines.last()@)
    } else {
        visible_lines(lines.drop_last(), filter)
    }
}

/// Lines joined with '\n' between them.
pub open spec fn join_lines(ls: Seq<Seq<char>>) -> Seq<char>
    decreases ls.len(),
{
    if ls.len() == 0 {
        Seq::empty()
    } else if ls.len() == 1 {
        ls[0]
    } else {
        join_lines(ls.drop_last()) + "\n"@ + ls.last()
    }
}

/// The text that "Copy visible" puts on the clipboard: the lines that pass
/// the filter, joined with line breaks.
pub fn visible_text(lines: &Vec<String>, filter: &str) -> (r: String)
    ensures
        r@ == join_lines(visible_lines(lines@, filter@)),
{
    let mut r = String::new();
    let mut count: usize = 0;
    let mut i: usize = 0;
    while i < lines.len()
        invariant
            i <= lines.len(),
            count == visible_lines(lines@.subrange(0, i as int), filter@).len(),
            count <= i,
            r@ == join_lines(visible_lines(lines@.subrange(0, i as int), filter@)),
        decreases lines.len() - i,
    {
        let ghost pre = lines@.subrange(0, i as int);
        let ghost cur = lines@.subrange(0, i + 1);
        assert(cur.drop_last() =~= pre);
        assert(cur.last() == lines@[i as int]);
        if line_visible(filter, lines[i].as_str()) {
            let ghost v = visible_lines(pre, filter@);
            assert(visible_lines(cur, filter@) == v.push(lines@[i as int]@));
            assert(v.push(lines@[i as int]@).drop_last() =~= v);
            if count > 0 {
                push_str(&mut r, "\n");
            }
            push_str(&mut r, lines[i].as_str());
            count += 1;
        }
        i += 1;
    }
    assert(lines@.subrange(0, lines.len() as int) =~= lines@);
    r
}

/// Whether a pod row passes the pods view's filters: the text filter must
/// occur (case-blind) in its name or namespace, and the namespace filter,
/// unless it is "All", must be its namespace.
pub open spec fn pod_visible_spec(
    filter: Seq<char>,
    ns_filter: Seq<char>,
    name: Seq<char>,
    namespace: Seq<char>,
) -> bool {
    let f = lowercase(filter);
    &&& (f.len() == 0 || contains_spec(lowercase(name), f) || contains_spec(lowercase(namespace), f))
    &&& (ns_filter == "All"@ || namespace == ns_filter)
}

/// Whether a pod row passes the pods view's filters.
pub fn pod_visible(filter: &str, ns_filter: &str, name: &str, namespace: &str) -> (r: bool)
    ensures
        r == pod_visible_spec(filter@, ns_filter@, name@, namespace@),
        all_ascii(filter@) && all_ascii(name@) && all_ascii(namespace@) ==> r == ({
            let f = ascii_lower(filter@);
            &&& (f.len() == 0 || contains_spec(ascii_lower(name@), f) || contains_spec(
                ascii_lower(namespace@),
                f,
            ))
            &&& (ns_filter@ == "All"@ || namespace@ == ns_filter@)
        }),
{
    let f = to_lowercase(filter);
    if !f.as_str().is_empty() {
        let n = to_lowercase(name);
        let s = to_lowercase(namespace);
        if !contains(n.as_str(), f.as_str()) && !contains(s.as_str(), f.as_str()) {
            return false;
        }
    }
    str_eq(ns_filter, "All") || str_eq(namespace, ns_filter)
}

/// A pod's phase, "Unknown" when it reports none.
pub fn pod_status(pod: &Pod) -> (r: String)
    ensures
        r@ == match pod.status {
            Some(s) => match s.phase {
                Some(p) => p@,
                None => "Unknown"@,
            },
            None => "Unknown"@,
        },
{
    match &pod.status {
        Some(s) => match &s.phase {
            Some(p) => p.clone(),
            None => owned("Unknown"),
        },
        None => owned("Unknown"),
    }
}

/// The color a pod phase is shown in.
pub open spec fn phase_color_spec(phase: Seq<char>) -> [u8; 3] {
    if phase == "Running"@ {
        [34, 197, 94]
    } else if phase == "Pending"@ || phase == "ContainerCreating"@ {
        [234, 179, 8]
    } else if phase == "Succeeded"@ {
        [100, 149, 237]
    } else {
        [239, 68, 68]
    }
}

/// The color a pod phase is shown in: green running, yellow pending or
/// being created, blue succeeded, red anything else.
pub fn phase_color(phase: &str) -> (r: [u8; 3])
    ensures
        r == phase_color_spec(phase@),
{
    if str_eq(phase, "Running") {
        [34, 197, 94]
    } else if str_eq(phase, "Pending") || str_eq(phase, "ContainerCreating") {
        [234, 179, 8]
    } else if str_eq(phase, "Succeeded") {
        [100, 149, 237]
    } else {
        [239, 68, 68]
    }
}

/// A log viewer never holds more than `LOG_LINES_MAX` lines, and always
/// keeps the newest line.
pub proof fn law_log_ring_bounded(lines: Seq<String>, line: String)
    requires
        lines.len() <= LOG_LINES_MAX,
    ensures
        log_ring_spec(lines, line).len() <= LOG_LINES_MAX,
        log_ring_spec(lines, line).last() == line,
{
}

/// The text of `s` before its first 'T' (all of it when there is none).
pub open spec fn date_part(s: Seq<char>) -> Seq<char>
    decreases s.len(),
{
    if s.len() == 0 {
        s
    } else if s[0] == 'T' {
        Seq::empty()
    } else {
        seq![s[0]] + date_part(s.drop_first())
    }
}

/// The pods and nodes views' age cell: "-" without a timestamp, otherwise
/// the date part of the timestamp ("recent (since 2024-05-01)").
pub fn since_label(ts: Option<&str>) -> (r: String)
    ensures
        r@ == match ts {
            Some(t) => "recent (since "@ + date_part(t@) + ")"@,
            None => "-"@,
        },
{
    match ts {
        None => owned("-"),
        Some(t) => {
            let cs = crate::text::chars_of(t);
            let mut d = String::new();
            let mut i: usize = 0;
            while i < cs.len() && cs[i] != 'T'
                invariant
                    cs@ == t@,
                    i <= cs.len(),
                    forall|j: int| 0 <= j < i ==> cs@[j] != 'T',
                    d@ == cs@.subrange(0, i as int),
                decreases cs.len() - i,
            {
                crate::text::push_char(&mut d, cs[i]);
                i += 1;
                assert(d@ =~= cs@.subrange(0, i as int));
            }
            proof {
                lemma_date_part(t@, i as int);
            }
            let mut r = owned("recent (since ");
            push_str(&mut r, d.as_str());
            push_str(&mut r, ")");
            r
        },
    }
}

proof fn lemma_date_part(s: Seq<char>, k: int)
    requires
        0 <= k <= s.len(),
        forall|j: int| 0 <= j < k ==> s[j] != 'T',
        k == s.len() || s[k] == 'T',
    ensures
        date_part(s) == s.subrange(0, k),
    decreases s.len(),
{
    if s.len() == 0 {
        assert(s.subrange(0, k) =~= s);
    } else if s[0] == 'T' {
        assert(s.subrange(0, k) =~= Seq::<char>::empty());
    } else {
        let t = s.drop_first();
        assert forall|j: int| 0 <= j < k - 1 implies t[j] != 'T' by {
            assert(t[j] == s[j + 1]);
        }
        if k < s.len() {
            assert(t[k - 1] == s[k]);
        }
        lemma_date_part(t, k - 1);
        assert(seq![s[0]] + t.subrange(0, k - 1) =~= s.subrange(0, k));
    }
}


/// The namespace a pod is listed under in the pods view: its own, "default"
/// when it names none.
pub open spec fn pod_ns_spec(p: Pod) -> Seq<char> {
    match p.metadata.namespace {
        Some(n) => n@,
        None => "default"@,
    }
}

/// The texts of `r`.
pub open spec fn texts_set(r: Seq<String>) -> Set<Seq<char>> {
    Set::new(|n: Seq<char>| exists|i: int| 0 <= i < r.len() && #[trigger] r[i]@ == n)
}

/// The namespaces the pods are listed under.
pub open spec fn pod_ns_set(pods: Seq<Pod>) -> Set<Seq<char>> {
    Set::new(|n: Seq<char>| exists|k: int| 0 <= k < pods.len() && #[trigger] pod_ns_spec(pods[k]) == n)
}

/// The namespaces offered by the pods view's namespace filter: those of the
/// pods, each once, in ascending text order.
pub fn pod_namespaces(pods: &Vec<Pod>) -> (r: Vec<String>)
    ensures
        forall|i: int, j: int| 0 <= i < j < r@.len() ==> text_lt(#[trigger] r@[i]@, #[trigger] r@[j]@),
        texts_set(r@) == pod_ns_set(pods@),
{
    let mut m: Vec<(String, String)> = Vec::new();
    let mut i: usize = 0;
    while i < pods.len()
        invariant
            i <= pods@.len(),
            key_ordered(m@),
            forall|n: Seq<char>|
                #[trigger] map_of(m@).dom().contains(n) == (exists|k: int|
                    0 <= k < i && #[trigger] pod_ns_spec(pods@[k]) == n),
        decreases pods@.len() - i,
    {
        let ns = match &pods[i].metadata.namespace {
            Some(n) => n.clone(),
            None => owned("default"),
        };
        insert_key(&mut m, ns, String::new());
        proof {
            assert forall|n: Seq<char>| #[trigger] map_of(m@).dom().contains(n) == (exists|k: int|
                0 <= k < i + 1 && #[trigger] pod_ns_spec(pods@[k]) == n) by {
                if n == pod_ns_spec(pods@[i as int]) {
                    assert(pod_ns_spec(pods@[i as int]) == n);
                }
            }
        }
        i += 1;
    }
    let mut r: Vec<String> = Vec::new();
    let mut j: usize = 0;
    while j < m.len()
        invariant
            j <= m@.len(),
            r@.len() == j,
            forall|a: int| 0 <= a < j ==> #[trigger] r@[a]@ == m@[a].0@,
        decreases m@.len() - j,
    {
        r.push(m[j].0.clone());
        j += 1;
    }
    proof {
        assert forall|a: int, b: int| 0 <= a < b < r@.len() implies text_lt(#[trigger] r@[a]@, #[trigger] r@[b]@) by {
            assert(r@[a]@ == m@[a].0@ && r@[b]@ == m@[b].0@);
        }
        assert forall|n: Seq<char>| #[trigger] texts_set(r@).contains(n) == pod_ns_set(pods@).contains(n) by {
            lemma_map_of_dom(m@, n);
            assert(map_of(m@).dom().contains(n) == (exists|k: int|
                0 <= k < pods@.len() && #[trigger] pod_ns_spec(pods@[k]) == n));
            if exists|a: int| 0 <= a < r@.len() && #[trigger] r@[a]@ == n {
                let a = choose|a: int| 0 <= a < r@.len() && #[trigger] r@[a]@ == n;
                assert(m@[a].0@ == n);
            }
            if exists|a: int| 0 <= a < m@.len() && #[trigger] m@[a].0@ == n {
                let a = choose|a: int| 0 <= a < m@.len() && #[trigger] m@[a].0@ == n;
                assert(r@[a]@ == n);
            }
        }
        assert(texts_set(r@) =~= pod_ns_set(pods@));
    }
    r
}

} // verus!
