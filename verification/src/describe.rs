//! A `kubectl describe pod`-style text report: metadata, status, containers,
//! conditions and the pod's events (oldest first).
use vstd::prelude::*;

use crate::age::{age_ok, human_age};
use crate::kinds::opt_view;
use crate::model::{
    Condition, Container, ContainerPort, ContainerState, ContainerStatus, Event, Pod,
};
use crate::pods::{or_default, text_or};
use crate::text::{
    int_decimal, join, pad_right, push_i64, push_padded, push_str, spaces, str_eq, trim,
    trim_spec, views, join_strings,
};

verus! {

broadcast use vstd::string::group_string_axioms;

/// `s` followed by a newline.
pub open spec fn ln(s: Seq<char>) -> Seq<char> {
    s + "\n"@
}

/// An optional line: `label` + value + newline, or nothing.
pub open spec fn opt_line(label: Seq<char>, v: Option<String>) -> Seq<char> {
    match v {
        Some(x) => ln(label + x@),
        None => Seq::empty(),
    }
}

// ---------------------------------------------------------------------------
// Maps
// ---------------------------------------------------------------------------

/// The lines of a non-empty key/value list from position `i` on: the first
/// entry inline, later ones indented under the header column.
pub open spec fn map_lines(m: Seq<(String, String)>, indent: nat) -> Seq<char>
    decreases m.len(),
{
    if m.len() == 0 {
        Seq::empty()
    } else {
        map_lines(m.drop_last(), indent) + (if m.len() == 1 {
            Seq::empty()
        } else {
            spaces(indent)
        }) + ln(m.last().0@ + "="@ + m.last().1@)
    }
}

/// A metadata map rendered inline (`k=v` per line), or "<none>".
pub open spec fn map_block(m: Option<Vec<(String, String)>>, indent: nat) -> Seq<char> {
    match m {
        Some(v) => if v@.len() > 0 {
            map_lines(v@, indent)
        } else {
            ln("<none>"@)
        },
        None => ln("<none>"@),
    }
}

fn push_spaces(s: &mut String, n: usize)
    ensures
        final(s)@ == old(s)@ + spaces(n as nat),
{
    let mut i: usize = 0;
    while i < n
        invariant
            i <= n,
            s@ == old(s)@ + spaces(i as nat),
        decreases n - i,
    {
        crate::text::push_char(s, ' ');
        i += 1;
        assert(s@ =~= old(s)@ + spaces(i as nat));
    }
}

/// Appends a metadata map block.
pub fn write_map_block(s: &mut String, map: &Option<Vec<(String, String)>>, indent: usize)
    ensures
        final(s)@ == old(s)@ + map_block(*map, indent as nat),
{
    match map {
        Some(m) => {
            if m.len() == 0 {
                push_str(s, "<none>");
                push_str(s, "\n");
                assert(s@ =~= old(s)@ + ln("<none>"@));
                return;
            }
            let mut i: usize = 0;
            while i < m.len()
                invariant
                    i <= m.len(),
                    s@ == old(s)@ + map_lines(m@.subrange(0, i as int), indent as nat),
                decreases m.len() - i,
            {
                let ghost before = s@;
                if i > 0 {
                    push_spaces(s, indent);
                }
                push_str(s, m[i].0.as_str());
                push_str(s, "=");
                push_str(s, m[i].1.as_str());
                push_str(s, "\n");
                proof {
                    let cur = m@.subrange(0, i + 1);
                    assert(cur.drop_last() =~= m@.subrange(0, i as int));
                    assert(cur.last() == m@[i as int]);
                    if i == 0 {
                        assert(s@ =~= before + ln(m@[0].0@ + "="@ + m@[0].1@));
                    } else {
                        assert(s@ =~= before + spaces(indent as nat) + ln(
                            m@[i as int].0@ + "="@ + m@[i as int].1@,
                        ));
                    }
                    assert(s@ =~= old(s)@ + map_lines(cur, indent as nat));
                }
                i += 1;
            }
            assert(m@.subrange(0, m@.len() as int) =~= m@);
        },
        None => {
            push_str(s, "<none>");
            push_str(s, "\n");
            assert(s@ =~= old(s)@ + ln("<none>"@));
        },
    }
}

/// A requests/limits block: the label, then one indented `k: v` line per
/// quantity; nothing when absent or empty.
pub open spec fn quantities_block(label: Seq<char>, q: Option<Vec<(String, String)>>) -> Seq<char> {
    match q {
        Some(v) => if v@.len() > 0 {
            ln("    "@ + label + ":"@) + quantity_lines(v@)
        } else {
            Seq::empty()
        },
        None => Seq::empty(),
    }
}

/// The `k: v` lines of a quantity map.
pub open spec fn quantity_lines(q: Seq<(String, String)>) -> Seq<char>
    decreases q.len(),
{
    if q.len() == 0 {
        Seq::empty()
    } else {
        quantity_lines(q.drop_last()) + ln("      "@ + q.last().0@ + ": "@ + q.last().1@)
    }
}

/// Appends a requests/limits block.
pub fn write_quantities(s: &mut String, label: &str, q: &Option<Vec<(String, String)>>)
    ensures
        final(s)@ == old(s)@ + quantities_block(label@, *q),
{
    let m = match q {
        Some(m) => m,
        None => {
            assert(s@ =~= old(s)@ + quantities_block(label@, *q));
            return;
        },
    };
    if m.len() == 0 {
        assert(s@ =~= old(s)@ + quantities_block(label@, *q));
        return;
    }
    push_str(s, "    ");
    push_str(s, label);
    push_str(s, ":");
    push_str(s, "\n");
    let ghost head = s@;
    assert(head =~= old(s)@ + ln("    "@ + label@ + ":"@));
    let mut i: usize = 0;
    while i < m.len()
        invariant
            i <= m.len(),
            s@ == head + quantity_lines(m@.subrange(0, i as int)),
        decreases m.len() - i,
    {
        let ghost before = s@;
        push_str(s, "      ");
        push_str(s, m[i].0.as_str());
        push_str(s, ": ");
        push_str(s, m[i].1.as_str());
        push_str(s, "\n");
        proof {
            let cur = m@.subrange(0, i + 1);
            assert(cur.drop_last() =~= m@.subrange(0, i as int));
            assert(s@ =~= before + ln("      "@ + m@[i as int].0@ + ": "@ + m@[i as int].1@));
        }
        i += 1;
    }
    assert(m@.subrange(0, m@.len() as int) =~= m@);
    assert(s@ =~= old(s)@ + quantities_block(label@, *q));
}

// ---------------------------------------------------------------------------
// Containers
// ---------------------------------------------------------------------------

/// A container's state as (one-word state, optional detail line).
pub open spec fn state_spec(st: Option<ContainerState>) -> (Seq<char>, Option<Seq<char>>) {
    match st {
        None => ("Unknown"@, None),
        Some(state) => match state.running {
            Some(r) => (
                "Running"@,
                match r.started_at {
                    Some(t) => Some("Started: "@ + t@),
                    None => None,
                },
            ),
            None => match state.waiting {
                Some(w) => (
                    "Waiting ("@ + or_default(w.reason, Seq::empty()) + ")"@,
                    match w.message {
                        Some(m) => Some("Message: "@ + m@),
                        None => None,
                    },
                ),
                None => match state.terminated {
                    Some(t) => (
                        "Terminated ("@ + or_default(t.reason, Seq::empty()) + ")"@,
                        Some("Exit Code: "@ + int_decimal(t.exit_code as int)),
                    ),
                    None => ("Unknown"@, None),
                },
            },
        },
    }
}

/// A container's state as (one-word state, optional detail line).
pub fn container_state(cs: &ContainerStatus) -> (r: (String, Option<String>))
    ensures
        r.0@ == state_spec(cs.state).0,
        opt_view(r.1) == state_spec(cs.state).1,
{
    let state = match &cs.state {
        Some(s) => s,
        None => return (crate::text::owned("Unknown"), None),
    };
    if let Some(r) = &state.running {
        let started = match &r.started_at {
            Some(t) => Some(crate::text::cat("Started: ", t.as_str())),
            None => None,
        };
        (crate::text::owned("Running"), started)
    } else if let Some(w) = &state.waiting {
        let reason = match &w.reason {
            Some(x) => x.clone(),
            None => String::new(),
        };
        let detail = match &w.message {
            Some(m) => Some(crate::text::cat("Message: ", m.as_str())),
            None => None,
        };
        (crate::text::cat3("Waiting (", reason.as_str(), ")"), detail)
    } else if let Some(t) = &state.terminated {
        let reason = match &t.reason {
            Some(x) => x.clone(),
            None => String::new(),
        };
        let mut code = crate::text::owned("Exit Code: ");
        push_i64(&mut code, t.exit_code as i64);
        (crate::text::cat3("Terminated (", reason.as_str(), ")"), Some(code))
    } else {
        (crate::text::owned("Unknown"), None)
    }
}

/// The first status reported for the container named `name`.
pub open spec fn status_for(statuses: Seq<ContainerStatus>, name: Seq<char>) -> Option<ContainerStatus>
    decreases statuses.len(),
{
    if statuses.len() == 0 {
        None
    } else if statuses[0].name@ == name {
        Some(statuses[0])
    } else {
        status_for(statuses.drop_first(), name)
    }
}

/// "port/protocol" of a container port (TCP by default).
pub open spec fn cport_text(p: ContainerPort) -> Seq<char> {
    int_decimal(p.container_port as int) + "/"@ + or_default(p.protocol, "TCP"@)
}

/// The text `bool` displays as.
pub open spec fn bool_text(b: bool) -> Seq<char> {
    if b {
        "true"@
    } else {
        "false"@
    }
}

/// The lines about one observed container status.
pub open spec fn status_lines(cs: ContainerStatus) -> Seq<char> {
    ln("    State:          "@ + state_spec(cs.state).0) + match state_spec(cs.state).1 {
        Some(d) => ln("      "@ + d),
        None => Seq::empty(),
    } + ln("    Ready:          "@ + bool_text(cs.ready)) + ln(
        "    Restart Count:  "@ + int_decimal(cs.restart_count as int),
    )
}

/// The block about one container.
pub open spec fn container_block(c: Container, statuses: Seq<ContainerStatus>) -> Seq<char> {
    ln("  "@ + c.name@ + ":"@) + ln("    Image:          "@ + or_default(c.image, "-"@)) + match c.ports {
        Some(ps) => ln(
            "    Port(s):        "@ + join(ps@.map_values(|p: ContainerPort| cport_text(p)), ", "@),
        ),
        None => Seq::empty(),
    } + match status_for(statuses, c.name@) {
        Some(cs) => status_lines(cs),
        None => Seq::empty(),
    } + match c.resources {
        Some(res) => quantities_block("Requests"@, res.requests) + quantities_block(
            "Limits"@,
            res.limits,
        ),
        None => Seq::empty(),
    }
}

/// The blocks of a list of containers.
pub open spec fn container_blocks(cs: Seq<Container>, statuses: Seq<ContainerStatus>) -> Seq<char>
    decreases cs.len(),
{
    if cs.len() == 0 {
        Seq::empty()
    } else {
        container_blocks(cs.drop_last(), statuses) + container_block(cs.last(), statuses)
    }
}

fn find_status<'a>(statuses: &'a Vec<ContainerStatus>, name: &str) -> (r: Option<&'a ContainerStatus>)
    ensures
        match r {
            Some(c) => status_for(statuses@, name@) == Some(*c),
            None => status_for(statuses@, name@) is None,
        },
{
    let mut i: usize = 0;
    assert(statuses@.subrange(0, statuses@.len() as int) =~= statuses@);
    while i < statuses.len()
        invariant
            i <= statuses.len(),
            status_for(statuses@, name@) == status_for(
                statuses@.subrange(i as int, statuses@.len() as int),
                name@,
            ),
        decreases statuses.len() - i,
    {
        let ghost rest = statuses@.subrange(i as int, statuses@.len() as int);
        assert(rest[0] == statuses@[i as int]);
        if str_eq(statuses[i].name.as_str(), name) {
            return Some(&statuses[i]);
        }
        assert(rest.drop_first() =~= statuses@.subrange(i + 1, statuses@.len() as int));
        i += 1;
    }
    None
}

fn cport_texts(ps: &Vec<ContainerPort>) -> (r: Vec<String>)
    ensures
        views(r@) == ps@.map_values(|p: ContainerPort| cport_text(p)),
{
    let mut r: Vec<String> = Vec::new();
    let mut i: usize = 0;
    while i < ps.len()
        invariant
            i <= ps.len(),
            r@.len() == i,
            forall|j: int| 0 <= j < i ==> (#[trigger] r@[j])@ == cport_text(ps@[j]),
        decreases ps.len() - i,
    {
        let mut t = crate::text::fmt_i64(ps[i].container_port as i64);
        push_str(&mut t, "/");
        let proto = text_or(&ps[i].protocol, "TCP");
        push_str(&mut t, proto.as_str());
        r.push(t);
        i += 1;
    }
    assert(views(r@) =~= ps@.map_values(|p: ContainerPort| cport_text(p)));
    r
}

fn write_status_lines(s: &mut String, cs: &ContainerStatus)
    ensures
        final(s)@ == old(s)@ + status_lines(*cs),
{
    let (state, detail) = container_state(cs);
    push_str(s, "    State:          ");
    push_str(s, state.as_str());
    push_str(s, "\n");
    let ghost a = s@;
    match &detail {
        Some(d) => {
            push_str(s, "      ");
            push_str(s, d.as_str());
            push_str(s, "\n");
        },
        None => {},
    }
    let ghost b = s@;
    push_str(s, "    Ready:          ");
    push_str(s, if cs.ready { "true" } else { "false" });
    push_str(s, "\n");
    push_str(s, "    Restart Count:  ");
    push_i64(s, cs.restart_count as i64);
    push_str(s, "\n");
    proof {
        assert(a =~= old(s)@ + ln("    State:          "@ + state_spec(cs.state).0));
        assert(b =~= a + match state_spec(cs.state).1 {
            Some(d) => ln("      "@ + d),
            None => Seq::empty(),
        });
        assert(s@ =~= old(s)@ + status_lines(*cs));
    }
}

/// The first lines of a container block: its name and image.
pub open spec fn container_head(c: Container) -> Seq<char> {
    ln("  "@ + c.name@ + ":"@) + ln("    Image:          "@ + or_default(c.image, "-"@))
}

/// The ports line of a container block.
pub open spec fn ports_line(c: Container) -> Seq<char> {
    match c.ports {
        Some(ps) => ln(
            "    Port(s):        "@ + join(ps@.map_values(|p: ContainerPort| cport_text(p)), ", "@),
        ),
        None => Seq::empty(),
    }
}

/// The status lines of a container block.
pub open spec fn container_status_part(c: Container, statuses: Seq<ContainerStatus>) -> Seq<char> {
    match status_for(statuses, c.name@) {
        Some(cs) => status_lines(cs),
        None => Seq::empty(),
    }
}

/// The resources lines of a container block.
pub open spec fn resources_part(c: Container) -> Seq<char> {
    match c.resources {
        Some(res) => quantities_block("Requests"@, res.requests) + quantities_block(
            "Limits"@,
            res.limits,
        ),
        None => Seq::empty(),
    }
}

proof fn lemma_container_block_parts(c: Container, statuses: Seq<ContainerStatus>)
    ensures
        container_block(c, statuses) == container_head(c) + ports_line(c) + container_status_part(
            c,
            statuses,
        ) + resources_part(c),
{
}

fn write_container_head(s: &mut String, c: &Container)
    ensures
        final(s)@ == old(s)@ + container_head(*c),
{
    push_str(s, "  ");
    push_str(s, c.name.as_str());
    push_str(s, ":");
    push_str(s, "\n");
    push_str(s, "    Image:          ");
    let image = text_or(&c.image, "-");
    push_str(s, image.as_str());
    push_str(s, "\n");
    assert(s@ =~= old(s)@ + container_head(*c));
}

fn write_ports_line(s: &mut String, c: &Container)
    ensures
        final(s)@ == old(s)@ + ports_line(*c),
{
    match &c.ports {
        Some(ps) => {
            let joined = join_strings(&cport_texts(ps), ", ");
            push_str(s, "    Port(s):        ");
            push_str(s, joined.as_str());
            push_str(s, "\n");
            assert(s@ =~= old(s)@ + ports_line(*c));
        },
        None => {
            assert(s@ =~= old(s)@ + ports_line(*c));
        },
    }
}

fn write_resources(s: &mut String, c: &Container)
    ensures
        final(s)@ == old(s)@ + resources_part(*c),
{
    match &c.resources {
        Some(res) => {
            write_quantities(s, "Requests", &res.requests);
            write_quantities(s, "Limits", &res.limits);
            assert(s@ =~= old(s)@ + resources_part(*c));
        },
        None => {
            assert(s@ =~= old(s)@ + resources_part(*c));
        },
    }
}

fn write_container(s: &mut String, c: &Container, statuses: &Vec<ContainerStatus>)
    ensures
        final(s)@ == old(s)@ + container_block(*c, statuses@),
{
    write_container_head(s, c);
    write_ports_line(s, c);
    let ghost b = s@;
    match find_status(statuses, c.name.as_str()) {
        Some(cs) => write_status_lines(s, cs),
        None => {},
    }
    assert(s@ =~= b + container_status_part(*c, statuses@));
    write_resources(s, c);
    proof {
        lemma_container_block_parts(*c, statuses@);
    }
    assert(s@ =~= old(s)@ + container_block(*c, statuses@));
}

// ---------------------------------------------------------------------------
// Conditions
// ---------------------------------------------------------------------------

/// The rows of a condition table.
pub open spec fn condition_lines(cs: Seq<Condition>) -> Seq<char>
    decreases cs.len(),
{
    if cs.len() == 0 {
        Seq::empty()
    } else {
        condition_lines(cs.drop_last()) + ln(
            "  "@ + pad_right(cs.last().type_@, 18) + cs.last().status@,
        )
    }
}

/// The conditions table; nothing when there are none.
pub open spec fn conditions_block(conds: Option<Vec<Condition>>) -> Seq<char> {
    match conds {
        Some(v) => if v@.len() > 0 {
            ln("Conditions:"@) + ln("  "@ + pad_right("Type"@, 18) + "Status"@) + condition_lines(
                v@,
            )
        } else {
            Seq::empty()
        },
        None => Seq::empty(),
    }
}

fn write_conditions(s: &mut String, conds: &Option<Vec<Condition>>)
    ensures
        final(s)@ == old(s)@ + conditions_block(*conds),
{
    let v = match conds {
        Some(v) => v,
        None => {
            assert(s@ =~= old(s)@ + conditions_block(*conds));
            return;
        },
    };
    if v.len() == 0 {
        assert(s@ =~= old(s)@ + conditions_block(*conds));
        return;
    }
    push_str(s, "Conditions:");
    push_str(s, "\n");
    push_str(s, "  ");
    push_padded(s, "Type", 18);
    push_str(s, "Status");
    push_str(s, "\n");
    let ghost head = s@;
    assert(head =~= old(s)@ + ln("Conditions:"@) + ln("  "@ + pad_right("Type"@, 18) + "Status"@));
    let mut i: usize = 0;
    while i < v.len()
        invariant
            i <= v.len(),
            s@ == head + condition_lines(v@.subrange(0, i as int)),
        decreases v.len() - i,
    {
        let ghost before = s@;
        push_str(s, "  ");
        push_padded(s, v[i].type_.as_str(), 18);
        push_str(s, v[i].status.as_str());
        push_str(s, "\n");
        proof {
            let cur = v@.subrange(0, i + 1);
            assert(cur.drop_last() =~= v@.subrange(0, i as int));
            assert(s@ =~= before + ln("  "@ + pad_right(v@[i as int].type_@, 18) + v@[i as int].status@));
        }
        i += 1;
    }
    assert(v@.subrange(0, v@.len() as int) =~= v@);
    assert(s@ =~= old(s)@ + conditions_block(*conds));
}

// ---------------------------------------------------------------------------
// Events
// ---------------------------------------------------------------------------

/// The timestamp an event is sorted and aged by: its last timestamp, else its
/// first, else none.
pub open spec fn event_stamp(e: Event) -> Option<Seq<char>> {
    match e.last_timestamp {
        Some(t) => Some(t@),
        None => opt_view(e.first_timestamp),
    }
}

/// The sort key of an event (empty without a timestamp).
pub open spec fn event_time(e: Event) -> Seq<char> {
    match event_stamp(e) {
        Some(t) => t,
        None => Seq::empty(),
    }
}

/// Lexicographic order on texts (`String`'s `<=`).
pub open spec fn text_le(a: Seq<char>, b: Seq<char>) -> bool
    decreases a.len(),
{
    if a.len() == 0 {
        true
    } else if b.len() == 0 {
        false
    } else if a[0] != b[0] {
        a[0] < b[0]
    } else {
        text_le(a.drop_first(), b.drop_first())
    }
}

/// `e` inserted into `sorted` after every element whose key is not greater.
pub open spec fn insert_by_time(sorted: Seq<Event>, e: Event) -> Seq<Event>
    decreases sorted.len(),
{
    if sorted.len() == 0 {
        seq![e]
    } else if text_le(event_time(sorted.last()), event_time(e)) {
        sorted.push(e)
    } else {
        insert_by_time(sorted.drop_last(), e).push(sorted.last())
    }
}

/// The events in ascending order of their sort key; events with equal keys
/// keep their order (a stable sort).
pub open spec fn sort_by_time(evs: Seq<Event>) -> Seq<Event>
    decreases evs.len(),
{
    if evs.len() == 0 {
        Seq::empty()
    } else {
        insert_by_time(sort_by_time(evs.drop_last()), evs.last())
    }
}

/// `a <= b` on texts.
pub fn text_le_exec(a: &str, b: &str) -> (r: bool)
    ensures
        r == text_le(a@, b@),
{
    let x = crate::text::chars_of(a);
    let y = crate::text::chars_of(b);
    let mut i: usize = 0;
    assert(a@.subrange(0, a@.len() as int) =~= a@);
    assert(b@.subrange(0, b@.len() as int) =~= b@);
    while i < x.len()
        invariant
            x@ == a@,
            y@ == b@,
            i <= x.len(),
            i <= y.len(),
            text_le(a@, b@) == text_le(a@.subrange(i as int, a@.len() as int), b@.subrange(i as int, b@.len() as int)),
        decreases x.len() - i,
    {
        let ghost ra = a@.subrange(i as int, a@.len() as int);
        let ghost rb = b@.subrange(i as int, b@.len() as int);
        if i == y.len() {
            return false;
        }
        assert(ra[0] == x@[i as int] && rb[0] == y@[i as int]);
        if x[i] != y[i] {
            return x[i] < y[i];
        }
        assert(ra.drop_first() =~= a@.subrange(i + 1, a@.len() as int));
        assert(rb.drop_first() =~= b@.subrange(i + 1, b@.len() as int));
        i += 1;
    }
    true
}

fn event_time_exec(e: &Event) -> (r: String)
    ensures
        r@ == event_time(*e),
{
    match &e.last_timestamp {
        Some(t) => t.clone(),
        None => match &e.first_timestamp {
            Some(t) => t.clone(),
            None => String::new(),
        },
    }
}

/// The events sorted by time (stable), as positions into `evs`.
fn sorted_order(evs: &Vec<Event>) -> (r: Vec<usize>)
    ensures
        r@.len() == evs@.len(),
        forall|i: int| 0 <= i < r@.len() ==> (#[trigger] r@[i]) < evs@.len(),
        r@.map_values(|k: usize| evs@[k as int]) == sort_by_time(evs@),
{
    let mut order: Vec<usize> = Vec::new();
    let mut i: usize = 0;
    while i < evs.len()
        invariant
            i <= evs.len(),
            order@.len() == i,
            forall|j: int| 0 <= j < order@.len() ==> (#[trigger] order@[j]) < i,
            order@.map_values(|k: usize| evs@[k as int]) == sort_by_time(evs@.subrange(0, i as int)),
        decreases evs.len() - i,
    {
        let key = event_time_exec(&evs[i]);
        // find the insertion point: after every element whose key is <= key
        let mut p: usize = order.len();
        assert(order@.subrange(0, p as int) =~= order@);
        assert(order@.subrange(p as int, order@.len() as int).map_values(|k: usize| evs@[k as int]) =~= Seq::<Event>::empty());
        assert(insert_by_time(order@.map_values(|k: usize| evs@[k as int]), evs@[i as int]) =~= insert_by_time(order@.subrange(0, p as int).map_values(|k: usize| evs@[k as int]), evs@[i as int]) + Seq::<Event>::empty());
        while p > 0 && !text_le_exec(event_time_exec(&evs[order[p - 1]]).as_str(), key.as_str())
            invariant
                p <= order@.len(),
                order@.len() == i,
                i < evs@.len(),
                key@ == event_time(evs@[i as int]),
                forall|j: int| 0 <= j < order@.len() ==> (#[trigger] order@[j]) < i,
                insert_by_time(order@.map_values(|k: usize| evs@[k as int]), evs@[i as int])
                    == insert_by_time(order@.subrange(0, p as int).map_values(|k: usize| evs@[k as int]), evs@[i as int])
                    + order@.subrange(p as int, order@.len() as int).map_values(|k: usize| evs@[k as int]),
            decreases p,
        {
            proof {
                let pre = order@.subrange(0, p as int).map_values(|k: usize| evs@[k as int]);
                let pre2 = order@.subrange(0, p - 1).map_values(|k: usize| evs@[k as int]);
                assert(pre.drop_last() =~= pre2);
                assert(pre.last() == evs@[order@[p - 1] as int]);
                assert(order@.subrange(p - 1, order@.len() as int).map_values(|k: usize| evs@[k as int])
                    =~= seq![evs@[order@[p - 1] as int]] + order@.subrange(p as int, order@.len() as int).map_values(|k: usize| evs@[k as int]));
                assert(insert_by_time(pre, evs@[i as int]) == insert_by_time(pre2, evs@[i as int]).push(pre.last()));
                assert(insert_by_time(pre2, evs@[i as int]).push(pre.last())
                    + order@.subrange(p as int, order@.len() as int).map_values(|k: usize| evs@[k as int])
                    =~= insert_by_time(pre2, evs@[i as int])
                    + order@.subrange(p - 1, order@.len() as int).map_values(|k: usize| evs@[k as int]));
            }
            p -= 1;
        }
        proof {
            let pre = order@.subrange(0, p as int).map_values(|k: usize| evs@[k as int]);
            if p > 0 {
                assert(pre.last() == evs@[order@[p - 1] as int]);
            }
            assert(insert_by_time(pre, evs@[i as int]) == pre.push(evs@[i as int]));
            let cur = evs@.subrange(0, i + 1);
            assert(cur.drop_last() =~= evs@.subrange(0, i as int));
            assert(cur.last() == evs@[i as int]);
        }
        let ghost old_order = order@;
        order.insert(p, i);
        proof {
            assert(order@.map_values(|k: usize| evs@[k as int]) =~= old_order.subrange(0, p as int).map_values(|k: usize| evs@[k as int]).push(evs@[i as int])
                + old_order.subrange(p as int, old_order.len() as int).map_values(|k: usize| evs@[k as int]));
            assert forall|j: int| 0 <= j < order@.len() implies (#[trigger] order@[j]) < i + 1 by {
                if j < p {
                    assert(order@[j] == old_order[j]);
                } else if j > p {
                    assert(order@[j] == old_order[j - 1]);
                }
            }
        }
        i += 1;
    }
    assert(evs@.subrange(0, evs.len() as int) =~= evs@);
    order
}

/// The age column of an event: its age, with the repeat count when above one.
pub open spec fn event_age_text(age: Seq<char>, count: Option<i32>) -> Seq<char> {
    if int_or_one(count) > 1 {
        age + " (x"@ + int_decimal(int_or_one(count)) + ")"@
    } else {
        age
    }
}

/// The repeat count of an event (1 when unset).
pub open spec fn int_or_one(c: Option<i32>) -> int {
    match c {
        Some(v) => v as int,
        None => 1,
    }
}

/// The table row of one event, given its age text.
pub open spec fn event_line(e: Event, age: Seq<char>) -> Seq<char> {
    ln(
        "  "@ + pad_right(or_default(e.type_, "-"@), 8) + pad_right(or_default(e.reason, "-"@), 22)
            + pad_right(event_age_text(age, e.count), 7) + pad_right(
            match e.source {
                Some(src) => or_default(src.component, "-"@),
                None => "-"@,
            },
            24,
        ) + trim_spec(or_default(e.message, "-"@)),
    )
}

/// The rows of the events table, given the age text of each.
pub open spec fn event_lines(evs: Seq<Event>, ages: Seq<Seq<char>>) -> Seq<char>
    decreases evs.len(),
{
    if evs.len() == 0 || ages.len() != evs.len() {
        Seq::empty()
    } else {
        event_lines(evs.drop_last(), ages.drop_last()) + event_line(evs.last(), ages.last())
    }
}

/// The events section, given the age text of each event (in sorted order).
pub open spec fn events_block(evs: Seq<Event>, ages: Seq<Seq<char>>) -> Seq<char> {
    ln("Events:"@) + if evs.len() == 0 {
        ln("  <none>"@)
    } else {
        ln(
            "  "@ + pad_right("Type"@, 8) + pad_right("Reason"@, 22) + pad_right("Age"@, 7)
                + pad_right("From"@, 24) + "Message"@,
        ) + event_lines(sort_by_time(evs), ages)
    }
}

/// Each `ages[i]` is an age of the `i`-th sorted event's timestamp.
pub open spec fn ages_ok(evs: Seq<Event>, ages: Seq<Seq<char>>) -> bool {
    &&& ages.len() == evs.len()
    &&& forall|i: int| 0 <= i < evs.len() ==> age_ok(event_stamp(#[trigger] evs[i]), ages[i])
}

#[verifier::spinoff_prover]
#[verifier::rlimit(40)]
fn write_event(s: &mut String, e: &Event) -> (age: Ghost<Seq<char>>)
    ensures
        age_ok(event_stamp(*e), age@),
        final(s)@ == old(s)@ + event_line(*e, age@),
{
    let stamp: Option<&str> = match &e.last_timestamp {
        Some(t) => Some(t.as_str()),
        None => match &e.first_timestamp {
            Some(t) => Some(t.as_str()),
            None => None,
        },
    };
    assert(crate::kinds::opt_str_view(stamp) == event_stamp(*e));
    let age = human_age(stamp);
    let count: i32 = match e.count {
        Some(c) => c,
        None => 1,
    };
    let mut age_col = age.clone();
    if count > 1 {
        push_str(&mut age_col, " (x");
        push_i64(&mut age_col, count as i64);
        push_str(&mut age_col, ")");
    }
    assert(age_col@ =~= event_age_text(age@, e.count));
    let from = match &e.source {
        Some(src) => text_or(&src.component, "-"),
        None => crate::text::owned("-"),
    };
    let typ = text_or(&e.type_, "-");
    let reason = text_or(&e.reason, "-");
    let msg = text_or(&e.message, "-");
    let msg = trim(msg.as_str());
    push_str(s, "  ");
    push_padded(s, typ.as_str(), 8);
    push_padded(s, reason.as_str(), 22);
    push_padded(s, age_col.as_str(), 7);
    push_padded(s, from.as_str(), 24);
    push_str(s, msg.as_str());
    push_str(s, "\n");
    assert(s@ =~= old(s)@ + event_line(*e, age@));
    Ghost(age@)
}

#[verifier::spinoff_prover]
#[verifier::rlimit(40)]
fn write_events(s: &mut String, evs: &Vec<Event>) -> (ages: Ghost<Seq<Seq<char>>>)
    ensures
        ages_ok(sort_by_time(evs@), ages@),
        final(s)@ == old(s)@ + events_block(evs@, ages@),
{
    push_str(s, "Events:");
    push_str(s, "\n");
    if evs.len() == 0 {
        push_str(s, "  <none>");
        push_str(s, "\n");
        assert(s@ =~= old(s)@ + events_block(evs@, Seq::empty()));
        assert(ages_ok(sort_by_time(evs@), Seq::empty()));
        return Ghost(Seq::empty());
    }
    push_str(s, "  ");
    push_padded(s, "Type", 8);
    push_padded(s, "Reason", 22);
    push_padded(s, "Age", 7);
    push_padded(s, "From", 24);
    push_str(s, "Message");
    push_str(s, "\n");
    let ghost head = s@;
    let order = sorted_order(evs);
    let ghost sorted = sort_by_time(evs@);
    let ghost mut ages: Seq<Seq<char>> = Seq::empty();
    let mut i: usize = 0;
    while i < order.len()
        invariant
            i <= order.len(),
            order@.len() == evs@.len(),
            forall|j: int| 0 <= j < order@.len() ==> (#[trigger] order@[j]) < evs@.len(),
            order@.map_values(|k: usize| evs@[k as int]) == sorted,
            sorted.len() == evs@.len(),
            ages.len() == i,
            forall|j: int| 0 <= j < i ==> age_ok(event_stamp(#[trigger] sorted[j]), ages[j]),
            s@ == head + event_lines(sorted.subrange(0, i as int), ages),
        decreases order.len() - i,
    {
        let k = order[i];
        assert(sorted[i as int] == evs@[k as int]);
        let age = write_event(s, &evs[k]);
        proof {
            let prev = ages;
            ages = ages.push(age@);
            let cur = sorted.subrange(0, i + 1);
            assert(cur.drop_last() =~= sorted.subrange(0, i as int));
            assert(ages.drop_last() =~= prev);
        }
        i += 1;
    }
    proof {
        assert(sorted.subrange(0, sorted.len() as int) =~= sorted);
        assert(s@ =~= old(s)@ + events_block(evs@, ages));
    }
    Ghost(ages)
}

// ---------------------------------------------------------------------------
// The report
// ---------------------------------------------------------------------------

/// The header lines: name, namespace, and the spec's scheduling facts.
pub open spec fn head_block(p: Pod) -> Seq<char> {
    ln("Name:             "@ + or_default(p.metadata.name, "-"@)) + ln(
        "Namespace:        "@ + or_default(p.metadata.namespace, "-"@),
    ) + match p.spec {
        Some(sp) => opt_line("Priority Class:   "@, sp.priority_class_name) + opt_line(
            "Service Account:  "@,
            sp.service_account_name,
        ) + ln("Node:             "@ + or_default(sp.node_name, "<none>"@)),
        None => Seq::empty(),
    } + match p.status {
        Some(st) => opt_line("Start Time:       "@, st.start_time),
        None => Seq::empty(),
    }
}

/// The status lines.
pub open spec fn status_block(p: Pod) -> Seq<char> {
    match p.status {
        Some(st) => ln("Status:           "@ + or_default(st.phase, "-"@)) + opt_line(
            "Reason:           "@,
            st.reason,
        ) + opt_line("IP:               "@, st.pod_ip) + opt_line(
            "QoS Class:        "@,
            st.qos_class,
        ),
        None => Seq::empty(),
    }
}

/// The containers section.
pub open spec fn containers_block(p: Pod) -> Seq<char> {
    match p.spec {
        Some(sp) => ln("Containers:"@) + container_blocks(sp.containers@, crate::pods::statuses_of(p)),
        None => Seq::empty(),
    }
}

/// The pod's conditions.
pub open spec fn pod_conditions(p: Pod) -> Option<Vec<Condition>> {
    match p.status {
        Some(st) => st.conditions,
        None => None,
    }
}

/// The full report for pod `p` with events `evs`, given the age text of each
/// event in sorted order.
pub open spec fn describe_spec(p: Pod, evs: Seq<Event>, ages: Seq<Seq<char>>) -> Seq<char> {
    head_block(p) + "Labels:           "@ + map_block(p.metadata.labels, 18) + "Annotations:      "@
        + map_block(p.metadata.annotations, 18) + status_block(p) + containers_block(p)
        + conditions_block(pod_conditions(p)) + events_block(evs, ages)
}

fn write_opt_line(s: &mut String, label: &str, v: &Option<String>)
    ensures
        final(s)@ == old(s)@ + opt_line(label@, *v),
{
    match v {
        Some(x) => {
            push_str(s, label);
            push_str(s, x.as_str());
            push_str(s, "\n");
            assert(s@ =~= old(s)@ + opt_line(label@, *v));
        },
        None => {
            assert(s@ =~= old(s)@ + opt_line(label@, *v));
        },
    }
}

#[verifier::rlimit(40)]
#[verifier::spinoff_prover]
fn write_head(s: &mut String, p: &Pod)
    ensures
        final(s)@ == old(s)@ + head_block(*p),
{
    push_str(s, "Name:             ");
    let n = text_or(&p.metadata.name, "-");
    push_str(s, n.as_str());
    push_str(s, "\n");
    push_str(s, "Namespace:        ");
    let ns = text_or(&p.metadata.namespace, "-");
    push_str(s, ns.as_str());
    push_str(s, "\n");
    let ghost a = s@;
    assert(a =~= old(s)@ + ln("Name:             "@ + or_default(p.metadata.name, "-"@)) + ln(
        "Namespace:        "@ + or_default(p.metadata.namespace, "-"@),
    ));
    match &p.spec {
        Some(sp) => {
            write_opt_line(s, "Priority Class:   ", &sp.priority_class_name);
            write_opt_line(s, "Service Account:  ", &sp.service_account_name);
            push_str(s, "Node:             ");
            let node = text_or(&sp.node_name, "<none>");
            push_str(s, node.as_str());
            push_str(s, "\n");
        },
        None => {},
    }
    let ghost b = s@;
    match &p.status {
        Some(st) => write_opt_line(s, "Start Time:       ", &st.start_time),
        None => {},
    }
    assert(s@ =~= old(s)@ + head_block(*p));
}

fn write_status(s: &mut String, p: &Pod)
    ensures
        final(s)@ == old(s)@ + status_block(*p),
{
    match &p.status {
        Some(st) => {
            push_str(s, "Status:           ");
            let ph = text_or(&st.phase, "-");
            push_str(s, ph.as_str());
            push_str(s, "\n");
            write_opt_line(s, "Reason:           ", &st.reason);
            write_opt_line(s, "IP:               ", &st.pod_ip);
            write_opt_line(s, "QoS Class:        ", &st.qos_class);
        },
        None => {},
    }
    assert(s@ =~= old(s)@ + status_block(*p));
}

fn write_containers(s: &mut String, p: &Pod)
    ensures
        final(s)@ == old(s)@ + containers_block(*p),
{
    let sp = match &p.spec {
        Some(sp) => sp,
        None => {
            assert(s@ =~= old(s)@ + containers_block(*p));
            return;
        },
    };
    let empty: Vec<ContainerStatus> = Vec::new();
    let statuses: &Vec<ContainerStatus> = match &p.status {
        Some(st) => match &st.container_statuses {
            Some(cs) => cs,
            None => &empty,
        },
        None => &empty,
    };
    assert(statuses@ == crate::pods::statuses_of(*p));
    push_str(s, "Containers:");
    push_str(s, "\n");
    let ghost head = s@;
    let mut i: usize = 0;
    while i < sp.containers.len()
        invariant
            i <= sp.containers.len(),
            s@ == head + container_blocks(sp.containers@.subrange(0, i as int), statuses@),
        decreases sp.containers.len() - i,
    {
        let ghost before = s@;
        write_container(s, &sp.containers[i], statuses);
        proof {
            let cur = sp.containers@.subrange(0, i + 1);
            assert(cur.drop_last() =~= sp.containers@.subrange(0, i as int));
        }
        i += 1;
    }
    assert(sp.containers@.subrange(0, sp.containers@.len() as int) =~= sp.containers@);
    assert(s@ =~= old(s)@ + containers_block(*p));
}

/// A `kubectl describe pod`-style report for `p` with its events `evs`
/// (events are listed oldest first; their ages depend on the current time).
pub fn describe_pod(p: &Pod, evs: &Vec<Event>) -> (r: String)
    ensures
        exists|ages: Seq<Seq<char>>| ages_ok(sort_by_time(evs@), ages) && r@ == describe_spec(
            *p,
            evs@,
            ages,
        ),
{
    let mut s = String::new();
    write_head(&mut s, p);
    push_str(&mut s, "Labels:           ");
    write_map_block(&mut s, &p.metadata.labels, 18);
    push_str(&mut s, "Annotations:      ");
    write_map_block(&mut s, &p.metadata.annotations, 18);
    write_status(&mut s, p);
    write_containers(&mut s, p);
    let conds: &Option<Vec<Condition>> = match &p.status {
        Some(st) => &st.conditions,
        None => &None,
    };
    write_conditions(&mut s, conds);
    let ages = write_events(&mut s, evs);
    assert(s@ =~= describe_spec(*p, evs@, ages@));
    s
}

/// Every key of `s` is ordered at or before the next one.
pub open spec fn times_sorted(s: Seq<Event>) -> bool {
    forall|i: int, j: int|
        0 <= i < j < s.len() ==> text_le(event_time(#[trigger] s[i]), event_time(#[trigger] s[j]))
}

proof fn lemma_text_le_total(a: Seq<char>, b: Seq<char>)
    ensures
        text_le(a, b) || text_le(b, a),
    decreases a.len(),
{
    if a.len() > 0 && b.len() > 0 && a[0] == b[0] {
        lemma_text_le_total(a.drop_first(), b.drop_first());
    }
}

proof fn lemma_text_le_trans(a: Seq<char>, b: Seq<char>, c: Seq<char>)
    requires
        text_le(a, b),
        text_le(b, c),
    ensures
        text_le(a, c),
    decreases a.len(),
{
    if a.len() > 0 && b.len() > 0 && c.len() > 0 && a[0] == b[0] && b[0] == c[0] {
        lemma_text_le_trans(a.drop_first(), b.drop_first(), c.drop_first());
    }
}

proof fn lemma_insert_bounded(s: Seq<Event>, e: Event, b: Seq<char>)
    requires
        forall|i: int| 0 <= i < s.len() ==> text_le(event_time(#[trigger] s[i]), b),
        text_le(event_time(e), b),
    ensures
        forall|k: int|
            0 <= k < insert_by_time(s, e).len() ==> text_le(
                event_time(#[trigger] insert_by_time(s, e)[k]),
                b,
            ),
    decreases s.len(),
{
    if s.len() > 0 && !text_le(event_time(s.last()), event_time(e)) {
        let t = s.drop_last();
        assert forall|i: int| 0 <= i < t.len() implies text_le(event_time(#[trigger] t[i]), b) by {
            assert(t[i] == s[i]);
        }
        lemma_insert_bounded(t, e, b);
        let r = insert_by_time(t, e);
        assert forall|k: int| 0 <= k < r.push(s.last()).len() implies text_le(
            event_time(#[trigger] r.push(s.last())[k]),
            b,
        ) by {
            if k < r.len() {
                assert(r.push(s.last())[k] == r[k]);
            } else {
                assert(s.last() == s[s.len() - 1]);
            }
        }
    } else if s.len() > 0 {
        assert forall|k: int| 0 <= k < s.push(e).len() implies text_le(
            event_time(#[trigger] s.push(e)[k]),
            b,
        ) by {
            if k < s.len() {
                assert(s.push(e)[k] == s[k]);
            }
        }
    }
}

proof fn lemma_insert_sorted(s: Seq<Event>, e: Event)
    requires
        times_sorted(s),
    ensures
        times_sorted(insert_by_time(s, e)),
        insert_by_time(s, e).to_multiset() == s.to_multiset().insert(e),
        insert_by_time(s, e).len() == s.len() + 1,
    decreases s.len(),
{
    broadcast use vstd::seq_lib::group_to_multiset_ensures;

    if s.len() == 0 {
        assert(seq![e] =~= Seq::<Event>::empty().push(e));
    } else if text_le(event_time(s.last()), event_time(e)) {
        let r = s.push(e);
        assert forall|i: int, j: int| 0 <= i < j < r.len() implies text_le(
            event_time(#[trigger] r[i]),
            event_time(#[trigger] r[j]),
        ) by {
            if j < s.len() {
                assert(r[i] == s[i] && r[j] == s[j]);
            } else {
                assert(r[i] == s[i]);
                if i < s.len() - 1 {
                    assert(s.last() == s[s.len() - 1]);
                    lemma_text_le_trans(event_time(s[i]), event_time(s.last()), event_time(e));
                }
            }
        }
    } else {
        let t = s.drop_last();
        let last = s.last();
        assert(times_sorted(t)) by {
            assert forall|i: int, j: int| 0 <= i < j < t.len() implies text_le(
                event_time(#[trigger] t[i]),
                event_time(#[trigger] t[j]),
            ) by {
                assert(t[i] == s[i] && t[j] == s[j]);
            }
        }
        lemma_insert_sorted(t, e);
        lemma_text_le_total(event_time(last), event_time(e));
        assert forall|i: int| 0 <= i < t.len() implies text_le(
            event_time(#[trigger] t[i]),
            event_time(last),
        ) by {
            assert(t[i] == s[i]);
            assert(last == s[s.len() - 1]);
        }
        lemma_insert_bounded(t, e, event_time(last));
        let m = insert_by_time(t, e);
        let r = m.push(last);
        assert forall|i: int, j: int| 0 <= i < j < r.len() implies text_le(
            event_time(#[trigger] r[i]),
            event_time(#[trigger] r[j]),
        ) by {
            assert(r[i] == m[i]);
            if j < m.len() {
                assert(r[j] == m[j]);
            } else {
                assert(r[j] == last);
            }
        }
        assert(s =~= t.push(last));
        assert(m.to_multiset() == t.to_multiset().insert(e));
        assert(r.to_multiset() =~= s.to_multiset().insert(e));
    }
}

/// The events of a description are listed oldest first (by their last, else
/// first, timestamp): the listing holds exactly the given events, ordered by
/// time.
pub proof fn law_events_listed_oldest_first(evs: Seq<Event>)
    ensures
        times_sorted(sort_by_time(evs)),
        sort_by_time(evs).to_multiset() == evs.to_multiset(),
    decreases evs.len(),
{
    broadcast use vstd::seq_lib::group_to_multiset_ensures;

    if evs.len() == 0 {
        assert(evs.to_multiset() =~= vstd::multiset::Multiset::empty());
        assert(sort_by_time(evs).to_multiset() =~= vstd::multiset::Multiset::empty());
    } else {
        let t = evs.drop_last();
        law_events_listed_oldest_first(t);
        lemma_insert_sorted(sort_by_time(t), evs.last());
        assert(evs =~= t.push(evs.last()));
    }
}

/// What a container's state reads as in a description: a running container
/// is "Running", with "Started: " and its start time when known; a waiting
/// one "Waiting (reason)" with its message; a terminated one
/// "Terminated (reason)" with its exit code; a container that reports no
/// state, or none of the three, is "Unknown" with no detail. The running
/// state wins over the others when several are set.
pub proof fn law_container_state_reads_as_its_state(st: ContainerState)
    ensures
        state_spec(None) == ("Unknown"@, Option::<Seq<char>>::None),
        st.running matches Some(r) ==> state_spec(Some(st)).0 == "Running"@ && state_spec(
            Some(st),
        ).1 == match r.started_at {
            Some(t) => Some("Started: "@ + t@),
            None => None,
        },
        st.running is None ==> (st.waiting matches Some(w) ==> state_spec(Some(st)).0
            == "Waiting ("@ + match w.reason {
            Some(x) => x@,
            None => Seq::empty(),
        } + ")"@ && state_spec(Some(st)).1 == match w.message {
            Some(m) => Some("Message: "@ + m@),
            None => None,
        }),
        st.running is None && st.waiting is None ==> (st.terminated matches Some(t) ==> state_spec(
            Some(st),
        ).0 == "Terminated ("@ + match t.reason {
            Some(x) => x@,
            None => Seq::empty(),
        } + ")"@ && state_spec(Some(st)).1 == Some("Exit Code: "@ + int_decimal(t.exit_code as int))),
        st.running is None && st.waiting is None && st.terminated is None ==> state_spec(Some(st))
            == ("Unknown"@, Option::<Seq<char>>::None),
{
}

} // verus!
