//! Pod and node rows, readiness, and the cluster health summary.
use vstd::prelude::*;

use crate::age::{age_ok, human_age};
use crate::dto::{ClusterSummary, NodeRow, PodRow};
use crate::error::{message_of, CoreError};
use crate::kinds::opt_view;
use crate::model::{Condition, ContainerStatus, Node, Pod};
use crate::text::{decimal, owned, push_char, push_str, push_u64, str_eq};

verus! {

broadcast use vstd::string::group_string_axioms;

/// The text of an optional string, or `default` when absent.
pub open spec fn or_default(o: Option<String>, default: Seq<char>) -> Seq<char> {
    match o {
        Some(s) => s@,
        None => default,
    }
}

/// An owned copy of `o`, or of `default` when absent.
pub fn text_or(o: &Option<String>, default: &str) -> (r: String)
    ensures
        r@ == or_default(*o, default@),
{
    match o {
        Some(s) => s.clone(),
        None => owned(default),
    }
}

/// The number of ready containers.
pub open spec fn ready_count(cs: Seq<ContainerStatus>) -> nat
    decreases cs.len(),
{
    if cs.len() == 0 {
        0
    } else {
        ready_count(cs.drop_last()) + if cs.last().ready {
            1nat
        } else {
            0nat
        }
    }
}

/// The sum of the restart counts, each taken as `u32`, with `u32`
/// wrap-around.
pub open spec fn restart_total(cs: Seq<ContainerStatus>) -> u32
    decreases cs.len(),
{
    if cs.len() == 0 {
        0
    } else {
        vstd::wrapping::u32_specs::wrapping_add(
            restart_total(cs.drop_last()),
            cs.last().restart_count as u32,
        )
    }
}

/// The container statuses of a pod (none when it has no status).
pub open spec fn statuses_of(p: Pod) -> Seq<ContainerStatus> {
    match p.status {
        Some(st) => match st.container_statuses {
            Some(cs) => cs@,
            None => Seq::empty(),
        },
        None => Seq::empty(),
    }
}

/// The "ready/total" text of a pod's containers.
pub open spec fn ready_text(cs: Seq<ContainerStatus>) -> Seq<char> {
    decimal(ready_count(cs)) + "/"@ + decimal(cs.len())
}

/// The names of a pod's containers (none without a spec).
pub open spec fn container_names(p: Pod) -> Seq<Seq<char>> {
    match p.spec {
        Some(s) => s.containers@.map_values(|c: crate::model::Container| c.name@),
        None => Seq::empty(),
    }
}

/// The row shown for pod `p`.
pub open spec fn pod_row_ok(r: PodRow, p: Pod) -> bool {
    &&& r.name@ == or_default(p.metadata.name, "unknown"@)
    &&& r.namespace@ == or_default(p.metadata.namespace, "default"@)
    &&& r.phase@ == match p.status {
        Some(st) => or_default(st.phase, "Unknown"@),
        None => "Unknown"@,
    }
    &&& r.ready@ == ready_text(statuses_of(p))
    &&& r.restarts == restart_total(statuses_of(p))
    &&& age_ok(opt_view(p.metadata.creation_timestamp), r.age@)
    &&& r.node@ == match p.spec {
        Some(s) => or_default(s.node_name, "-"@),
        None => "-"@,
    }
    &&& r.containers@.map_values(|c: String| c@) == container_names(p)
}

/// Ready count, total and restart sum of a list of container statuses.
fn tally(cs: &Vec<ContainerStatus>) -> (r: (usize, u32))
    ensures
        r.0 == ready_count(cs@),
        r.1 == restart_total(cs@),
{
    let mut ready: usize = 0;
    let mut restarts: u32 = 0;
    let mut i: usize = 0;
    while i < cs.len()
        invariant
            i <= cs.len(),
            ready == ready_count(cs@.subrange(0, i as int)),
            ready <= i,
            restarts == restart_total(cs@.subrange(0, i as int)),
        decreases cs.len() - i,
    {
        let ghost cur = cs@.subrange(0, i + 1);
        assert(cur.drop_last() =~= cs@.subrange(0, i as int));
        if cs[i].ready {
            ready += 1;
        }
        restarts = restarts.wrapping_add(cs[i].restart_count as u32);
        i += 1;
    }
    assert(cs@.subrange(0, cs.len() as int) =~= cs@);
    (ready, restarts)
}

/// The container names of a pod.
fn names_of_containers(p: &Pod) -> (r: Vec<String>)
    ensures
        r@.map_values(|c: String| c@) == container_names(*p),
{
    let mut r: Vec<String> = Vec::new();
    match &p.spec {
        Some(s) => {
            let mut i: usize = 0;
            while i < s.containers.len()
                invariant
                    i <= s.containers.len(),
                    r@.len() == i,
                    forall|j: int| 0 <= j < i ==> (#[trigger] r@[j])@ == s.containers@[j].name@,
                decreases s.containers.len() - i,
            {
                r.push(s.containers[i].name.clone());
                i += 1;
            }
            assert(r@.map_values(|c: String| c@) =~= s.containers@.map_values(
                |c: crate::model::Container| c.name@,
            ));
        },
        None => {
            assert(r@.map_values(|c: String| c@) =~= Seq::<Seq<char>>::empty());
        },
    }
    r
}

/// The Pods table row for `p`.
pub fn pod_row(p: &Pod) -> (r: PodRow)
    ensures
        pod_row_ok(r, *p),
{
    let empty: Vec<ContainerStatus> = Vec::new();
    let cs: &Vec<ContainerStatus> = match &p.status {
        Some(st) => match &st.container_statuses {
            Some(cs) => cs,
            None => &empty,
        },
        None => &empty,
    };
    assert(cs@ == statuses_of(*p));
    let (ready, restarts) = tally(cs);
    let mut ready_s = String::new();
    push_u64(&mut ready_s, ready as u64);
    push_str(&mut ready_s, "/");
    push_u64(&mut ready_s, cs.len() as u64);
    assert(ready_s@ =~= ready_text(statuses_of(*p)));
    let phase = match &p.status {
        Some(st) => text_or(&st.phase, "Unknown"),
        None => owned("Unknown"),
    };
    let node = match &p.spec {
        Some(s) => text_or(&s.node_name, "-"),
        None => owned("-"),
    };
    let age = match &p.metadata.creation_timestamp {
        Some(t) => human_age(Some(t.as_str())),
        None => human_age(None),
    };
    PodRow {
        name: text_or(&p.metadata.name, "unknown"),
        namespace: text_or(&p.metadata.namespace, "default"),
        phase,
        ready: ready_s,
        restarts,
        age,
        node,
        containers: names_of_containers(p),
    }
}

/// The first condition of type "Ready", if any.
pub open spec fn ready_condition(conds: Seq<Condition>) -> Option<Condition>
    decreases conds.len(),
{
    if conds.len() == 0 {
        None
    } else if conds[0].type_@ == "Ready"@ {
        Some(conds[0])
    } else {
        ready_condition(conds.drop_first())
    }
}

/// The conditions a node reports.
pub open spec fn node_conditions(n: Node) -> Seq<Condition> {
    match n.status {
        Some(st) => match st.conditions {
            Some(c) => c@,
            None => Seq::empty(),
        },
        None => Seq::empty(),
    }
}

/// A node is ready when its first "Ready" condition has status "True".
pub open spec fn node_ready_spec(n: Node) -> bool {
    match ready_condition(node_conditions(n)) {
        Some(c) => c.status@ == "True"@,
        None => false,
    }
}

/// The status word of a node: "Ready", "NotReady", or "Unknown" without a
/// "Ready" condition.
pub open spec fn node_status_spec(n: Node) -> Seq<char> {
    match ready_condition(node_conditions(n)) {
        Some(c) => if c.status@ == "True"@ {
            "Ready"@
        } else {
            "NotReady"@
        },
        None => "Unknown"@,
    }
}

/// The first "Ready" condition of a list, by position.
fn find_ready(conds: &Vec<Condition>) -> (r: Option<usize>)
    ensures
        match r {
            Some(i) => i < conds@.len() && ready_condition(conds@) == Some(conds@[i as int]),
            None => ready_condition(conds@) is None,
        },
{
    let mut i: usize = 0;
    assert(conds@.subrange(0, conds@.len() as int) =~= conds@);
    while i < conds.len()
        invariant
            i <= conds.len(),
            ready_condition(conds@) == ready_condition(conds@.subrange(i as int, conds@.len() as int)),
        decreases conds.len() - i,
    {
        let ghost rest = conds@.subrange(i as int, conds@.len() as int);
        assert(rest[0] == conds@[i as int]);
        if str_eq(conds[i].type_.as_str(), "Ready") {
            return Some(i);
        }
        assert(rest.drop_first() =~= conds@.subrange(i + 1, conds@.len() as int));
        i += 1;
    }
    None
}

/// The "Ready" condition of a node, if it reports one.
fn node_ready_condition(n: &Node) -> (r: Option<&Condition>)
    ensures
        match r {
            Some(c) => ready_condition(node_conditions(*n)) == Some(*c),
            None => ready_condition(node_conditions(*n)) is None,
        },
{
    match &n.status {
        Some(st) => match &st.conditions {
            Some(conds) => match find_ready(conds) {
                Some(i) => Some(&conds[i]),
                None => None,
            },
            None => None,
        },
        None => None,
    }
}

/// Whether a node reports itself ready.
pub fn node_is_ready(n: &Node) -> (r: bool)
    ensures
        r == node_ready_spec(*n),
{
    match node_ready_condition(n) {
        Some(c) => str_eq(c.status.as_str(), "True"),
        None => false,
    }
}

/// Whether a label map has key `k`.
pub open spec fn has_key(m: Option<Vec<(String, String)>>, k: Seq<char>) -> bool {
    match m {
        Some(v) => exists|i: int| 0 <= i < v@.len() && (#[trigger] v@[i]).0@ == k,
        None => false,
    }
}

/// Whether a key/value list has key `k`.
pub fn contains_key(m: &Vec<(String, String)>, k: &str) -> (r: bool)
    ensures
        r == exists|i: int| 0 <= i < m@.len() && (#[trigger] m@[i]).0@ == k@,
{
    let mut i: usize = 0;
    while i < m.len()
        invariant
            i <= m.len(),
            forall|j: int| 0 <= j < i ==> (#[trigger] m@[j]).0@ != k@,
        decreases m.len() - i,
    {
        if str_eq(m[i].0.as_str(), k) {
            return true;
        }
        i += 1;
    }
    false
}

/// The role of a node: "control-plane" when labelled as one (or as a
/// master), otherwise "worker".
pub open spec fn node_role_spec(n: Node) -> Seq<char> {
    if has_key(n.metadata.labels, "node-role.kubernetes.io/control-plane"@) || has_key(
        n.metadata.labels,
        "node-role.kubernetes.io/master"@,
    ) {
        "control-plane"@
    } else {
        "worker"@
    }
}

/// The role of a node.
pub fn node_roles(n: &Node) -> (r: String)
    ensures
        r@ == node_role_spec(*n),
{
    match &n.metadata.labels {
        Some(labels) => {
            if contains_key(labels, "node-role.kubernetes.io/control-plane") || contains_key(
                labels,
                "node-role.kubernetes.io/master",
            ) {
                owned("control-plane")
            } else {
                owned("worker")
            }
        },
        None => owned("worker"),
    }
}

/// The row shown for node `n`.
pub open spec fn node_row_ok(r: NodeRow, n: Node) -> bool {
    &&& r.name@ == or_default(n.metadata.name, "unknown"@)
    &&& r.status@ == node_status_spec(n)
    &&& r.roles@ == node_role_spec(n)
    &&& r.version@ == match n.status {
        Some(st) => match st.node_info {
            Some(i) => i.kubelet_version@,
            None => "unknown"@,
        },
        None => "unknown"@,
    }
    &&& age_ok(opt_view(n.metadata.creation_timestamp), r.age@)
}

/// The Nodes table row for `n`.
pub fn node_row(n: &Node) -> (r: NodeRow)
    ensures
        node_row_ok(r, *n),
{
    let status = match node_ready_condition(n) {
        Some(c) => if str_eq(c.status.as_str(), "True") {
            owned("Ready")
        } else {
            owned("NotReady")
        },
        None => owned("Unknown"),
    };
    let version = match &n.status {
        Some(st) => match &st.node_info {
            Some(i) => i.kubelet_version.clone(),
            None => owned("unknown"),
        },
        None => owned("unknown"),
    };
    let age = match &n.metadata.creation_timestamp {
        Some(t) => human_age(Some(t.as_str())),
        None => human_age(None),
    };
    NodeRow {
        name: text_or(&n.metadata.name, "unknown"),
        status,
        roles: node_roles(n),
        version,
        age,
    }
}

/// The version label of a cluster: its git version, or "v<major>.<minor>"
/// when that is empty.
pub fn version_label(git_version: &str, major: &str, minor: &str) -> (r: String)
    ensures
        git_version@.len() > 0 ==> r@ == git_version@,
        git_version@.len() == 0 ==> r@ == "v"@ + major@ + "."@ + minor@,
{
    if git_version.is_empty() {
        let mut r = owned("v");
        push_str(&mut r, major);
        push_str(&mut r, ".");
        push_str(&mut r, minor);
        r
    } else {
        owned(git_version)
    }
}

/// The number of ready nodes.
pub open spec fn ready_nodes(ns: Seq<Node>) -> nat
    decreases ns.len(),
{
    if ns.len() == 0 {
        0
    } else {
        ready_nodes(ns.drop_last()) + if node_ready_spec(ns.last()) {
            1nat
        } else {
            0nat
        }
    }
}

/// Whether a pod is in phase "Running".
pub open spec fn pod_running(p: Pod) -> bool {
    match p.status {
        Some(st) => match st.phase {
            Some(ph) => ph@ == "Running"@,
            None => false,
        },
        None => false,
    }
}

/// The number of running pods.
pub open spec fn running_pods(ps: Seq<Pod>) -> nat
    decreases ps.len(),
{
    if ps.len() == 0 {
        0
    } else {
        running_pods(ps.drop_last()) + if pod_running(ps.last()) {
            1nat
        } else {
            0nat
        }
    }
}

/// A count as the summary reports it (`as u32`).
pub open spec fn count32(n: nat) -> u32 {
    n as u32
}

fn count_ready_nodes(ns: &Vec<Node>) -> (r: usize)
    ensures
        r == ready_nodes(ns@),
        r <= ns@.len(),
{
    let mut c: usize = 0;
    let mut i: usize = 0;
    while i < ns.len()
        invariant
            i <= ns.len(),
            c == ready_nodes(ns@.subrange(0, i as int)),
            c <= i,
        decreases ns.len() - i,
    {
        assert(ns@.subrange(0, i + 1).drop_last() =~= ns@.subrange(0, i as int));
        if node_is_ready(&ns[i]) {
            c += 1;
        }
        i += 1;
    }
    assert(ns@.subrange(0, ns.len() as int) =~= ns@);
    c
}

fn is_running(p: &Pod) -> (r: bool)
    ensures
        r == pod_running(*p),
{
    match &p.status {
        Some(st) => match &st.phase {
            Some(ph) => str_eq(ph.as_str(), "Running"),
            None => false,
        },
        None => false,
    }
}

fn count_running_pods(ps: &Vec<Pod>) -> (r: usize)
    ensures
        r == running_pods(ps@),
        r <= ps@.len(),
{
    let mut c: usize = 0;
    let mut i: usize = 0;
    while i < ps.len()
        invariant
            i <= ps.len(),
            c == running_pods(ps@.subrange(0, i as int)),
            c <= i,
        decreases ps.len() - i,
    {
        assert(ps@.subrange(0, i + 1).drop_last() =~= ps@.subrange(0, i as int));
        if is_running(&ps[i]) {
            c += 1;
        }
        i += 1;
    }
    assert(ps@.subrange(0, ps.len() as int) =~= ps@);
    c
}

/// The summary of a cluster whose version probe answered `version` and
/// whose node, pod, namespace and deployment lists answered as given (`None`
/// for a list that was refused).
pub open spec fn summary_ok(
    r: ClusterSummary,
    version: Result<String, CoreError>,
    nodes: Option<Vec<Node>>,
    pods: Option<Vec<Pod>>,
    namespaces: Option<usize>,
    deployments: Option<usize>,
) -> bool {
    match version {
        Err(e) => {
            &&& !r.reachable
            &&& r.version is None && r.nodes_total is None && r.nodes_ready is None
            &&& r.pods_total is None && r.pods_running is None
            &&& r.namespaces is None && r.deployments is None
            &&& r.error matches Some(m) && m@ == message_of(e)
        },
        Ok(v) => {
            &&& r.reachable
            &&& r.version == Some(v)
            &&& r.error is None
            &&& r.nodes_total == match nodes {
                Some(ns) => Some(count32(ns@.len())),
                None => None,
            }
            &&& r.nodes_ready == match nodes {
                Some(ns) => Some(count32(ready_nodes(ns@))),
                None => None,
            }
            &&& r.pods_total == match pods {
                Some(ps) => Some(count32(ps@.len())),
                None => None,
            }
            &&& r.pods_running == match pods {
                Some(ps) => Some(count32(running_pods(ps@))),
                None => None,
            }
            &&& r.namespaces == match namespaces {
                Some(n) => Some(count32(n as nat)),
                None => None,
            }
            &&& r.deployments == match deployments {
                Some(n) => Some(count32(n as nat)),
                None => None,
            }
        },
    }
}

/// Count nodes, ready nodes, pods, running pods, namespaces and deployments.
/// The version probe is the reachability gate; the lists are best-effort.
pub fn summarize(
    version: Result<String, CoreError>,
    nodes: Option<Vec<Node>>,
    pods: Option<Vec<Pod>>,
    namespaces: Option<usize>,
    deployments: Option<usize>,
) -> (r: ClusterSummary)
    ensures
        summary_ok(r, version, nodes, pods, namespaces, deployments),
{
    let v = match version {
        Ok(v) => v,
        Err(e) => {
            let m = e.to_string();
            return ClusterSummary::unreachable(m.as_str());
        },
    };
    let (nodes_total, nodes_ready) = match &nodes {
        Some(ns) => (Some(ns.len() as u32), Some(count_ready_nodes(ns) as u32)),
        None => (None, None),
    };
    let (pods_total, pods_running) = match &pods {
        Some(ps) => (Some(ps.len() as u32), Some(count_running_pods(ps) as u32)),
        None => (None, None),
    };
    ClusterSummary {
        reachable: true,
        version: Some(v),
        nodes_total,
        nodes_ready,
        pods_total,
        pods_running,
        namespaces: match namespaces {
            Some(n) => Some(n as u32),
            None => None,
        },
        deployments: match deployments {
            Some(n) => Some(n as u32),
            None => None,
        },
        error: None,
    }
}

/// Ready nodes never outnumber nodes, nor running pods pods.
pub proof fn law_summary_counts_bounded(ns: Seq<Node>, ps: Seq<Pod>)
    ensures
        ready_nodes(ns) <= ns.len(),
        running_pods(ps) <= ps.len(),
    decreases ns.len() + ps.len(),
{
    if ns.len() > 0 {
        law_summary_counts_bounded(ns.drop_last(), ps);
    }
    if ps.len() > 0 {
        law_summary_counts_bounded(ns, ps.drop_last());
    }
}

/// The ready count of a pod's containers never exceeds their number.
pub proof fn law_ready_at_most_total(cs: Seq<ContainerStatus>)
    ensures
        ready_count(cs) <= cs.len(),
    decreases cs.len(),
{
    if cs.len() > 0 {
        law_ready_at_most_total(cs.drop_last());
    }
}

/// The ready count of a pod's containers is the number of its container
/// statuses that report ready: each ready container counts once, no other
/// does.
pub proof fn law_ready_count_counts_ready_containers(cs: Seq<ContainerStatus>)
    ensures
        ready_count(cs) == cs.filter(|c: ContainerStatus| c.ready).len(),
        (forall|i: int| 0 <= i < cs.len() ==> #[trigger] cs[i].ready) ==> ready_count(cs)
            == cs.len(),
        (forall|i: int| 0 <= i < cs.len() ==> !#[trigger] cs[i].ready) ==> ready_count(cs) == 0,
    decreases cs.len(),
{
    reveal(Seq::filter);
    let f = |c: ContainerStatus| c.ready;
    if cs.len() > 0 {
        law_ready_count_counts_ready_containers(cs.drop_last());
        assert(cs.filter(f) == if f(cs.last()) {
            cs.drop_last().filter(f).push(cs.last())
        } else {
            cs.drop_last().filter(f)
        });
        assert forall|i: int| 0 <= i < cs.drop_last().len() implies #[trigger] cs.drop_last()[i]
            == cs[i] by {}
        if forall|i: int| 0 <= i < cs.len() ==> #[trigger] cs[i].ready {
            assert(cs.last().ready);
            assert forall|i: int| 0 <= i < cs.drop_last().len() implies #[trigger] cs.drop_last()[i].ready by {
                assert(cs[i].ready);
            }
        }
        if forall|i: int| 0 <= i < cs.len() ==> !#[trigger] cs[i].ready {
            assert(!cs[cs.len() - 1].ready);
            assert forall|i: int| 0 <= i < cs.drop_last().len() implies !#[trigger] cs.drop_last()[i].ready by {
                assert(!cs[i].ready);
            }
        }
    }
}

/// A pod counts as running exactly when it reports the phase "Running";
/// the number of running pods is the number of such pods, so a pod in any
/// other phase (a completed "Succeeded" one, say) is not counted.
pub proof fn law_running_means_phase_running(ps: Seq<Pod>, p: Pod)
    ensures
        pod_running(p) == (p.status matches Some(st) && st.phase matches Some(ph) && ph@
            == "Running"@),
        running_pods(ps) == ps.filter(
            |q: Pod| q.status matches Some(st) && st.phase matches Some(ph) && ph@ == "Running"@,
        ).len(),
        (p.status matches Some(st) && st.phase matches Some(ph) && ph@ != "Running"@)
            ==> running_pods(ps.push(p)) == running_pods(ps),
    decreases ps.len(),
{
    reveal(Seq::filter);
    let f = |q: Pod| q.status matches Some(st) && st.phase matches Some(ph) && ph@ == "Running"@;
    if ps.len() > 0 {
        law_running_means_phase_running(ps.drop_last(), p);
        assert(ps.filter(f) == if f(ps.last()) {
            ps.drop_last().filter(f).push(ps.last())
        } else {
            ps.drop_last().filter(f)
        });
    }
    assert(ps.push(p).drop_last() =~= ps);
}

/// The condition that decides a node's readiness is its first condition of
/// type "Ready": none when it reports no such condition.
pub proof fn law_ready_condition_is_first_ready(conds: Seq<Condition>)
    ensures
        ready_condition(conds) is None <==> (forall|i: int| 0 <= i < conds.len() ==> #[trigger] conds[i].type_@
            != "Ready"@),
        ready_condition(conds) matches Some(c) ==> exists|i: int|
            0 <= i < conds.len() && #[trigger] conds[i] == c && c.type_@ == "Ready"@ && forall|j: int|
                0 <= j < i ==> conds[j].type_@ != "Ready"@,
    decreases conds.len(),
{
    if conds.len() > 0 {
        let rest = conds.drop_first();
        law_ready_condition_is_first_ready(rest);
        assert forall|i: int| 0 <= i < rest.len() implies #[trigger] rest[i] == conds[i + 1] by {}
        if conds[0].type_@ != "Ready"@ {
            if ready_condition(conds) is None {
                assert forall|i: int| 0 <= i < conds.len() implies #[trigger] conds[i].type_@
                    != "Ready"@ by {
                    if i > 0 {
                        assert(rest[i - 1] == conds[i]);
                    }
                }
            } else {
                let c = ready_condition(conds)->0;
                let i = choose|i: int|
                    0 <= i < rest.len() && #[trigger] rest[i] == c && c.type_@ == "Ready"@ && forall|j: int|
                        0 <= j < i ==> rest[j].type_@ != "Ready"@;
                assert(conds[i + 1] == c);
                assert forall|j: int| 0 <= j < i + 1 implies conds[j].type_@ != "Ready"@ by {
                    if j > 0 {
                        assert(rest[j - 1] == conds[j]);
                    }
                }
            }
            if forall|i: int| 0 <= i < conds.len() ==> #[trigger] conds[i].type_@ != "Ready"@ {
                assert forall|i: int| 0 <= i < rest.len() implies #[trigger] rest[i].type_@
                    != "Ready"@ by {
                    assert(conds[i + 1].type_@ != "Ready"@);
                }
            }
        } else {
            assert(conds[0] == ready_condition(conds)->0);
        }
    }
}

/// A node reads "Ready" exactly when its first "Ready" condition has status
/// "True", "NotReady" when that condition has another status, and "Unknown"
/// when it has no such condition; the ready node count is the number of
/// nodes that read "Ready".
pub proof fn law_node_status_words(ns: Seq<Node>, n: Node)
    ensures
        node_status_spec(n) == match ready_condition(node_conditions(n)) {
            Some(c) => if c.status@ == "True"@ {
                "Ready"@
            } else {
                "NotReady"@
            },
            None => "Unknown"@,
        },
        node_ready_spec(n) == (ready_condition(node_conditions(n)) matches Some(c) && c.status@
            == "True"@),
        ready_nodes(ns) == ns.filter(
            |m: Node| ready_condition(node_conditions(m)) matches Some(c) && c.status@ == "True"@,
        ).len(),
    decreases ns.len(),
{
    reveal(Seq::filter);
    let f = |m: Node| ready_condition(node_conditions(m)) matches Some(c) && c.status@ == "True"@;
    if ns.len() > 0 {
        law_node_status_words(ns.drop_last(), n);
        assert(ns.filter(f) == if f(ns.last()) {
            ns.drop_last().filter(f).push(ns.last())
        } else {
            ns.drop_last().filter(f)
        });
    }
}

} // verus!
