//! Kubeconfig handling: the contexts a kubeconfig declares, the active
//! context, and the K3S heuristic shown as a badge in the context switcher.
use vstd::prelude::*;

use crate::dto::ContextInfo;
use crate::kinds::opt_view;
use crate::text::{
    all_ascii, ascii_lower, contains, contains_spec, owned, str_eq,
};

verus! {

broadcast use vstd::string::group_string_axioms;

/// A cluster entry of a kubeconfig: its name and API server URL, if given.
#[derive(Debug, Clone)]
pub struct ClusterEntry {
    pub name: String,
    pub server: Option<String>,
}

/// The body of a context entry: the cluster it points at and its namespace.
#[derive(Debug, Clone)]
pub struct ContextBody {
    pub cluster: String,
    pub namespace: Option<String>,
}

/// A named context entry of a kubeconfig (the body may be absent).
#[derive(Debug, Clone)]
pub struct ContextEntry {
    pub name: String,
    pub context: Option<ContextBody>,
}

/// What the manager reads of a loaded kubeconfig.
#[derive(Debug, Clone)]
pub struct Kubeconfig {
    pub current_context: Option<String>,
    pub clusters: Vec<ClusterEntry>,
    pub contexts: Vec<ContextEntry>,
}

/// Options selecting the context to build a client for.
#[derive(Debug, Clone)]
pub struct KubeConfigOptions {
    pub context: Option<String>,
    pub cluster: Option<String>,
    pub user: Option<String>,
}

/// `s.to_lowercase()` (Unicode lower-casing).
pub uninterp spec fn lowercase(s: Seq<char>) -> Seq<char>;

/// `str::to_lowercase`. Claims that the result is the Unicode lower-casing of
/// `s`, which for ASCII text is the ASCII lower-casing.
#[verifier::external_body]
pub(crate) fn to_lowercase(s: &str) -> (r: String)
    ensures
        r@ == lowercase(s@),
        all_ascii(s@) ==> r@ == ascii_lower(s@),
{
    s.to_lowercase()
}

/// The K3S heuristic over the lower-cased server URL `s` and the lower-cased
/// "<context> <cluster>" text `name`.
pub open spec fn k3s_spec(name: Seq<char>, s: Seq<char>) -> bool {
    ||| contains_spec(s, ":6443"@)
    ||| contains_spec(s, "127.0.0.1"@)
    ||| contains_spec(s, "localhost"@)
    ||| contains_spec(name, "k3s"@)
    ||| contains_spec(name, "k3d"@)
    ||| (contains_spec(name, "default"@) && contains_spec(s, "6443"@))
}

/// Whether the context named `context_name` on cluster `cluster_name` served
/// at `server` looks like a K3S (or k3d) cluster.
pub open spec fn detect_k3s_spec(
    context_name: Seq<char>,
    cluster_name: Seq<char>,
    server: Seq<char>,
) -> bool {
    k3s_spec(lowercase(context_name + " "@ + cluster_name), lowercase(server))
}

/// Heuristic K3S detection (the single place it is decided).
pub fn detect_k3s(context_name: &str, cluster_name: &str, server: &str) -> (r: bool)
    ensures
        r == detect_k3s_spec(context_name@, cluster_name@, server@),
        all_ascii(context_name@ + " "@ + cluster_name@) && all_ascii(server@) ==> r == k3s_spec(
            ascii_lower(context_name@ + " "@ + cluster_name@),
            ascii_lower(server@),
        ),
{
    let s = to_lowercase(server);
    let joined = crate::text::cat3(context_name, " ", cluster_name);
    let name = to_lowercase(joined.as_str());
    contains(s.as_str(), ":6443") || contains(s.as_str(), "127.0.0.1") || contains(
        s.as_str(),
        "localhost",
    ) || contains(name.as_str(), "k3s") || contains(name.as_str(), "k3d") || (contains(
        name.as_str(),
        "default",
    ) && contains(s.as_str(), "6443"))
}

/// The server of the last cluster entry named `name` that gives a server,
/// or the empty text.
pub open spec fn server_of(clusters: Seq<ClusterEntry>, name: Seq<char>) -> Seq<char>
    decreases clusters.len(),
{
    if clusters.len() == 0 {
        Seq::empty()
    } else if clusters.last().name@ == name && clusters.last().server is Some {
        clusters.last().server->0@
    } else {
        server_of(clusters.drop_last(), name)
    }
}

/// The cluster a context entry points at ("unknown" when it has no body).
pub open spec fn cluster_of(e: ContextEntry) -> Seq<char> {
    match e.context {
        Some(b) => b.cluster@,
        None => "unknown"@,
    }
}

/// The context info listed for entry `e` of a kubeconfig with `clusters`.
pub open spec fn info_ok(i: ContextInfo, e: ContextEntry, clusters: Seq<ClusterEntry>) -> bool {
    &&& i.name@ == e.name@
    &&& i.cluster@ == cluster_of(e)
    &&& i.server@ == server_of(clusters, cluster_of(e))
    &&& i.is_k3s == detect_k3s_spec(e.name@, cluster_of(e), server_of(clusters, cluster_of(e)))
}

/// The contexts listed for a kubeconfig: one per context entry, in order.
pub open spec fn infos_ok(infos: Seq<ContextInfo>, kc: Kubeconfig) -> bool {
    &&& infos.len() == kc.contexts@.len()
    &&& forall|i: int|
        0 <= i < infos.len() ==> info_ok(#[trigger] infos[i], kc.contexts@[i], kc.clusters@)
}

/// Loads kubeconfigs, lists their contexts and tracks the selected one.
#[derive(Debug)]
pub struct KubeConfigManager {
    pub kubeconfig: Option<Kubeconfig>,
    pub path: Option<String>,
    pub contexts: Vec<ContextInfo>,
    pub current_context: Option<String>,
}

/// The context that should be used for connecting: the selected one, else
/// the first listed.
pub open spec fn effective_spec(current: Option<String>, contexts: Seq<ContextInfo>) -> Option<
    Seq<char>,
> {
    match current {
        Some(c) => Some(c@),
        None => if contexts.len() > 0 {
            Some(contexts[0].name@)
        } else {
            None
        },
    }
}

impl KubeConfigManager {
    /// An empty manager: nothing loaded, no contexts.
    pub fn new() -> (r: Self)
        ensures
            r.kubeconfig is None,
            r.path is None,
            r.contexts@.len() == 0,
            r.current_context is None,
    {
        KubeConfigManager { kubeconfig: None, path: None, contexts: Vec::new(), current_context: None }
    }

    /// The server of the last cluster entry named `name` that gives one.
    fn lookup_server(clusters: &Vec<ClusterEntry>, name: &str) -> (r: String)
        ensures
            r@ == server_of(clusters@, name@),
    {
        let mut found: Option<String> = None;
        let mut i: usize = 0;
        while i < clusters.len()
            invariant
                i <= clusters.len(),
                match found {
                    Some(f) => f@ == server_of(clusters@.subrange(0, i as int), name@) && f@
                        == server_of(clusters@.subrange(0, i as int), name@),
                    None => server_of(clusters@.subrange(0, i as int), name@).len() == 0
                        && forall|j: int|
                        0 <= j < i ==> !(clusters@[j].name@ == name@ && clusters@[j].server is Some),
                },
            decreases clusters.len() - i,
        {
            let c = &clusters[i];
            let ghost pre = clusters@.subrange(0, i as int);
            let ghost cur = clusters@.subrange(0, i + 1);
            assert(cur.drop_last() =~= pre);
            assert(cur.last() == *c);
            if str_eq(c.name.as_str(), name) {
                match &c.server {
                    Some(s) => {
                        found = Some(s.clone());
                    },
                    None => {},
                }
            }
            i += 1;
        }
        assert(clusters@.subrange(0, clusters.len() as int) =~= clusters@);
        match found {
            Some(f) => f,
            None => String::new(),
        }
    }

    /// Replace the loaded kubeconfig with `kc` (read from `path`): list its
    /// contexts with their clusters, servers and K3S badge, and select its
    /// current context, falling back to the first context.
    pub fn populate_from(&mut self, kc: Kubeconfig, path: Option<String>)
        ensures
            final(self).kubeconfig == Some(kc),
            final(self).path == path,
            infos_ok(final(self).contexts@, kc),
            opt_view(final(self).current_context) == effective_spec(
                kc.current_context,
                final(self).contexts@,
            ),
    {
        let mut infos: Vec<ContextInfo> = Vec::new();
        let mut i: usize = 0;
        while i < kc.contexts.len()
            invariant
                i <= kc.contexts.len(),
                infos@.len() == i,
                forall|j: int| 0 <= j < i ==> info_ok(#[trigger] infos@[j], kc.contexts@[j], kc.clusters@),
            decreases kc.contexts.len() - i,
        {
            let e = &kc.contexts[i];
            let cluster_name = match &e.context {
                Some(b) => b.cluster.clone(),
                None => owned("unknown"),
            };
            let server = Self::lookup_server(&kc.clusters, cluster_name.as_str());
            let is_k3s = detect_k3s(e.name.as_str(), cluster_name.as_str(), server.as_str());
            infos.push(ContextInfo { name: e.name.clone(), cluster: cluster_name, server, is_k3s });
            i += 1;
        }
        let current = match &kc.current_context {
            Some(c) => Some(c.clone()),
            None => if infos.len() > 0 {
                Some(infos[0].name.clone())
            } else {
                None
            },
        };
        self.kubeconfig = Some(kc);
        self.path = path;
        self.contexts = infos;
        self.current_context = current;
    }

    /// The listed info of the selected context, if it is listed.
    pub fn current_info(&self) -> (r: Option<&ContextInfo>)
        ensures
            match self.current_context {
                None => r is None,
                Some(cur) => match r {
                    Some(info) => exists|i: int|
                        0 <= i < self.contexts@.len() && self.contexts@[i] == *info && info.name@
                            == cur@ && forall|j: int|
                            0 <= j < i ==> self.contexts@[j].name@ != cur@,
                    None => forall|j: int|
                        0 <= j < self.contexts@.len() ==> self.contexts@[j].name@ != cur@,
                },
            },
    {
        let name = match &self.current_context {
            Some(n) => n,
            None => return None,
        };
        let mut i: usize = 0;
        while i < self.contexts.len()
            invariant
                i <= self.contexts.len(),
                self.current_context == Some(*name),
                forall|j: int| 0 <= j < i ==> self.contexts@[j].name@ != name@,
            decreases self.contexts.len() - i,
        {
            if str_eq(self.contexts[i].name.as_str(), name.as_str()) {
                return Some(&self.contexts[i]);
            }
            i += 1;
        }
        None
    }

    /// The context name that should be used for connecting (the selected one,
    /// or the first available).
    pub fn effective_context(&self) -> (r: Option<&str>)
        ensures
            match r {
                Some(s) => effective_spec(self.current_context, self.contexts@) == Some(s@),
                None => effective_spec(self.current_context, self.contexts@) is None,
            },
    {
        match &self.current_context {
            Some(c) => Some(c.as_str()),
            None => if self.contexts.len() > 0 {
                Some(self.contexts[0].name.as_str())
            } else {
                None
            },
        }
    }

    /// The namespace declared by the effective context in the kubeconfig
    /// itself (`contexts[].context.namespace`), if any.
    pub fn current_context_namespace(&self) -> (r: Option<String>)
        ensures
            opt_view(r) == context_namespace_spec(
                effective_spec(self.current_context, self.contexts@),
                self.kubeconfig,
            ),
    {
        let name = match self.effective_context() {
            Some(n) => n,
            None => return None,
        };
        let kc = match &self.kubeconfig {
            Some(k) => k,
            None => return None,
        };
        let mut i: usize = 0;
        while i < kc.contexts.len()
            invariant
                i <= kc.contexts.len(),
                self.kubeconfig == Some(*kc),
                effective_spec(self.current_context, self.contexts@) == Some(name@),
                forall|j: int| 0 <= j < i ==> kc.contexts@[j].name@ != name@,
            decreases kc.contexts.len() - i,
        {
            let e = &kc.contexts[i];
            if str_eq(e.name.as_str(), name) {
                proof {
                    lemma_first_context_entry(kc.contexts@, name@, i as int);
                }
                return match &e.context {
                    Some(b) => match &b.namespace {
                        Some(ns) => Some(ns.clone()),
                        None => None,
                    },
                    None => None,
                };
            }
            i += 1;
        }
        proof {
            lemma_no_context_entry(kc.contexts@, name@);
        }
        None
    }

    /// Options for building a client for the effective context.
    pub fn current_kubeconfig_options(&self) -> (r: Option<KubeConfigOptions>)
        ensures
            match r {
                Some(o) => o.cluster is None && o.user is None && opt_view(o.context)
                    == effective_spec(self.current_context, self.contexts@) && o.context is Some,
                None => effective_spec(self.current_context, self.contexts@) is None,
            },
    {
        match self.effective_context() {
            Some(name) => Some(
                KubeConfigOptions { context: Some(owned(name)), cluster: None, user: None },
            ),
            None => None,
        }
    }
}

/// The first context entry named `name`, if any.
pub open spec fn first_entry(entries: Seq<ContextEntry>, name: Seq<char>) -> Option<ContextEntry>
    decreases entries.len(),
{
    if entries.len() == 0 {
        None
    } else if entries[0].name@ == name {
        Some(entries[0])
    } else {
        first_entry(entries.drop_first(), name)
    }
}

/// The namespace that the first context entry named `name` declares.
pub open spec fn context_namespace_spec(name: Option<Seq<char>>, kc: Option<Kubeconfig>) -> Option<
    Seq<char>,
> {
    match (name, kc) {
        (Some(n), Some(k)) => match first_entry(k.contexts@, n) {
            Some(e) => match e.context {
                Some(b) => opt_view(b.namespace),
                None => None,
            },
            None => None,
        },
        _ => None,
    }
}

proof fn lemma_first_context_entry(entries: Seq<ContextEntry>, name: Seq<char>, i: int)
    requires
        0 <= i < entries.len(),
        entries[i].name@ == name,
        forall|j: int| 0 <= j < i ==> entries[j].name@ != name,
    ensures
        first_entry(entries, name) == Some(entries[i]),
    decreases i,
{
    if i > 0 {
        let t = entries.drop_first();
        assert forall|j: int| 0 <= j < i - 1 implies t[j].name@ != name by {
            assert(t[j] == entries[j + 1]);
        }
        lemma_first_context_entry(t, name, i - 1);
    }
}

proof fn lemma_no_context_entry(entries: Seq<ContextEntry>, name: Seq<char>)
    requires
        forall|j: int| 0 <= j < entries.len() ==> entries[j].name@ != name,
    ensures
        first_entry(entries, name) is None,
    decreases entries.len(),
{
    if entries.len() > 0 {
        let t = entries.drop_first();
        assert forall|j: int| 0 <= j < t.len() implies t[j].name@ != name by {
            assert(t[j] == entries[j + 1]);
        }
        lemma_no_context_entry(t, name);
    }
}

} // verus!
