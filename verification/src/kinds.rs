//! Resource kinds and the decisions behind every per-kind operation: which
//! kinds can be listed, fetched, deleted or restarted, which of them live in a
//! namespace, and the error each refused request is answered with.
use vstd::prelude::*;

use crate::error::CoreError;
use crate::text::{all_ws, cat, cat3, is_blank, is_ws, owned, str_eq};

verus! {

broadcast use vstd::string::group_string_axioms;

/// `namespace` normalized: "All" or blank means cluster-wide (`None`).
pub open spec fn scope_spec(namespace: Option<Seq<char>>) -> Option<Seq<char>> {
    match namespace {
        Some(ns) => if ns != "All"@ && !all_ws(ns) {
            Some(ns)
        } else {
            None
        },
        None => None,
    }
}

/// The view of an optional string.
pub open spec fn opt_view(o: Option<String>) -> Option<Seq<char>> {
    match o {
        Some(s) => Some(s@),
        None => None,
    }
}

/// "All" / blank → cluster-wide (`None`); otherwise a concrete namespace.
pub fn normalize_scope(namespace: Option<String>) -> (r: Option<String>)
    ensures
        opt_view(r) == scope_spec(opt_view(namespace)),
        r matches Some(s) ==> namespace == Some(s),
{
    match namespace {
        Some(ns) => {
            if !str_eq(ns.as_str(), "All") && !is_blank(ns.as_str()) {
                Some(ns)
            } else {
                None
            }
        },
        None => None,
    }
}

/// Normalizing a namespace scope twice is normalizing it once.
pub proof fn law_scope_normalization_idempotent(namespace: Option<Seq<char>>)
    ensures
        scope_spec(scope_spec(namespace)) == scope_spec(namespace),
{
}

/// Every Kubernetes resource kind the application knows.
#[derive(Debug, Clone, Copy, PartialEq, Eq, Structural)]
pub enum ResourceKind {
    Pods,
    Nodes,
    Namespaces,
    Services,
    Deployments,
    StatefulSets,
    DaemonSets,
    Jobs,
    CronJobs,
    ConfigMaps,
    Secrets,
    Pvcs,
    Pvs,
    StorageClasses,
    Ingresses,
    IngressClasses,
    NetworkPolicies,
    ServiceAccounts,
    Roles,
    RoleBindings,
    ClusterRoles,
    ClusterRoleBindings,
    Crds,
}

/// The kind a request names, by its URL/command spelling.
pub open spec fn kind_spec(s: Seq<char>) -> Option<ResourceKind> {
    if s == "pods"@ {
        Some(ResourceKind::Pods)
    } else if s == "nodes"@ {
        Some(ResourceKind::Nodes)
    } else if s == "namespaces"@ {
        Some(ResourceKind::Namespaces)
    } else if s == "services"@ {
        Some(ResourceKind::Services)
    } else if s == "deployments"@ {
        Some(ResourceKind::Deployments)
    } else if s == "statefulsets"@ {
        Some(ResourceKind::StatefulSets)
    } else if s == "daemonsets"@ {
        Some(ResourceKind::DaemonSets)
    } else if s == "jobs"@ {
        Some(ResourceKind::Jobs)
    } else if s == "cronjobs"@ {
        Some(ResourceKind::CronJobs)
    } else if s == "configmaps"@ {
        Some(ResourceKind::ConfigMaps)
    } else if s == "secrets"@ {
        Some(ResourceKind::Secrets)
    } else if s == "pvcs"@ {
        Some(ResourceKind::Pvcs)
    } else if s == "pvs"@ {
        Some(ResourceKind::Pvs)
    } else if s == "storageclasses"@ {
        Some(ResourceKind::StorageClasses)
    } else if s == "ingresses"@ {
        Some(ResourceKind::Ingresses)
    } else if s == "ingressclasses"@ {
        Some(ResourceKind::IngressClasses)
    } else if s == "networkpolicies"@ {
        Some(ResourceKind::NetworkPolicies)
    } else if s == "serviceaccounts"@ {
        Some(ResourceKind::ServiceAccounts)
    } else if s == "roles"@ {
        Some(ResourceKind::Roles)
    } else if s == "rolebindings"@ {
        Some(ResourceKind::RoleBindings)
    } else if s == "clusterroles"@ {
        Some(ResourceKind::ClusterRoles)
    } else if s == "clusterrolebindings"@ {
        Some(ResourceKind::ClusterRoleBindings)
    } else if s == "crds"@ {
        Some(ResourceKind::Crds)
    } else {
        None
    }
}

/// Whether objects of kind `k` live inside a namespace.
pub open spec fn namespaced(k: ResourceKind) -> bool {
    match k {
        ResourceKind::Nodes | ResourceKind::Namespaces | ResourceKind::Pvs
        | ResourceKind::StorageClasses | ResourceKind::IngressClasses
        | ResourceKind::ClusterRoles | ResourceKind::ClusterRoleBindings
        | ResourceKind::Crds => false,
        _ => true,
    }
}

/// Whether the generic table listing serves kind `k` (pods and nodes have
/// dedicated listings of their own).
pub open spec fn table_listable(k: ResourceKind) -> bool {
    k != ResourceKind::Pods && k != ResourceKind::Nodes
}

/// Whether objects of kind `k` may be deleted; nodes never are.
pub open spec fn deletable(k: ResourceKind) -> bool {
    k != ResourceKind::Nodes
}

/// Whether kind `k` supports a rolling restart through its pod template.
pub open spec fn rollout_kind(k: ResourceKind) -> bool {
    k == ResourceKind::Deployments || k == ResourceKind::StatefulSets || k
        == ResourceKind::DaemonSets
}

impl ResourceKind {
    /// The kind named by `s`, if any.
    pub fn parse(s: &str) -> (r: Option<ResourceKind>)
        ensures
            r == kind_spec(s@),
    {
        if str_eq(s, "pods") {
            Some(ResourceKind::Pods)
        } else if str_eq(s, "nodes") {
            Some(ResourceKind::Nodes)
        } else if str_eq(s, "namespaces") {
            Some(ResourceKind::Namespaces)
        } else if str_eq(s, "services") {
            Some(ResourceKind::Services)
        } else if str_eq(s, "deployments") {
            Some(ResourceKind::Deployments)
        } else if str_eq(s, "statefulsets") {
            Some(ResourceKind::StatefulSets)
        } else if str_eq(s, "daemonsets") {
            Some(ResourceKind::DaemonSets)
        } else if str_eq(s, "jobs") {
            Some(ResourceKind::Jobs)
        } else if str_eq(s, "cronjobs") {
            Some(ResourceKind::CronJobs)
        } else if str_eq(s, "configmaps") {
            Some(ResourceKind::ConfigMaps)
        } else if str_eq(s, "secrets") {
            Some(ResourceKind::Secrets)
        } else if str_eq(s, "pvcs") {
            Some(ResourceKind::Pvcs)
        } else if str_eq(s, "pvs") {
            Some(ResourceKind::Pvs)
        } else if str_eq(s, "storageclasses") {
            Some(ResourceKind::StorageClasses)
        } else if str_eq(s, "ingresses") {
            Some(ResourceKind::Ingresses)
        } else if str_eq(s, "ingressclasses") {
            Some(ResourceKind::IngressClasses)
        } else if str_eq(s, "networkpolicies") {
            Some(ResourceKind::NetworkPolicies)
        } else if str_eq(s, "serviceaccounts") {
            Some(ResourceKind::ServiceAccounts)
        } else if str_eq(s, "roles") {
            Some(ResourceKind::Roles)
        } else if str_eq(s, "rolebindings") {
            Some(ResourceKind::RoleBindings)
        } else if str_eq(s, "clusterroles") {
            Some(ResourceKind::ClusterRoles)
        } else if str_eq(s, "clusterrolebindings") {
            Some(ResourceKind::ClusterRoleBindings)
        } else if str_eq(s, "crds") {
            Some(ResourceKind::Crds)
        } else {
            None
        }
    }

    /// Whether objects of this kind live inside a namespace.
    pub fn is_namespaced(&self) -> (r: bool)
        ensures
            r == namespaced(*self),
    {
        match self {
            ResourceKind::Nodes | ResourceKind::Namespaces | ResourceKind::Pvs
            | ResourceKind::StorageClasses | ResourceKind::IngressClasses
            | ResourceKind::ClusterRoles | ResourceKind::ClusterRoleBindings
            | ResourceKind::Crds => false,
            _ => true,
        }
    }

    /// The short Rust type name of the object (e.g. "Deployment"), used in
    /// operation descriptions such as "delete Deployment".
    pub fn short_kind(&self) -> (r: &'static str)
        ensures
            r@ == short_kind_spec(*self),
    {
        match self {
            ResourceKind::Pods => "Pod",
            ResourceKind::Nodes => "Node",
            ResourceKind::Namespaces => "Namespace",
            ResourceKind::Services => "Service",
            ResourceKind::Deployments => "Deployment",
            ResourceKind::StatefulSets => "StatefulSet",
            ResourceKind::DaemonSets => "DaemonSet",
            ResourceKind::Jobs => "Job",
            ResourceKind::CronJobs => "CronJob",
            ResourceKind::ConfigMaps => "ConfigMap",
            ResourceKind::Secrets => "Secret",
            ResourceKind::Pvcs => "PersistentVolumeClaim",
            ResourceKind::Pvs => "PersistentVolume",
            ResourceKind::StorageClasses => "StorageClass",
            ResourceKind::Ingresses => "Ingress",
            ResourceKind::IngressClasses => "IngressClass",
            ResourceKind::NetworkPolicies => "NetworkPolicy",
            ResourceKind::ServiceAccounts => "ServiceAccount",
            ResourceKind::Roles => "Role",
            ResourceKind::RoleBindings => "RoleBinding",
            ResourceKind::ClusterRoles => "ClusterRole",
            ResourceKind::ClusterRoleBindings => "ClusterRoleBinding",
            ResourceKind::Crds => "CustomResourceDefinition",
        }
    }
}

/// The API kind name of a resource kind, as used in log messages.
pub open spec fn short_kind_spec(k: ResourceKind) -> Seq<char> {
    match k {
        ResourceKind::Pods => "Pod"@,
        ResourceKind::Nodes => "Node"@,
        ResourceKind::Namespaces => "Namespace"@,
        ResourceKind::Services => "Service"@,
        ResourceKind::Deployments => "Deployment"@,
        ResourceKind::StatefulSets => "StatefulSet"@,
        ResourceKind::DaemonSets => "DaemonSet"@,
        ResourceKind::Jobs => "Job"@,
        ResourceKind::CronJobs => "CronJob"@,
        ResourceKind::ConfigMaps => "ConfigMap"@,
        ResourceKind::Secrets => "Secret"@,
        ResourceKind::Pvcs => "PersistentVolumeClaim"@,
        ResourceKind::Pvs => "PersistentVolume"@,
        ResourceKind::StorageClasses => "StorageClass"@,
        ResourceKind::Ingresses => "Ingress"@,
        ResourceKind::IngressClasses => "IngressClass"@,
        ResourceKind::NetworkPolicies => "NetworkPolicy"@,
        ResourceKind::ServiceAccounts => "ServiceAccount"@,
        ResourceKind::Roles => "Role"@,
        ResourceKind::RoleBindings => "RoleBinding"@,
        ResourceKind::ClusterRoles => "ClusterRole"@,
        ResourceKind::ClusterRoleBindings => "ClusterRoleBinding"@,
        ResourceKind::Crds => "CustomResourceDefinition"@,
    }
}

/// Where a list request looks.
#[derive(Debug, Clone)]
pub enum ListTarget {
    /// Every namespace of a namespaced kind.
    AllNamespaces,
    /// One namespace of a namespaced kind.
    Namespace(String),
    /// A cluster-scoped kind.
    Cluster,
}

/// One object addressed by kind, namespace (for namespaced kinds) and name.
#[derive(Debug, Clone)]
pub struct ObjectRef {
    pub kind: ResourceKind,
    pub namespace: Option<String>,
    pub name: String,
}

/// What a restart request does.
#[derive(Debug, Clone)]
pub enum RestartAction {
    /// A bare pod is deleted; its controller, if any, recreates it.
    Delete(ObjectRef),
    /// A workload controller gets a `restartedAt` annotation in its pod
    /// template, in the given namespace.
    Rollout(ObjectRef),
}

/// The error for a kind that is not known at all.
pub open spec fn unknown_kind_msg(kind: Seq<char>) -> Seq<char> {
    "Unknown resource kind: "@ + kind
}

/// `r` failed with `CoreError::Other(msg)`.
pub open spec fn fails_with<T>(r: Result<T, CoreError>, msg: Seq<char>) -> bool {
    match r {
        Err(CoreError::Other(m)) => m@ == msg,
        _ => false,
    }
}

/// `o` addresses the object named `name` of kind `k` in namespace `ns`.
pub open spec fn refers_to(o: ObjectRef, k: ResourceKind, ns: Option<Seq<char>>, name: Seq<char>) -> bool {
    o.kind == k && opt_view(o.namespace) == ns && o.name@ == name
}

/// The view of an optional string slice.
pub open spec fn opt_str_view(o: Option<&str>) -> Option<Seq<char>> {
    match o {
        Some(s) => Some(s@),
        None => None,
    }
}

/// The error for a namespaced kind addressed without a namespace.
pub open spec fn namespace_required_msg() -> Seq<char> {
    "A namespace is required for this resource"@
}

/// The expected list target for a table listing of `k` within `scope`.
pub open spec fn list_target_ok(k: ResourceKind, scope: Option<String>, t: ListTarget) -> bool {
    if !namespaced(k) {
        t is Cluster
    } else {
        match scope {
            Some(ns) => t == ListTarget::Namespace(ns),
            None => t is AllNamespaces,
        }
    }
}

/// The outcome expected of a table listing request.
pub open spec fn list_ok(kind: Seq<char>, scope: Option<String>, r: Result<(ResourceKind, ListTarget), CoreError>) -> bool {
    match kind_spec(kind) {
        Some(k) => if table_listable(k) {
            match r {
                Ok((k2, t)) => k2 == k && list_target_ok(k, scope, t),
                Err(_) => false,
            }
        } else {
            fails_with(r, unknown_kind_msg(kind))
        },
        None => fails_with(r, unknown_kind_msg(kind)),
    }
}

/// Where a list of namespaced objects looks for the given (normalized) scope.
pub fn namespaced_target(scope: Option<String>) -> (r: ListTarget)
    ensures
        scope matches Some(ns) ==> r == ListTarget::Namespace(ns),
        scope is None ==> r is AllNamespaces,
{
    match scope {
        Some(ns) => ListTarget::Namespace(ns),
        None => ListTarget::AllNamespaces,
    }
}

/// Decide a generic table listing: the kind must be one the table listing
/// serves; cluster-scoped kinds ignore the scope.
pub fn plan_list(kind: &str, scope: Option<String>) -> (r: Result<(ResourceKind, ListTarget), CoreError>)
    ensures
        list_ok(kind@, scope, r),
{
    match ResourceKind::parse(kind) {
        Some(k) => {
            if k == ResourceKind::Pods || k == ResourceKind::Nodes {
                Err(CoreError::Other(cat("Unknown resource kind: ", kind)))
            } else if k.is_namespaced() {
                Ok((k, namespaced_target(scope)))
            } else {
                Ok((k, ListTarget::Cluster))
            }
        },
        None => Err(CoreError::Other(cat("Unknown resource kind: ", kind))),
    }
}

/// The outcome expected of addressing one object of a known kind `k`.
pub open spec fn object_ok(
    k: ResourceKind,
    namespace: Option<&str>,
    name: Seq<char>,
    r: Result<ObjectRef, CoreError>,
) -> bool {
    if namespaced(k) && namespace is None {
        fails_with(r, namespace_required_msg())
    } else {
        match r {
            Ok(o) => refers_to(o, k, if namespaced(k) { opt_str_view(namespace) } else { None }, name),
            Err(_) => false,
        }
    }
}

/// Address one object of a known kind; namespaced kinds need a namespace.
pub fn address(k: ResourceKind, namespace: Option<&str>, name: &str) -> (r: Result<
    ObjectRef,
    CoreError,
>)
    ensures
        object_ok(k, namespace, name@, r),
{
    if k.is_namespaced() {
        match namespace {
            Some(ns) => Ok(ObjectRef { kind: k, namespace: Some(owned(ns)), name: owned(name) }),
            None => Err(CoreError::Other(owned("A namespace is required for this resource"))),
        }
    } else {
        Ok(ObjectRef { kind: k, namespace: None, name: owned(name) })
    }
}

/// Decide a single-object fetch: any known kind, addressed by namespace
/// (when namespaced) and name. An unknown kind is refused first.
pub fn plan_get(kind: &str, namespace: Option<&str>, name: &str) -> (r: Result<ObjectRef, CoreError>)
    ensures
        match kind_spec(kind@) {
            Some(k) => object_ok(k, namespace, name@, r),
            None => fails_with(r, unknown_kind_msg(kind@)),
        },
{
    match ResourceKind::parse(kind) {
        Some(k) => address(k, namespace, name),
        None => Err(CoreError::Other(cat("Unknown resource kind: ", kind))),
    }
}

/// The error for a kind that cannot be deleted.
pub open spec fn delete_refused_msg(kind: Seq<char>) -> Seq<char> {
    "Deleting '"@ + kind + "' is not supported"@
}

/// Decide a delete: every known kind except nodes.
pub fn plan_delete(kind: &str, namespace: Option<&str>, name: &str) -> (r: Result<
    ObjectRef,
    CoreError,
>)
    ensures
        match kind_spec(kind@) {
            Some(k) => if deletable(k) {
                object_ok(k, namespace, name@, r)
            } else {
                fails_with(r, delete_refused_msg(kind@))
            },
            None => fails_with(r, delete_refused_msg(kind@)),
        },
{
    match ResourceKind::parse(kind) {
        Some(k) => {
            if k == ResourceKind::Nodes {
                Err(CoreError::Other(cat3("Deleting '", kind, "' is not supported")))
            } else {
                address(k, namespace, name)
            }
        },
        None => Err(CoreError::Other(cat3("Deleting '", kind, "' is not supported"))),
    }
}

/// The error for a kind that cannot be restarted.
pub open spec fn restart_refused_msg(kind: Seq<char>) -> Seq<char> {
    "Restarting '"@ + kind + "' is not supported"@
}

/// The outcome expected of a restart request.
pub open spec fn restart_ok(
    kind: Seq<char>,
    namespace: Option<&str>,
    name: Seq<char>,
    r: Result<RestartAction, CoreError>,
) -> bool {
    if kind == "pods"@ {
        match r {
            Ok(RestartAction::Delete(o)) => object_ok(ResourceKind::Pods, namespace, name, Ok(o)),
            Ok(RestartAction::Rollout(_)) => false,
            Err(e) => object_ok(ResourceKind::Pods, namespace, name, Err(e)),
        }
    } else if namespace is None {
        fails_with(r, namespace_required_msg())
    } else {
        match kind_spec(kind) {
            Some(k) => if rollout_kind(k) {
                match r {
                    Ok(RestartAction::Rollout(o)) => refers_to(o, k, opt_str_view(namespace), name),
                    _ => false,
                }
            } else {
                fails_with(r, restart_refused_msg(kind))
            },
            None => fails_with(r, restart_refused_msg(kind)),
        }
    }
}

/// Decide a restart. A pod restart is a pod delete. Any other request needs a
/// namespace first, and then a workload controller kind.
pub fn plan_restart(kind: &str, namespace: Option<&str>, name: &str) -> (r: Result<
    RestartAction,
    CoreError,
>)
    ensures
        restart_ok(kind@, namespace, name@, r),
{
    if str_eq(kind, "pods") {
        return match address(ResourceKind::Pods, namespace, name) {
            Ok(o) => Ok(RestartAction::Delete(o)),
            Err(e) => Err(e),
        };
    }
    let ns = match namespace {
        Some(ns) => ns,
        None => {
            return Err(CoreError::Other(owned("A namespace is required for this resource")));
        },
    };
    match ResourceKind::parse(kind) {
        Some(k) => {
            if k == ResourceKind::Deployments || k == ResourceKind::StatefulSets || k
                == ResourceKind::DaemonSets {
                Ok(RestartAction::Rollout(ObjectRef { kind: k, namespace: Some(owned(ns)), name: owned(name) }))
            } else {
                Err(CoreError::Other(cat3("Restarting '", kind, "' is not supported")))
            }
        },
        None => Err(CoreError::Other(cat3("Restarting '", kind, "' is not supported"))),
    }
}

/// The namespace a pod is described in and the field selector of its
/// events; a pod is only described within a concrete namespace.
pub fn plan_describe(namespace: &str, name: &str) -> (r: Result<(String, String), CoreError>)
    ensures
        match scope_spec(Some(namespace@)) {
            None => fails_with(r, "A namespace is required to describe a pod"@),
            Some(ns) => r matches Ok((n, sel)) && n@ == ns && sel@
                == "involvedObject.kind=Pod,involvedObject.name="@ + name@,
        },
{
    match normalize_scope(Some(owned(namespace))) {
        None => Err(CoreError::Other(owned("A namespace is required to describe a pod"))),
        Some(ns) => Ok((ns, cat("involvedObject.kind=Pod,involvedObject.name=", name))),
    }
}

/// The namespace a configmap is edited in and the data it is given: an
/// empty map removes the data; a configmap is only edited within a concrete
/// namespace.
pub fn plan_configmap_update(namespace: &str, data: Vec<(String, String)>) -> (r: Result<
    (String, Option<Vec<(String, String)>>),
    CoreError,
>)
    ensures
        match scope_spec(Some(namespace@)) {
            None => fails_with(r, "A namespace is required to edit a configmap"@),
            Some(ns) => r matches Ok((n, d)) && n@ == ns && d == (if data@.len() == 0 {
                None
            } else {
                Some(data)
            }),
        },
{
    match normalize_scope(Some(owned(namespace))) {
        None => Err(CoreError::Other(owned("A namespace is required to edit a configmap"))),
        Some(ns) => {
            let d = if data.len() == 0 {
                None
            } else {
                Some(data)
            };
            Ok((ns, d))
        },
    }
}

/// A namespace scope means all namespaces (`None`) exactly when it is
/// missing, is "All", or is blank; any other namespace is used as given.
pub proof fn law_scope_all_or_as_given(namespace: Option<Seq<char>>)
    ensures
        scope_spec(namespace) is None <==> match namespace {
            None => true,
            Some(ns) => ns == "All"@ || forall|i: int| 0 <= i < ns.len() ==> is_ws(#[trigger] ns[i]),
        },
        scope_spec(namespace) matches Some(s) ==> namespace == Some(s),
{
}

} // verus!
