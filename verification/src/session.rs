//! The desktop session's decisions: the status reported to the frontend,
//! context selection, what a direct connection needs and records, startup
//! preferences, and the messages shown when a step fails.
use vstd::prelude::*;

use crate::dto::{BackendStatus, ContextInfo, KubeStatus};
use crate::error::{message_of, CoreError};
use crate::kinds::opt_view;
use crate::manager::{effective_spec, KubeConfigManager, KubeConfigOptions};
use crate::settings::{
    effective_path_spec, first_with_id, is_first_path, no_id, no_path, registered, AppState,
    KubeconfigEntry,
};
use crate::settings::file_name_of;
use crate::text::{all_ws, cat, cat3, clone_opt, is_blank, owned, push_str, str_eq};

verus! {

broadcast use vstd::string::group_string_axioms;

/// What the session's decisions read of the active connection: its cluster
/// version and, for a connection through a backend, the backend's endpoint.
#[derive(Debug, Clone)]
pub enum Active {
    /// A direct connection with a kubeconfig.
    Local { cluster_version: String },
    /// A connection through a remote backend.
    Remote { cluster_version: String, endpoint: String },
}

/// The cluster version of a connection.
pub open spec fn version_of(a: Active) -> Seq<char> {
    match a {
        Active::Local { cluster_version } => cluster_version@,
        Active::Remote { cluster_version, .. } => cluster_version@,
    }
}

impl Active {
    /// The cluster version reported when the connection was made.
    pub fn cluster_version(&self) -> (r: String)
        ensures
            r@ == version_of(*self),
    {
        match self {
            Active::Local { cluster_version } => cluster_version.clone(),
            Active::Remote { cluster_version, .. } => cluster_version.clone(),
        }
    }

    /// The backend's base URL, for a remote connection.
    pub fn endpoint(&self) -> (r: Option<&str>)
        ensures
            match self {
                Active::Remote { endpoint, .. } => r is Some && r->0@ == endpoint@,
                Active::Local { .. } => r is None,
            },
    {
        match self {
            Active::Remote { endpoint, .. } => Some(endpoint.as_str()),
            Active::Local { .. } => None,
        }
    }
}

/// The friendly name of the active registered connection, if any.
pub open spec fn active_name_spec(s: AppState) -> Option<Seq<char>> {
    match s.active_kubeconfig_id {
        Some(id) => match first_with_id(s.kubeconfigs@, id@) {
            Some(i) => Some(s.kubeconfigs@[i].name@),
            None => None,
        },
        None => None,
    }
}

/// The status reported for a session: a remote connection reports its
/// endpoint and friendly name and no local contexts; otherwise the loaded
/// kubeconfig's path, contexts and selection are reported.
pub open spec fn status_spec(
    r: KubeStatus,
    active: Option<Active>,
    m: KubeConfigManager,
    s: AppState,
    error: Option<String>,
) -> bool {
    match active {
        Some(Active::Remote { cluster_version, endpoint }) => {
            &&& r.connected
            &&& opt_view(r.cluster_version) == Some(cluster_version@)
            &&& opt_view(r.current_context) == active_name_spec(s)
            &&& opt_view(r.kubeconfig_path) == Some(endpoint@)
            &&& r.context_count == 0
            &&& r.contexts@.len() == 0
            &&& r.error == error
        },
        _ => {
            &&& r.connected == active is Some
            &&& opt_view(r.cluster_version) == match active {
                Some(a) => Some(version_of(a)),
                None => None,
            }
            &&& r.current_context == m.current_context
            &&& r.kubeconfig_path == m.path
            &&& r.context_count == m.contexts@.len()
            &&& r.contexts@ == m.contexts@
            &&& r.error == error
        },
    }
}

fn copy_contexts(v: &Vec<ContextInfo>) -> (r: Vec<ContextInfo>)
    ensures
        r@ == v@,
{
    let mut r: Vec<ContextInfo> = Vec::new();
    let mut i: usize = 0;
    while i < v.len()
        invariant
            i <= v.len(),
            r@ == v@.subrange(0, i as int),
        decreases v.len() - i,
    {
        r.push(v[i].clone());
        i += 1;
        assert(r@ =~= v@.subrange(0, i as int));
    }
    assert(v@.subrange(0, v.len() as int) =~= v@);
    r
}

/// The connection and kubeconfig status shown by the frontend.
pub fn status_report(
    active: &Option<Active>,
    manager: &KubeConfigManager,
    settings: &AppState,
    error: Option<String>,
) -> (r: KubeStatus)
    ensures
        status_spec(r, *active, *manager, *settings, error),
{
    match active {
        Some(Active::Remote { cluster_version, endpoint }) => {
            let name = match settings.active_kubeconfig() {
                Some(e) => Some(e.name.clone()),
                None => None,
            };
            KubeStatus {
                connected: true,
                cluster_version: Some(cluster_version.clone()),
                current_context: name,
                kubeconfig_path: Some(endpoint.clone()),
                context_count: 0,
                contexts: Vec::new(),
                error,
            }
        },
        _ => {
            let version = match active {
                Some(a) => Some(a.cluster_version()),
                None => None,
            };
            KubeStatus {
                connected: active.is_some(),
                cluster_version: version,
                current_context: clone_opt(&manager.current_context),
                kubeconfig_path: clone_opt(&manager.path),
                context_count: manager.contexts.len(),
                contexts: copy_contexts(&manager.contexts),
                error,
            }
        },
    }
}

/// Whether a context named `name` is listed.
pub open spec fn has_context(cs: Seq<ContextInfo>, name: Seq<char>) -> bool {
    exists|i: int| 0 <= i < cs.len() && cs[i].name@ == name
}

/// Select the listed context `name`; nothing changes when it is not listed.
/// Answers whether it was selected (the active connection then goes stale).
pub fn select_context(manager: &mut KubeConfigManager, name: &str) -> (found: bool)
    ensures
        found == has_context(old(manager).contexts@, name@),
        final(manager).kubeconfig == old(manager).kubeconfig,
        final(manager).path == old(manager).path,
        final(manager).contexts == old(manager).contexts,
        found ==> opt_view(final(manager).current_context) == Some(name@),
        !found ==> final(manager).current_context == old(manager).current_context,
{
    let mut i: usize = 0;
    while i < manager.contexts.len()
        invariant
            i <= manager.contexts.len(),
            *manager == *old(manager),
            forall|j: int| 0 <= j < i ==> manager.contexts@[j].name@ != name@,
        decreases manager.contexts.len() - i,
    {
        if str_eq(manager.contexts[i].name.as_str(), name) {
            assert(manager.contexts@[i as int].name@ == name@);
            manager.current_context = Some(owned(name));
            return true;
        }
        i += 1;
    }
    false
}

/// The message for a context that the kubeconfig does not list.
pub open spec fn context_missing_msg(name: Seq<char>) -> Seq<char> {
    "Context '"@ + name + "' not found in the kubeconfig"@
}

/// Select a specific context to open; an error when it is not listed.
pub fn open_context(manager: &mut KubeConfigManager, name: &str) -> (r: Result<(), String>)
    ensures
        r is Ok == has_context(old(manager).contexts@, name@),
        final(manager).kubeconfig == old(manager).kubeconfig,
        final(manager).path == old(manager).path,
        final(manager).contexts == old(manager).contexts,
        match r {
            Ok(_) => opt_view(final(manager).current_context) == Some(name@),
            Err(e) => e@ == context_missing_msg(name@) && final(manager).current_context == old(
                manager,
            ).current_context,
        },
{
    if select_context(manager, name) {
        Ok(())
    } else {
        Err(cat3("Context '", name, "' not found in the kubeconfig"))
    }
}

/// The message shown when a direct connection fails: a timeout gets the
/// list of common causes, any other error its text.
pub open spec fn connect_failure_spec(server: Seq<char>, e: CoreError) -> Seq<char> {
    match e {
        CoreError::Timeout(_) => "Connection to "@ + server
            + " timed out after 15s. Common causes: server unreachable from this machine, firewall, wrong network/VPN, or TLS verification failure. Try the same `kubectl` command from this exact terminal."@,
        _ => "Failed to connect to "@ + server + ": "@ + message_of(e),
    }
}

/// The message for a failed direct connection to `server`.
pub fn connect_failure_message(server: &str, e: &CoreError) -> (r: String)
    ensures
        r@ == connect_failure_spec(server@, *e),
{
    match e {
        CoreError::Timeout(_) => cat3(
            "Connection to ",
            server,
            " timed out after 15s. Common causes: server unreachable from this machine, firewall, wrong network/VPN, or TLS verification failure. Try the same `kubectl` command from this exact terminal.",
        ),
        _ => {
            let mut m = cat3("Failed to connect to ", server, ": ");
            let t = e.to_string();
            push_str(&mut m, t.as_str());
            m
        },
    }
}

/// The server of the first listed context named `name` (empty if none).
pub open spec fn server_for(cs: Seq<ContextInfo>, name: Seq<char>) -> Seq<char>
    decreases cs.len(),
{
    if cs.len() == 0 {
        Seq::empty()
    } else if cs[0].name@ == name {
        cs[0].server@
    } else {
        server_for(cs.drop_first(), name)
    }
}

proof fn lemma_server_for_first(cs: Seq<ContextInfo>, name: Seq<char>, i: int)
    requires
        0 <= i < cs.len(),
        cs[i].name@ == name,
        forall|j: int| 0 <= j < i ==> cs[j].name@ != name,
    ensures
        server_for(cs, name) == cs[i].server@,
    decreases i,
{
    if i > 0 {
        let t = cs.drop_first();
        assert forall|j: int| 0 <= j < i - 1 implies t[j].name@ != name by {
            assert(t[j] == cs[j + 1]);
        }
        lemma_server_for_first(t, name, i - 1);
    }
}

proof fn lemma_server_for_none(cs: Seq<ContextInfo>, name: Seq<char>)
    requires
        forall|j: int| 0 <= j < cs.len() ==> cs[j].name@ != name,
    ensures
        server_for(cs, name) == Seq::<char>::empty(),
    decreases cs.len(),
{
    if cs.len() > 0 {
        let t = cs.drop_first();
        assert forall|j: int| 0 <= j < t.len() implies t[j].name@ != name by {
            assert(t[j] == cs[j + 1]);
        }
        lemma_server_for_none(t, name);
    }
}

/// What a direct connection is made with: the client options, the context's
/// name (for messages) and the server it points at.
#[derive(Debug, Clone)]
pub struct DirectPlan {
    pub options: KubeConfigOptions,
    pub context: String,
    pub server: String,
}

/// The server shown for the selected context (empty when none is selected
/// or listed).
pub open spec fn selected_server(m: KubeConfigManager) -> Seq<char> {
    match m.current_context {
        Some(c) => server_for(m.contexts@, c@),
        None => Seq::empty(),
    }
}

/// Prepare a direct connection: refused without a context to use or without
/// a loaded kubeconfig.
pub fn plan_direct_connect(manager: &KubeConfigManager) -> (r: Result<DirectPlan, String>)
    ensures
        match r {
            Ok(p) => {
                &&& effective_spec(manager.current_context, manager.contexts@) is Some
                &&& manager.kubeconfig is Some
                &&& p.options.cluster is None
                &&& p.options.user is None
                &&& opt_view(p.options.context) == effective_spec(
                    manager.current_context,
                    manager.contexts@,
                )
                &&& Some(p.context@) == effective_spec(manager.current_context, manager.contexts@)
                &&& p.server@ == selected_server(*manager)
            },
            Err(e) => if effective_spec(manager.current_context, manager.contexts@) is None {
                e@ == "No context selected in kubeconfig"@
            } else {
                manager.kubeconfig is None && e@ == "No kubeconfig loaded"@
            },
        },
{
    let options = match manager.current_kubeconfig_options() {
        Some(o) => o,
        None => return Err(owned("No context selected in kubeconfig")),
    };
    if manager.kubeconfig.is_none() {
        return Err(owned("No kubeconfig loaded"));
    }
    let context = match manager.effective_context() {
        Some(c) => owned(c),
        None => owned("unknown"),
    };
    let server = match manager.current_info() {
        Some(info) => {
            proof {
                let cur = manager.current_context->0;
                let i = choose|i: int|
                    0 <= i < manager.contexts@.len() && manager.contexts@[i] == *info
                        && info.name@ == cur@ && forall|j: int|
                        0 <= j < i ==> manager.contexts@[j].name@ != cur@;
                lemma_server_for_first(manager.contexts@, cur@, i);
            }
            info.server.clone()
        },
        None => {
            proof {
                if manager.current_context is Some {
                    lemma_server_for_none(manager.contexts@, manager.current_context->0@);
                }
            }
            String::new()
        },
    };
    Ok(DirectPlan { options, context, server })
}

/// `new` is `old` with `last_context` changed only.
pub open spec fn with_last_context(old: KubeconfigEntry, new: KubeconfigEntry, c: Seq<char>) -> bool {
    &&& new.id == old.id
    &&& new.path == old.path
    &&& new.name == old.name
    &&& new.description == old.description
    &&& opt_view(new.last_context) == Some(c)
}

/// What a successful direct connection records: the loaded path and the
/// selected context as the last ones used, and the context on the first
/// entry registered for that path.
pub open spec fn recorded_spec(old: AppState, new: AppState, m: KubeConfigManager) -> bool {
    &&& new.last_kubeconfig_path == m.path
    &&& new.last_context == m.current_context
    &&& new.active_kubeconfig_id == old.active_kubeconfig_id
    &&& new.registered_kubeconfigs == old.registered_kubeconfigs
    &&& new.active_kubeconfig_path == old.active_kubeconfig_path
    &&& new.kubeconfig_path == old.kubeconfig_path
    &&& new.default_namespace == old.default_namespace
    &&& new.theme_mode == old.theme_mode
    &&& new.font_scale_bits == old.font_scale_bits
    &&& new.log_level == old.log_level
    &&& new.custom_accent == old.custom_accent
    &&& new.color_scheme == old.color_scheme
    &&& new.show_right_panel == old.show_right_panel
    &&& new.auto_refresh_secs == old.auto_refresh_secs
    &&& match (m.path, m.current_context) {
        (Some(p), Some(c)) => if no_path(old.kubeconfigs@, p@) {
            new.kubeconfigs == old.kubeconfigs
        } else {
            exists|i: int|
                #![trigger is_first_path(old.kubeconfigs@, p@, i)]
                is_first_path(old.kubeconfigs@, p@, i) && new.kubeconfigs@.len()
                    == old.kubeconfigs@.len() && with_last_context(
                    old.kubeconfigs@[i],
                    new.kubeconfigs@[i],
                    c@,
                ) && forall|j: int|
                    0 <= j < old.kubeconfigs@.len() && j != i ==> new.kubeconfigs@[j]
                        == old.kubeconfigs@[j]
        },
        _ => new.kubeconfigs == old.kubeconfigs,
    }
}

/// Record a successful direct connection in the settings.
pub fn record_direct_connection(settings: &mut AppState, manager: &KubeConfigManager)
    ensures
        recorded_spec(*old(settings), *final(settings), *manager),
{
    settings.last_kubeconfig_path = clone_opt(&manager.path);
    settings.last_context = clone_opt(&manager.current_context);
    match (&manager.path, &manager.current_context) {
        (Some(path), Some(ctx)) => {
            match settings.index_of_path(path.as_str()) {
                Some(i) => {
                    let old_entry = settings.kubeconfigs[i].clone();
                    let entry = KubeconfigEntry {
                        id: old_entry.id,
                        path: old_entry.path,
                        name: old_entry.name,
                        description: old_entry.description,
                        last_context: Some(ctx.clone()),
                    };
                    settings.kubeconfigs.set(i, entry);
                },
                None => {},
            }
        },
        _ => {},
    }
}

/// Take in the end of a direct connection attempt to `server`: a success is
/// recorded in the settings and leaves no error to report; a failure leaves
/// the settings as they were and gives the message to report.
pub fn finish_direct_connect(
    settings: &mut AppState,
    manager: &KubeConfigManager,
    server: &str,
    outcome: Result<(), CoreError>,
) -> (error: Option<String>)
    ensures
        match outcome {
            Ok(_) => error is None && recorded_spec(*old(settings), *final(settings), *manager),
            Err(e) => *final(settings) == *old(settings) && error is Some && error->0@
                == connect_failure_spec(server@, e),
        },
{
    match outcome {
        Ok(()) => {
            record_direct_connection(settings, manager);
            None
        },
        Err(e) => Some(connect_failure_message(server, &e)),
    }
}

/// The kubeconfig loaded at startup: the legacy active path, then the legacy
/// configured path, then the last loaded one.
pub open spec fn preferred_path_spec(s: AppState) -> Option<Seq<char>> {
    match s.active_kubeconfig_path {
        Some(p) => Some(p@),
        None => match s.kubeconfig_path {
            Some(p) => Some(p@),
            None => opt_view(s.last_kubeconfig_path),
        },
    }
}

/// The kubeconfig path to load at startup.
pub fn preferred_kubeconfig_path(settings: &AppState) -> (r: Option<&str>)
    ensures
        match r {
            Some(p) => preferred_path_spec(*settings) == Some(p@),
            None => preferred_path_spec(*settings) is None,
        },
{
    match &settings.active_kubeconfig_path {
        Some(p) => Some(p.as_str()),
        None => match &settings.kubeconfig_path {
            Some(p) => Some(p.as_str()),
            None => match &settings.last_kubeconfig_path {
                Some(p) => Some(p.as_str()),
                None => None,
            },
        },
    }
}

/// Ensure the kubeconfig the settings prefer is registered, so the manager
/// lists it.
pub fn register_effective(settings: &mut AppState)
    ensures
        match effective_path_spec(*old(settings)) {
            Some(p) => exists|id: Seq<char>| registered(*old(settings), *final(settings), p, id),
            None => *final(settings) == *old(settings),
        },
{
    let p = match settings.effective_kubeconfig_path() {
        Some(p) => owned(p),
        None => return,
    };
    let id = settings.register_kubeconfig(p);
    assert(registered(*old(settings), *settings, effective_path_spec(*old(settings))->0, id@));
}

/// The last context used with the entry `id`, if it is registered.
pub fn last_context_of(settings: &AppState, id: &str) -> (r: Option<String>)
    ensures
        r == match first_with_id(settings.kubeconfigs@, id@) {
            Some(i) => settings.kubeconfigs@[i].last_context,
            None => None,
        },
{
    match settings.index_of_id(id) {
        Some(i) => clone_opt(&settings.kubeconfigs[i].last_context),
        None => None,
    }
}

/// After a kubeconfig file was loaded for the entry `id`: the entry becomes
/// active, the path is recorded as the last loaded one, and the entry's last
/// context is selected again if the file still lists it.
pub fn adopt_loaded_kubeconfig(
    settings: &mut AppState,
    manager: &mut KubeConfigManager,
    id: &str,
    path: &str,
    last_context: Option<String>,
)
    ensures
        final(settings).kubeconfigs == old(settings).kubeconfigs,
        !no_id(old(settings).kubeconfigs@, id@) ==> opt_view(final(settings).active_kubeconfig_id)
            == Some(id@),
        no_id(old(settings).kubeconfigs@, id@) ==> final(settings).active_kubeconfig_id == old(
            settings,
        ).active_kubeconfig_id,
        opt_view(final(settings).last_kubeconfig_path) == Some(path@),
        final(manager).kubeconfig == old(manager).kubeconfig,
        final(manager).path == old(manager).path,
        final(manager).contexts == old(manager).contexts,
        match last_context {
            Some(c) => if has_context(old(manager).contexts@, c@) {
                opt_view(final(manager).current_context) == Some(c@)
            } else {
                final(manager).current_context == old(manager).current_context
            },
            None => final(manager).current_context == old(manager).current_context,
        },
{
    settings.set_active_kubeconfig(id);
    settings.last_kubeconfig_path = Some(owned(path));
    match &last_context {
        Some(c) => {
            select_context(manager, c.as_str());
        },
        None => {},
    }
}

/// The message for a kubeconfig that could not be loaded (`None`: the default
/// discovery).
pub fn load_failure_message(path: Option<&str>, error: &str) -> (r: String)
    ensures
        r@ == match path {
            Some(p) => "Failed to load kubeconfig "@ + p@ + ": "@ + error@,
            None => "Failed to load default kubeconfig: "@ + error@,
        },
{
    match path {
        Some(p) => {
            let mut m = cat3("Failed to load kubeconfig ", p, ": ");
            push_str(&mut m, error);
            m
        },
        None => cat("Failed to load default kubeconfig: ", error),
    }
}

/// The status of a backend probed without making it active: connected with
/// its version, or the failure.
pub fn probe_status(endpoint: String, probe: Result<BackendStatus, String>) -> (r: KubeStatus)
    ensures
        r.kubeconfig_path == Some(endpoint),
        r.current_context is None,
        r.context_count == 0,
        r.contexts@.len() == 0,
        match probe {
            Ok(st) => r.connected && r.cluster_version == Some(st.cluster_version)
                && r.error is None,
            Err(e) => !r.connected && r.cluster_version is None && r.error == Some(e),
        },
{
    match probe {
        Ok(st) => KubeStatus {
            connected: true,
            cluster_version: Some(st.cluster_version),
            current_context: None,
            kubeconfig_path: Some(endpoint),
            context_count: 0,
            contexts: Vec::new(),
            error: None,
        },
        Err(e) => KubeStatus {
            connected: false,
            cluster_version: None,
            current_context: None,
            kubeconfig_path: Some(endpoint),
            context_count: 0,
            contexts: Vec::new(),
            error: Some(e),
        },
    }
}

/// The CA bundle file to read for a remote connection: none when the path is
/// absent or blank.
pub fn ca_file_to_read(ca_path: &Option<String>) -> (r: Option<&str>)
    ensures
        match ca_path {
            Some(p) => if all_ws(p@) {
                r is None
            } else {
                r is Some && r->0@ == p@
            },
            None => r is None,
        },
{
    match ca_path {
        Some(p) => if is_blank(p.as_str()) {
            None
        } else {
            Some(p.as_str())
        },
        None => None,
    }
}

/// Whether a configured log level is one the logger knows.
pub open spec fn known_level(level: Seq<char>) -> bool {
    level == "trace"@ || level == "debug"@ || level == "info"@ || level == "warn"@ || level
        == "error"@
}

/// The log filter for a configured level: the level for the application and
/// `warn` for the Kubernetes client; an unknown level means `info`.
pub fn log_filter(level: &str) -> (r: String)
    ensures
        r@ == "kube_front="@ + (if known_level(level@) {
            level@
        } else {
            "info"@
        }) + ",kube=warn"@,
{
    let known = str_eq(level, "trace") || str_eq(level, "debug") || str_eq(level, "info")
        || str_eq(level, "warn") || str_eq(level, "error");
    let chosen = if known {
        level
    } else {
        "info"
    };
    cat3("kube_front=", chosen, ",kube=warn")
}

/// A single relative path component: not empty, not `.` or `..`, and free of
/// separators and drive prefixes.
pub open spec fn plain_file_name(name: Seq<char>) -> bool {
    &&& name.len() > 0
    &&& name != "."@
    &&& name != ".."@
    &&& forall|i: int| 0 <= i < name.len() ==> name[i] != '/' && name[i] != '\\' && name[i] != ':'
}

/// `Path::new(dir).join(name)` decoded back to text, for the build target's
/// path syntax.
pub uninterp spec fn joined_path(dir: Seq<char>, name: Seq<char>) -> Seq<char>;

/// `Path::join` of a plain file name onto a directory, decoded back to text.
/// Claims that the result is the named join of exactly these arguments, and
/// what `PathBuf::push` documents for a relative component: the directory is
/// extended (the result begins with it) and the final component of the
/// result is the name. The separator placed between them is left unsaid: it
/// depends on the platform.
#[verifier::external_body]
fn join_file_name(dir: &str, name: &str) -> (r: String)
    requires
        plain_file_name(name@),
    ensures
        r@ == joined_path(dir@, name@),
        dir@.len() <= r@.len(),
        r@.subrange(0, dir@.len() as int) == dir@,
        file_name_of(r@) == Some(name@),
{
    std::path::Path::new(dir).join(name).to_string_lossy().into_owned()
}

proof fn lemma_plain_names()
    ensures
        plain_file_name("kubefront.log"@),
        plain_file_name("logs"@),
{
    reveal_strlit("kubefront.log");
    reveal_strlit("logs");
    reveal_strlit(".");
    reveal_strlit("..");
    assert("kubefront.log"@.len() != "."@.len());
    assert("kubefront.log"@.len() != ".."@.len());
    assert("logs"@.len() != "."@.len());
    assert("logs"@.len() != ".."@.len());
}

/// The directory the debug log is kept in: `logs` inside the application's
/// local data directory.
pub fn log_dir_of(data_dir: &str) -> (r: String)
    ensures
        r@ == joined_path(data_dir@, "logs"@),
        file_name_of(r@) == Some("logs"@),
{
    proof {
        lemma_plain_names();
    }
    join_file_name(data_dir, "logs")
}

/// The debug log file inside the log directory, when there is one.
pub fn log_file_path(log_dir: Option<&str>) -> (r: Option<String>)
    ensures
        match (log_dir, r) {
            (Some(d), Some(p)) => p@ == joined_path(d@, "kubefront.log"@),
            (None, None) => true,
            _ => false,
        },
        match (log_dir, r) {
            (Some(d), Some(p)) => d@.len() <= p@.len() && p@.subrange(0, d@.len() as int) == d@
                && file_name_of(p@) == Some("kubefront.log"@),
            _ => true,
        },
{
    match log_dir {
        Some(d) => {
            proof {
                lemma_plain_names();
            }
            Some(join_file_name(d, "kubefront.log"))
        },
        None => None,
    }
}

} // verus!
