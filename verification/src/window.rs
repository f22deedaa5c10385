//! The desktop window's reactions: the connection state after a connect
//! attempt ends, what loading a kubeconfig from a toolbar button does, and
//! when the pod and node lists are due for a refresh.
use vstd::prelude::*;

use crate::manager::KubeConfigManager;
use crate::settings::AppState;
use crate::text::{cat3, clone_opt, owned, push_str, str_eq};
use crate::viewer::{log_error_line, log_ring_spec, push_log_line};

verus! {

broadcast use vstd::string::group_string_axioms;

/// What the window shows of its connection.
#[derive(Debug, Clone)]
pub struct Connection {
    /// A client is held and the cluster answered.
    pub connected: bool,
    /// The version the cluster reported, when connected.
    pub cluster_version: Option<String>,
    /// The last failure shown to the user.
    pub last_error: Option<String>,
}

/// How a connect attempt made in the background ended.
#[derive(Debug, Clone)]
pub enum ConnectOutcome {
    /// Connected; the version the cluster reported, if it did.
    Connected(Option<String>),
    /// The attempt failed with this message.
    Failed(String),
}

/// The settings after a connection succeeded: the kubeconfig path and the
/// context it used become the last ones, nothing else changes.
pub open spec fn remembered(old: AppState, new: AppState, manager: KubeConfigManager) -> bool {
    &&& new.last_kubeconfig_path == manager.path
    &&& new.last_context == manager.current_context
    &&& new.kubeconfigs == old.kubeconfigs
    &&& new.active_kubeconfig_id == old.active_kubeconfig_id
    &&& new.registered_kubeconfigs == old.registered_kubeconfigs
    &&& new.active_kubeconfig_path == old.active_kubeconfig_path
    &&& new.kubeconfig_path == old.kubeconfig_path
    &&& new.default_namespace == old.default_namespace
    &&& new.theme_mode == old.theme_mode
    &&& new.font_scale_bits == old.font_scale_bits
    &&& new.log_level == old.log_level
    &&& new.custom_accent == old.custom_accent
    &&& new.color_scheme == old.color_scheme
    &&& new.show_right_panel == old.show_right_panel
    &&& new.auto_refresh_secs == old.auto_refresh_secs
}

/// Take in the end of a connect attempt. On success the window is connected,
/// shows the reported version ("connected" when none was reported), clears
/// its error and remembers the kubeconfig and context it used; on failure it
/// is disconnected, shows no version and shows the failure.
pub fn apply_connect_outcome(
    conn: &mut Connection,
    settings: &mut AppState,
    manager: &KubeConfigManager,
    outcome: ConnectOutcome,
)
    ensures
        match outcome {
            ConnectOutcome::Connected(version) => {
                &&& final(conn).connected
                &&& final(conn).cluster_version is Some
                &&& final(conn).cluster_version->0@ == match version {
                    Some(v) => v@,
                    None => "connected"@,
                }
                &&& final(conn).last_error is None
                &&& remembered(*old(settings), *final(settings), *manager)
            },
            ConnectOutcome::Failed(e) => {
                &&& !final(conn).connected
                &&& final(conn).cluster_version is None
                &&& final(conn).last_error == Some(e)
                &&& *final(settings) == *old(settings)
            },
        },
{
    match outcome {
        ConnectOutcome::Connected(version) => {
            conn.connected = true;
            conn.cluster_version = match version {
                Some(v) => Some(v),
                None => Some(owned("connected")),
            };
            conn.last_error = None;
            settings.last_kubeconfig_path = clone_opt(&manager.path);
            settings.last_context = clone_opt(&manager.current_context);
        },
        ConnectOutcome::Failed(e) => {
            conn.connected = false;
            conn.cluster_version = None;
            conn.last_error = Some(e);
        },
    }
}

/// Where a toolbar button loads a kubeconfig from.
#[derive(Debug, Clone)]
pub enum LoadSource {
    /// A file the user picked, by its displayed path.
    Picked(String),
    /// The default location (`$KUBECONFIG` or `~/.kube/config`).
    Default,
    /// The K3S server's kubeconfig.
    K3s,
}

/// The path the K3S button loads.
pub open spec fn k3s_path_spec() -> Seq<char> {
    "/etc/rancher/k3s/k3s.yaml"@
}

/// The kubeconfig path of a K3S server.
pub fn k3s_kubeconfig_path() -> (r: &'static str)
    ensures
        r@ == k3s_path_spec(),
{
    "/etc/rancher/k3s/k3s.yaml"
}

/// The message shown when loading from `source` failed with `error`.
pub open spec fn load_error_spec(source: LoadSource, error: Seq<char>) -> Seq<char> {
    match source {
        LoadSource::Picked(p) => "Failed to load "@ + p@ + ": "@ + error,
        LoadSource::Default => "Default load failed: "@ + error,
        LoadSource::K3s => "K3S path ("@ + k3s_path_spec() + ") load failed: "@ + error
            + " — copy to ~/.kube/config or fix perms"@,
    }
}

/// Take in the result of loading a kubeconfig from a toolbar button. A load
/// that worked clears the error and disconnects, and the window reconnects
/// to the loaded current context (the result is `true`); a load that failed
/// shows its message and leaves the connection as it was (`false`).
pub fn after_kubeconfig_load(
    conn: &mut Connection,
    source: LoadSource,
    result: Result<(), String>,
) -> (reconnect: bool)
    ensures
        reconnect == result is Ok,
        match result {
            Ok(_) => {
                &&& final(conn).last_error is None
                &&& !final(conn).connected
                &&& final(conn).cluster_version == old(conn).cluster_version
            },
            Err(e) => {
                &&& final(conn).last_error is Some
                &&& final(conn).last_error->0@ == load_error_spec(source, e@)
                &&& final(conn).connected == old(conn).connected
                &&& final(conn).cluster_version == old(conn).cluster_version
            },
        },
{
    match result {
        Ok(()) => {
            conn.last_error = None;
            conn.connected = false;
            true
        },
        Err(e) => {
            let mut m = match &source {
                LoadSource::Picked(p) => cat3("Failed to load ", p.as_str(), ": "),
                LoadSource::Default => owned("Default load failed: "),
                LoadSource::K3s => cat3("K3S path (", k3s_kubeconfig_path(), ") load failed: "),
            };
            push_str(&mut m, e.as_str());
            match &source {
                LoadSource::K3s => push_str(&mut m, " — copy to ~/.kube/config or fix perms"),
                _ => {},
            }
            conn.last_error = Some(m);
            false
        },
    }
}

/// Seconds between automatic refreshes of the pod and node lists.
pub const AUTO_REFRESH_SECS: u64 = 5;

/// Whether the pod and node lists are due for a refresh: the window is
/// connected, holds a client, and more than `AUTO_REFRESH_SECS` seconds have
/// passed since the last refresh (`since_secs` whole seconds and
/// `since_nanos` nanoseconds).
pub fn refresh_due(
    connected: bool,
    has_client: bool,
    since_secs: u64,
    since_nanos: u32,
) -> (r: bool)
    requires
        since_nanos < 1_000_000_000,
    ensures
        r == (connected && has_client && since_secs as int * 1_000_000_000 + since_nanos as int
            > AUTO_REFRESH_SECS as int * 1_000_000_000),
{
    connected && has_client && (since_secs > AUTO_REFRESH_SECS || (since_secs == AUTO_REFRESH_SECS
        && since_nanos > 0))
}

/// Switch to the context `name` picked in the context selector: it becomes
/// the current context and the window disconnects (and then reconnects to
/// it); the kubeconfig, its path and its context list stay as they were, and
/// so does the last error shown.
pub fn pick_context(manager: &mut KubeConfigManager, conn: &mut Connection, name: String)
    ensures
        final(manager).current_context == Some(name),
        final(manager).kubeconfig == old(manager).kubeconfig,
        final(manager).path == old(manager).path,
        final(manager).contexts == old(manager).contexts,
        !final(conn).connected,
        final(conn).cluster_version is None,
        final(conn).last_error == old(conn).last_error,
{
    manager.current_context = Some(name);
    conn.connected = false;
    conn.cluster_version = None;
}

/// A log window as its events see it: its id, the lines it holds, the
/// container it follows, and whether its stream is to be reopened.
#[derive(Debug, Clone)]
pub struct LogPane {
    pub id: usize,
    pub lines: Vec<String>,
    pub selected_container: Option<String>,
    pub pending_reconnect: bool,
}

/// `k` is the first log window with id `id`.
pub open spec fn first_pane(panes: Seq<LogPane>, id: usize, k: int) -> bool {
    &&& 0 <= k < panes.len()
    &&& panes[k].id == id
    &&& forall|j: int| 0 <= j < k ==> #[trigger] panes[j].id != id
}

/// Some log window has id `id`.
pub open spec fn has_pane(panes: Seq<LogPane>, id: usize) -> bool {
    exists|j: int| 0 <= j < panes.len() && #[trigger] panes[j].id == id
}

/// The position of the first log window with id `id`, if there is one.
pub fn pane_index(panes: &Vec<LogPane>, id: usize) -> (r: Option<usize>)
    ensures
        match r {
            Some(k) => first_pane(panes@, id, k as int),
            None => !has_pane(panes@, id),
        },
{
    let mut i: usize = 0;
    while i < panes.len()
        invariant
            i <= panes@.len(),
            forall|j: int| 0 <= j < i ==> #[trigger] panes@[j].id != id,
        decreases panes@.len() - i,
    {
        if panes[i].id == id {
            return Some(i);
        }
        i += 1;
    }
    None
}

/// `new` is `old` with the window at `k` holding `lines` and nothing else
/// changed.
pub open spec fn pane_lines_set(
    old: Seq<LogPane>,
    new: Seq<LogPane>,
    k: int,
    lines: Seq<String>,
) -> bool {
    &&& new.len() == old.len()
    &&& new[k].lines@ == lines
    &&& new[k].id == old[k].id
    &&& new[k].selected_container == old[k].selected_container
    &&& new[k].pending_reconnect == old[k].pending_reconnect
    &&& forall|j: int| 0 <= j < old.len() && j != k ==> #[trigger] new[j] == old[j]
}

fn set_pane_lines(panes: &mut Vec<LogPane>, k: usize, line: String, error: bool)
    requires
        k < old(panes)@.len(),
        old(panes)@[k as int].lines@.len() < usize::MAX,
    ensures
        pane_lines_set(
            old(panes)@,
            final(panes)@,
            k as int,
            if error {
                old(panes)@[k as int].lines@.push(line)
            } else {
                log_ring_spec(old(panes)@[k as int].lines@, line)
            },
        ),
{
    let ghost before = panes@;
    let mut p = panes.remove(k);
    if error {
        p.lines.push(line);
    } else {
        push_log_line(&mut p.lines, line);
    }
    panes.insert(k, p);
    proof {
        assert forall|j: int| 0 <= j < before.len() && j != k implies #[trigger] panes@[j]
            == before[j] by {
            if j < k {
                assert(panes@[j] == before.remove(k as int)[j]);
            } else {
                assert(panes@[j] == before.remove(k as int)[j - 1]);
            }
        }
    }
}

/// Take in a log line for the window with id `id`: the first window with
/// that id gets the line in its bounded buffer; without such a window the
/// line is dropped.
pub fn deliver_log_line(panes: &mut Vec<LogPane>, id: usize, line: String)
    requires
        forall|j: int| 0 <= j < old(panes)@.len() ==> #[trigger] old(panes)@[j].lines@.len()
            < usize::MAX,
    ensures
        forall|k: int|
            first_pane(old(panes)@, id, k) ==> pane_lines_set(
                old(panes)@,
                final(panes)@,
                k,
                log_ring_spec(old(panes)@[k].lines@, line),
            ),
        !has_pane(old(panes)@, id) ==> final(panes)@ == old(panes)@,
{
    match pane_index(panes, id) {
        Some(k) => set_pane_lines(panes, k, line, false),
        None => {},
    }
}

/// Take in a stream error for the window with id `id`: the first window with
/// that id gets the line "[ERROR] " + error; without such a window nothing
/// changes.
pub fn deliver_log_error(panes: &mut Vec<LogPane>, id: usize, error: &str)
    requires
        forall|j: int| 0 <= j < old(panes)@.len() ==> #[trigger] old(panes)@[j].lines@.len()
            < usize::MAX,
    ensures
        forall|k: int|
            first_pane(old(panes)@, id, k) ==> final(panes)@.len() == old(panes)@.len()
                && final(panes)@[k].lines@.len() == old(panes)@[k].lines@.len() + 1
                && final(panes)@[k].lines@.last()@ == "[ERROR] "@ + error@ && pane_lines_set(
                old(panes)@,
                final(panes)@,
                k,
                final(panes)@[k].lines@,
            ) && final(panes)@[k].lines@.drop_last() == old(panes)@[k].lines@,
        !has_pane(old(panes)@, id) ==> final(panes)@ == old(panes)@,
{
    match pane_index(panes, id) {
        Some(k) => {
            let l = log_error_line(error);
            let ghost lv = l;
            set_pane_lines(panes, k, l, true);
            proof {
                assert(panes@[k as int].lines@.drop_last() =~= old(panes)@[k as int].lines@);
                assert(panes@[k as int].lines@.last() == lv);
            }
        },
        None => {},
    }
}

/// Follow container `c` in a log window: a different container from the
/// one followed becomes the followed one and the stream is to be reopened;
/// picking the followed one again changes nothing.
pub fn choose_container(pane: &mut LogPane, c: &str)
    ensures
        final(pane).id == old(pane).id,
        final(pane).lines == old(pane).lines,
        match old(pane).selected_container {
            Some(s) => if s@ == c@ {
                *final(pane) == *old(pane)
            } else {
                &&& final(pane).selected_container matches Some(n) && n@ == c@
                &&& final(pane).pending_reconnect
            },
            None => {
                &&& final(pane).selected_container matches Some(n) && n@ == c@
                &&& final(pane).pending_reconnect
            },
        },
{
    let same = match &pane.selected_container {
        Some(s) => str_eq(s.as_str(), c),
        None => false,
    };
    if !same {
        pane.selected_container = Some(owned(c));
        pane.pending_reconnect = true;
    }
}

} // verus!
