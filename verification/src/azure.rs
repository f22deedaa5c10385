//! Azure CLI orchestration decisions for adding AKS clusters: the DTOs sent
//! to the frontend, CLI failure classification and messages, and the
//! per-cluster kubeconfig file name.
use vstd::prelude::*;

use crate::kinds::opt_view;
use crate::text::{
    all_ws, ascii_lower, cat, cat3, chars_of, contains, contains_spec, owned, push_char,
    push_chars, push_i64, push_str, to_ascii_lowercase, trim, trim_spec, int_decimal, views,
};

verus! {

broadcast use vstd::string::group_string_axioms;

/// Result of probing the local Azure CLI for an active login.
#[derive(Debug, Clone)]
pub struct AzureStatus {
    pub installed: bool,
    pub logged_in: bool,
    pub user: Option<String>,
    pub tenant_id: Option<String>,
    pub error: Option<String>,
}

impl Default for AzureStatus {
    fn default() -> (r: Self)
        ensures
            !r.installed && !r.logged_in && r.user is None && r.tenant_id is None && r.error is None,
    {
        AzureStatus { installed: false, logged_in: false, user: None, tenant_id: None, error: None }
    }
}

/// One Azure subscription visible to the signed-in account.
#[derive(Debug, Clone)]
pub struct AzureSubscription {
    pub id: String,
    pub name: String,
    pub tenant_id: Option<String>,
    pub is_default: bool,
}

/// One AKS managed cluster within a subscription.
#[derive(Debug, Clone)]
pub struct AksCluster {
    pub name: String,
    pub resource_group: String,
    pub location: Option<String>,
    pub kubernetes_version: Option<String>,
    pub power_state: Option<String>,
    pub aad_enabled: bool,
}

/// A failure of an external CLI, flagged when the program itself is missing.
#[derive(Debug, Clone)]
pub struct AzError {
    pub message: String,
    pub missing: bool,
}

/// The install hint for a missing `az`.
pub open spec fn az_missing_msg() -> Seq<char> {
    "Azure CLI (`az`) was not found on PATH. Install it from https://aka.ms/azure-cli, then restart KubeFront."@
}

/// The install hint for a missing `kubelogin`.
pub open spec fn kubelogin_missing_msg() -> Seq<char> {
    "`kubelogin` was not found on PATH. Install it (e.g. `az aks install-cli`) so KubeFront can use your `az login` session for Azure AD auth, then retry."@
}

impl AzError {
    /// Message for `az` failures, with an install hint when `az` is missing.
    pub fn az_message(&self) -> (r: String)
        ensures
            self.missing ==> r@ == az_missing_msg(),
            !self.missing ==> r@ == self.message@,
    {
        if self.missing {
            owned(
                "Azure CLI (`az`) was not found on PATH. Install it from https://aka.ms/azure-cli, then restart KubeFront.",
            )
        } else {
            self.message.clone()
        }
    }

    /// Message for `kubelogin` failures, with an install hint when it is
    /// missing.
    pub fn kubelogin_message(&self) -> (r: String)
        ensures
            self.missing ==> r@ == kubelogin_missing_msg(),
            !self.missing ==> r@ == "kubelogin failed: "@ + self.message@,
    {
        if self.missing {
            owned(
                "`kubelogin` was not found on PATH. Install it (e.g. `az aks install-cli`) so KubeFront can use your `az login` session for Azure AD auth, then retry.",
            )
        } else {
            cat("kubelogin failed: ", self.message.as_str())
        }
    }
}

/// Whether CLI stderr says that the program itself was not found.
pub open spec fn looks_missing_spec(stderr: Seq<char>) -> bool {
    let s = ascii_lower(stderr);
    contains_spec(s, "is not recognized"@) || contains_spec(s, "not recognized as"@)
        || contains_spec(s, "command not found"@) || contains_spec(s, "no such file"@)
}

/// Heuristic: does this stderr indicate the program itself was not found?
pub fn looks_missing(stderr: &str) -> (r: bool)
    ensures
        r == looks_missing_spec(stderr@),
{
    let s = to_ascii_lowercase(stderr);
    contains(s.as_str(), "is not recognized") || contains(s.as_str(), "not recognized as")
        || contains(s.as_str(), "command not found") || contains(s.as_str(), "no such file")
}

/// The position of the first newline at or after `from`, or the length.
pub open spec fn line_end(s: Seq<char>, from: int) -> int
    decreases s.len() - from,
{
    if from >= s.len() {
        s.len() as int
    } else if s[from] == '\n' {
        from
    } else {
        line_end(s, from + 1)
    }
}

/// The first line from position `from` on that is not blank, trimmed.
pub open spec fn first_line_from(s: Seq<char>, from: int) -> Option<Seq<char>>
    decreases s.len() - from,
{
    if from < 0 || from > s.len() {
        None
    } else {
        let e = line_end(s, from);
        let t = trim_spec(s.subrange(from, e));
        if t.len() > 0 {
            Some(t)
        } else if e >= s.len() {
            None
        } else {
            proof {
                lemma_line_end_bounds(s, from);
            }
            first_line_from(s, e + 1)
        }
    }
}

/// The end of the line starting at `from` lies between `from` and the end of
/// the text, on a newline unless it is the end, with no newline before it.
pub proof fn lemma_line_end_bounds(s: Seq<char>, from: int)
    requires
        0 <= from <= s.len(),
    ensures
        from <= line_end(s, from) <= s.len(),
        line_end(s, from) < s.len() ==> s[line_end(s, from)] == '\n',
        forall|j: int| from <= j < line_end(s, from) ==> s[j] != '\n',
    decreases s.len() - from,
{
    if from < s.len() && s[from] != '\n' {
        lemma_line_end_bounds(s, from + 1);
    }
}

proof fn lemma_line_end_at(s: Seq<char>, from: int, e: int)
    requires
        0 <= from <= e <= s.len(),
        forall|j: int| from <= j < e ==> s[j] != '\n',
        e == s.len() || s[e] == '\n',
    ensures
        line_end(s, from) == e,
    decreases e - from,
{
    if from < e {
        lemma_line_end_at(s, from + 1, e);
    }
}

/// First non-empty line of CLI stderr, trimmed.
pub fn first_meaningful_line(stderr: &str) -> (r: Option<String>)
    ensures
        opt_view(r) == first_line_from(stderr@, 0),
{
    let cs = chars_of(stderr);
    let mut from: usize = 0;
    while from <= cs.len()
        invariant
            cs@ == stderr@,
            from <= cs.len() + 1,
            first_line_from(stderr@, 0) == first_line_from(stderr@, from as int),
        decreases cs.len() + 1 - from,
    {
        let mut e = from;
        while e < cs.len() && cs[e] != '\n'
            invariant
                cs@ == stderr@,
                from <= e <= cs.len(),
                forall|j: int| from <= j < e ==> cs@[j] != '\n',
            decreases cs.len() - e,
        {
            e += 1;
        }
        proof {
            lemma_line_end_at(stderr@, from as int, e as int);
        }
        let mut seg = String::new();
        push_chars(&mut seg, &cs, from, e);
        let t = trim(seg.as_str());
        if crate::text::chars_of(t.as_str()).len() > 0 {
            return Some(t);
        }
        if e >= cs.len() {
            return None;
        }
        from = e + 1;
    }
    None
}

/// The error of a CLI that could not be started at all.
pub fn spawn_failure(program: &str, error: &str, not_found: bool) -> (r: AzError)
    ensures
        r.missing == not_found,
        r.message@ == "failed to run "@ + program@ + ": "@ + error@,
{
    let mut m = cat("failed to run ", program);
    push_str(&mut m, ": ");
    push_str(&mut m, error);
    AzError { message: m, missing: not_found }
}

/// `format!("{:?}", code)` for an optional exit code.
pub open spec fn code_debug(code: Option<i32>) -> Seq<char> {
    match code {
        Some(c) => "Some("@ + int_decimal(c as int) + ")"@,
        None => "None"@,
    }
}

/// The error of a CLI that ran and failed: missing when its stderr says so;
/// the message is the first meaningful stderr line, else the exit status.
pub fn exit_failure(program: &str, stderr: &str, code: Option<i32>) -> (r: AzError)
    ensures
        r.missing == looks_missing_spec(stderr@),
        r.message@ == match first_line_from(stderr@, 0) {
            Some(l) => l,
            None => program@ + " exited with status "@ + code_debug(code),
        },
{
    let missing = looks_missing(stderr);
    let message = match first_meaningful_line(stderr) {
        Some(l) => l,
        None => {
            let mut m = owned(program);
            push_str(&mut m, " exited with status ");
            match code {
                Some(c) => {
                    push_str(&mut m, "Some(");
                    push_i64(&mut m, c as i64);
                    push_str(&mut m, ")");
                },
                None => push_str(&mut m, "None"),
            }
            m
        },
    };
    AzError { message, missing }
}

/// What `az account show` answered.
#[derive(Debug, Clone)]
pub enum AccountProbe {
    /// The account, as parsed from the command's JSON output.
    Account { user: Option<String>, tenant_id: Option<String> },
    /// The command succeeded but its output did not parse.
    Unparseable(String),
    /// The command failed.
    Failed(AzError),
}

/// The CLI status for a probe outcome. Never an error: every failure mode is
/// encoded in the status.
pub open spec fn status_spec(p: AccountProbe, r: AzureStatus) -> bool {
    match p {
        AccountProbe::Account { user, tenant_id } => r.installed && r.logged_in && r.user == user
            && r.tenant_id == tenant_id && r.error is None,
        AccountProbe::Unparseable(e) => r.installed && !r.logged_in && r.user is None
            && r.tenant_id is None && opt_view(r.error) == Some(
            "Could not parse `az account show` output: "@ + e@,
        ),
        AccountProbe::Failed(e) => if e.missing {
            !r.installed && !r.logged_in && r.user is None && r.tenant_id is None && opt_view(
                r.error,
            ) == Some(az_missing_msg())
        } else {
            r.installed && !r.logged_in && r.user is None && r.tenant_id is None && opt_view(
                r.error,
            ) == Some("Not logged in to Azure. Run `az login`, then retry. ("@ + e.message@ + ")"@)
        },
    }
}

/// Classify the answer of `az account show`.
pub fn status_from(p: AccountProbe) -> (r: AzureStatus)
    ensures
        status_spec(p, r),
{
    match p {
        AccountProbe::Account { user, tenant_id } => AzureStatus {
            installed: true,
            logged_in: true,
            user,
            tenant_id,
            error: None,
        },
        AccountProbe::Unparseable(e) => AzureStatus {
            installed: true,
            logged_in: false,
            user: None,
            tenant_id: None,
            error: Some(cat("Could not parse `az account show` output: ", e.as_str())),
        },
        AccountProbe::Failed(e) => {
            if e.missing {
                AzureStatus {
                    installed: false,
                    logged_in: false,
                    user: None,
                    tenant_id: None,
                    error: Some(e.az_message()),
                }
            } else {
                AzureStatus {
                    installed: true,
                    logged_in: false,
                    user: None,
                    tenant_id: None,
                    error: Some(
                        cat3(
                            "Not logged in to Azure. Run `az login`, then retry. (",
                            e.message.as_str(),
                            ")",
                        ),
                    ),
                }
            }
        },
    }
}

/// A subscription as `az account list` reports it.
#[derive(Debug, Clone)]
pub struct RawSubscription {
    pub id: String,
    pub name: String,
    pub tenant_id: Option<String>,
    pub is_default: Option<bool>,
}

/// The frontend DTO for a reported subscription (not the default unless said).
pub fn subscription_from(r: RawSubscription) -> (s: AzureSubscription)
    ensures
        s.id == r.id,
        s.name == r.name,
        s.tenant_id == r.tenant_id,
        s.is_default == (r.is_default == Some(true)),
{
    AzureSubscription {
        id: r.id,
        name: r.name,
        tenant_id: r.tenant_id,
        is_default: match r.is_default {
            Some(b) => b,
            None => false,
        },
    }
}

/// A cluster as `az aks list` reports it.
#[derive(Debug, Clone)]
pub struct RawAks {
    pub name: String,
    pub resource_group: String,
    pub location: Option<String>,
    pub kubernetes_version: Option<String>,
    pub current_kubernetes_version: Option<String>,
    /// `powerState` (`None` when absent) with its optional `code`.
    pub power_state: Option<Option<String>>,
    /// Whether an `aadProfile` is present.
    pub aad_profile: bool,
}

/// The frontend DTO for a reported cluster: the current version is preferred
/// over the configured one.
pub fn aks_from(r: RawAks) -> (c: AksCluster)
    ensures
        c.name == r.name,
        c.resource_group == r.resource_group,
        c.location == r.location,
        c.kubernetes_version == match r.current_kubernetes_version {
            Some(v) => Some(v),
            None => r.kubernetes_version,
        },
        c.power_state == match r.power_state {
            Some(code) => code,
            None => None,
        },
        c.aad_enabled == r.aad_profile,
{
    AksCluster {
        name: r.name,
        resource_group: r.resource_group,
        location: r.location,
        kubernetes_version: match r.current_kubernetes_version {
            Some(v) => Some(v),
            None => r.kubernetes_version,
        },
        power_state: match r.power_state {
            Some(code) => code,
            None => None,
        },
        aad_enabled: r.aad_profile,
    }
}

/// A filesystem-safe character: ASCII alphanumerics, '-' and '_' are kept,
/// anything else becomes '_'.
pub open spec fn safe_char(c: char) -> char {
    if ('a' <= c && c <= 'z') || ('A' <= c && c <= 'Z') || ('0' <= c && c <= '9') || c == '-'
        || c == '_' {
        c
    } else {
        '_'
    }
}

/// `s` reduced to filesystem-safe characters.
pub open spec fn sanitize_spec(s: Seq<char>) -> Seq<char> {
    s.map_values(|c: char| safe_char(c))
}

/// Reduce a name to filesystem-safe characters for a kubeconfig file name.
pub fn sanitize(s: &str) -> (r: String)
    ensures
        r@ == sanitize_spec(s@),
{
    let cs = chars_of(s);
    let mut r = String::new();
    let mut i: usize = 0;
    while i < cs.len()
        invariant
            cs@ == s@,
            i <= cs.len(),
            r@ == sanitize_spec(cs@.subrange(0, i as int)),
        decreases cs.len() - i,
    {
        let c = cs[i];
        let k = if ('a' <= c && c <= 'z') || ('A' <= c && c <= 'Z') || ('0' <= c && c <= '9') || c
            == '-' || c == '_' {
            c
        } else {
            '_'
        };
        push_char(&mut r, k);
        i += 1;
        assert(r@ =~= sanitize_spec(cs@.subrange(0, i as int)));
    }
    assert(cs@.subrange(0, cs.len() as int) =~= cs@);
    r
}

/// The file a cluster's kubeconfig is written to: one file per cluster, so
/// the connection id (the path) is stable across re-imports.
pub fn aks_kubeconfig_file_name(resource_group: &str, cluster_name: &str) -> (r: String)
    ensures
        r@ == sanitize_spec(resource_group@) + "_"@ + sanitize_spec(cluster_name@)
            + ".kubeconfig"@,
{
    let mut r = sanitize(resource_group);
    push_str(&mut r, "_");
    let c = sanitize(cluster_name);
    push_str(&mut r, c.as_str());
    push_str(&mut r, ".kubeconfig");
    r
}

/// Sanitized names only hold filesystem-safe characters, and sanitizing
/// twice changes nothing more.
pub proof fn law_sanitize_idempotent(s: Seq<char>)
    ensures
        sanitize_spec(sanitize_spec(s)) == sanitize_spec(s),
        sanitize_spec(s).len() == s.len(),
{
    assert(sanitize_spec(sanitize_spec(s)) =~= sanitize_spec(s));
}

/// The arguments of `az aks list` for a subscription.
pub fn aks_list_args(subscription_id: &str) -> (r: Vec<String>)
    ensures
        views(r@) == seq!["aks"@, "list"@, "--subscription"@, subscription_id@, "-o"@, "json"@],
{
    let r = vec![
        owned("aks"),
        owned("list"),
        owned("--subscription"),
        owned(subscription_id),
        owned("-o"),
        owned("json"),
    ];
    assert(views(r@) =~= seq!["aks"@, "list"@, "--subscription"@, subscription_id@, "-o"@, "json"@]);
    r
}

/// The arguments of `az aks get-credentials` writing the cluster's
/// credentials to the file `path` (replacing what it held).
pub fn get_credentials_args(
    subscription_id: &str,
    resource_group: &str,
    cluster_name: &str,
    path: &str,
) -> (r: Vec<String>)
    ensures
        views(r@) == seq![
            "aks"@,
            "get-credentials"@,
            "--subscription"@,
            subscription_id@,
            "-g"@,
            resource_group@,
            "-n"@,
            cluster_name@,
            "--file"@,
            path@,
            "--overwrite-existing"@,
        ],
{
    let r = vec![
        owned("aks"),
        owned("get-credentials"),
        owned("--subscription"),
        owned(subscription_id),
        owned("-g"),
        owned(resource_group),
        owned("-n"),
        owned(cluster_name),
        owned("--file"),
        owned(path),
        owned("--overwrite-existing"),
    ];
    assert(views(r@) =~= seq![
        "aks"@,
        "get-credentials"@,
        "--subscription"@,
        subscription_id@,
        "-g"@,
        resource_group@,
        "-n"@,
        cluster_name@,
        "--file"@,
        path@,
        "--overwrite-existing"@,
    ]);
    r
}

/// The arguments of `kubelogin convert-kubeconfig` switching the file `path`
/// to the Azure CLI login.
pub fn kubelogin_args(path: &str) -> (r: Vec<String>)
    ensures
        views(r@) == seq!["convert-kubeconfig"@, "-l"@, "azurecli"@, "--kubeconfig"@, path@],
{
    let r = vec![
        owned("convert-kubeconfig"),
        owned("-l"),
        owned("azurecli"),
        owned("--kubeconfig"),
        owned(path),
    ];
    assert(views(r@) =~= seq!["convert-kubeconfig"@, "-l"@, "azurecli"@, "--kubeconfig"@, path@]);
    r
}

} // verus!
