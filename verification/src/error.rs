//! `CoreError`, the single error type of every Kubernetes operation. Its
//! message is the user-facing text; the backend maps it to an HTTP status.
use vstd::prelude::*;

use crate::text::{decimal, owned, push_u64};

verus! {

broadcast use vstd::string::group_string_axioms;

/// The error type of the Kubernetes client.
#[verifier::external_type_specification]
#[verifier::external_body]
pub struct ExKubeError(kube::Error);

/// Error from any Kubernetes operation.
#[derive(Debug, Clone)]
pub enum CoreError {
    NotFound(String),
    Forbidden(String),
    Timeout(String),
    Upstream(String),
    Kubeconfig(String),
    NotConnected,
    Other(String),
}

/// The user-facing message of an error.
pub open spec fn message_of(e: CoreError) -> Seq<char> {
    match e {
        CoreError::NotFound(m) => m@,
        CoreError::Forbidden(m) => m@,
        CoreError::Timeout(m) => m@,
        CoreError::Upstream(m) => m@,
        CoreError::Kubeconfig(m) => m@,
        CoreError::NotConnected => "Not connected to a cluster"@,
        CoreError::Other(m) => m@,
    }
}

/// The HTTP status the backend answers an error with.
pub open spec fn status_of(e: CoreError) -> u16 {
    match e {
        CoreError::NotFound(_) => 404,
        CoreError::Forbidden(_) => 403,
        CoreError::Timeout(_) => 504,
        CoreError::Upstream(_) => 502,
        CoreError::Kubeconfig(_) => 502,
        CoreError::NotConnected => 502,
        CoreError::Other(_) => 500,
    }
}

impl CoreError {
    /// HTTP status the backend returns for this error.
    pub fn http_status(&self) -> (r: u16)
        ensures
            r == status_of(*self),
    {
        match self {
            CoreError::NotFound(_) => 404,
            CoreError::Forbidden(_) => 403,
            CoreError::Timeout(_) => 504,
            CoreError::Upstream(_) | CoreError::Kubeconfig(_) | CoreError::NotConnected => 502,
            CoreError::Other(_) => 500,
        }
    }

    /// The user-facing message (the error's display text).
    pub fn to_string(&self) -> (r: String)
        ensures
            r@ == message_of(*self),
    {
        match self {
            CoreError::NotFound(m) => m.clone(),
            CoreError::Forbidden(m) => m.clone(),
            CoreError::Timeout(m) => m.clone(),
            CoreError::Upstream(m) => m.clone(),
            CoreError::Kubeconfig(m) => m.clone(),
            CoreError::NotConnected => owned("Not connected to a cluster"),
            CoreError::Other(m) => m.clone(),
        }
    }

    /// Classify an API failure by its status code while keeping its text:
    /// 404 is `NotFound`, 403 is `Forbidden`, anything else (including no
    /// status at all) is `Upstream`.
    pub fn from_api_status(code: Option<u16>, msg: String) -> (r: CoreError)
        ensures
            code == Some(404u16) ==> r == CoreError::NotFound(msg),
            code == Some(403u16) ==> r == CoreError::Forbidden(msg),
            code != Some(404u16) && code != Some(403u16) ==> r == CoreError::Upstream(msg),
    {
        match code {
            Some(404) => CoreError::NotFound(msg),
            Some(403) => CoreError::Forbidden(msg),
            _ => CoreError::Upstream(msg),
        }
    }

    /// Classify a client error, keeping its display text as the message: an
    /// API error with status 404 is `NotFound`, with 403 `Forbidden`; any
    /// other API error, and any other kind of client error, is `Upstream`.
    /// The message is the text the error displays as; what that text says is
    /// not stated (it can hold an operating system's message).
    pub fn from_kube(e: &kube::Error) -> (r: CoreError)
        ensures
            (r is NotFound) == (kube_api_code_of(*e) == Some(404u16)),
            (r is Forbidden) == (kube_api_code_of(*e) == Some(403u16)),
            (r is Upstream) == (kube_api_code_of(*e) != Some(404u16) && kube_api_code_of(*e)
                != Some(403u16)),
    {
        let code = api_status_code(e);
        let msg = kube_error_text(e);
        CoreError::from_api_status(code, msg)
    }
}

/// The error of a connection attempt that did not finish within `secs`
/// seconds.
pub fn connect_timeout_error(secs: u64) -> (r: CoreError)
    ensures
        r matches CoreError::Timeout(m) && m@ == "Connection timed out after "@ + decimal(
            secs as nat,
        ) + "s"@,
{
    let mut m = owned("Connection timed out after ");
    push_u64(&mut m, secs);
    crate::text::push_str(&mut m, "s");
    CoreError::Timeout(m)
}

/// The status code that a client error carries: the `code` of the status of
/// a `kube::Error::Api`, none for any other kind of client error. A function
/// of the error value alone.
pub uninterp spec fn kube_api_code_of(e: kube::Error) -> Option<u16>;

/// The status code of an API error (`kube::Error::Api`), `None` for any other
/// kind of client error. Claims only that it is the error's code, named
/// `kube_api_code_of`: the error value is opaque here.
#[verifier::external_body]
fn api_status_code(e: &kube::Error) -> (r: Option<u16>)
    ensures
        r == kube_api_code_of(*e),
{
    match e {
        kube::Error::Api(status) => Some(status.code),
        _ => None,
    }
}

/// The display text of a client error (`ToString::to_string` on
/// `kube::Error`). Nothing is stated of the text: for some errors it holds
/// the operating system's message, which follows the platform and locale.
#[verifier::external_body]
fn kube_error_text(e: &kube::Error) -> String {
    e.to_string()
}

/// The HTTP answer to an error: 404 for a missing object, 403 for a refused
/// one, 504 for a timeout, 500 for an error of the backend itself, and 502
/// for every failure of the cluster or its configuration.
pub proof fn law_http_status_by_kind(e: CoreError)
    ensures
        (status_of(e) == 404) == (e is NotFound),
        (status_of(e) == 403) == (e is Forbidden),
        (status_of(e) == 504) == (e is Timeout),
        (status_of(e) == 500) == (e is Other),
        (status_of(e) == 502) == (e is Upstream || e is Kubeconfig || e is NotConnected),
{
}

} // verus!
