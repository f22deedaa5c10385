//! Background task spawners of the desktop viewer. Each task reports over a
//! channel; neither starts any work yet, so both hand the sender back to be
//! dropped.
use vstd::prelude::*;

use std::sync::mpsc::Sender;

verus! {

/// The sending half of a standard channel, carried through unchanged.
#[verifier::external_type_specification]
#[verifier::external_body]
#[verifier::reject_recursive_types(T)]
pub struct ExSender<T>(Sender<T>);

/// Start polling the pod list, reporting over `tx`. Polling is not started
/// yet: the sender is dropped, so a receiver sees the channel close.
pub fn spawn_pod_poller(tx: Sender<String>) {
    let _unused = tx;
}

/// Start streaming the logs of pod `pod` in namespace `ns`, reporting over
/// `tx`. Streaming is not started yet: the sender is dropped.
pub fn spawn_log_stream(pod: &str, ns: &str, tx: Sender<String>) {
    let _unused = (pod, ns, tx);
}

} // verus!
