//! The counters that tell how the shutdowns went.

use vstd::prelude::*;

verus! {

/// Where counts go. Each sidecar counter is kept per container name, job
/// name and namespace.
pub trait MetricsSink {
    /// One more sidecar was shut down.
    fn sidecar_shutdown(&mut self, container: &str, job_name: &str, namespace: &str);

    /// One more sidecar could not be shut down.
    fn failed_sidecar_shutdown(&mut self, container: &str, job_name: &str, namespace: &str);

    /// One more sidecar was met for which there is no recipe.
    fn unsupported_sidecar(&mut self, container: &str, job_name: &str, namespace: &str);

    /// One more event could not be published.
    fn unsuccessful_event_post(&mut self);
}

} // verus!
