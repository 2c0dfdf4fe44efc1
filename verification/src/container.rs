//! What the cluster reports of a single container.

use vstd::prelude::*;

verus! {

/// The lifecycle of a container as the cluster reports it: which of the
/// sub-states waiting, running and terminated it carries. The cluster
/// reports one of them; nothing here depends on that.
#[derive(Clone, Copy, Debug, Default, PartialEq, Eq, Structural)]
pub struct ContainerState {
    pub waiting: bool,
    pub running: bool,
    pub terminated: bool,
}

/// What the cluster reports of one container of a pod. A container that has
/// not reported a lifecycle yet has no state.
#[derive(Debug, Default)]
pub struct ContainerStatus {
    pub name: String,
    pub state: Option<ContainerState>,
}

/// A container status as a plain value.
pub struct ContainerStatusView {
    pub name: Seq<char>,
    pub state: Option<ContainerState>,
}

impl View for ContainerStatus {
    type V = ContainerStatusView;

    open spec fn view(&self) -> ContainerStatusView {
        ContainerStatusView { name: self.name@, state: self.state }
    }
}

impl ContainerStatusView {
    /// A container counts as terminated exactly when its reported
    /// lifecycle carries the terminated sub-state: a container that is
    /// only waiting or running, or that has no state, does not.
    pub open spec fn terminated(self) -> bool {
        self.state matches Some(state) && state.terminated
    }
}

/// The views of a sequence of container statuses, in the same order.
pub open spec fn status_views(statuses: Seq<ContainerStatus>) -> Seq<ContainerStatusView> {
    statuses.map_values(|status: ContainerStatus| status@)
}

/// A reported lifecycle sub-state that can tell whether it is the terminated one.
pub trait ContainerStateExt {
    spec fn terminated(&self) -> bool;

    fn is_terminated(&self) -> (answer: bool)
        ensures
            answer == self.terminated(),
    ;
}

impl ContainerStateExt for ContainerState {
    open spec fn terminated(&self) -> bool {
        self.terminated
    }

    fn is_terminated(&self) -> (answer: bool) {
        self.terminated
    }
}

/// A container that can tell whether it has terminated.
pub trait HahahaContainer {
    spec fn terminated(&self) -> bool;

    fn is_terminated(&self) -> (answer: bool)
        ensures
            answer == self.terminated(),
    ;
}

impl HahahaContainer for ContainerStatus {
    open spec fn terminated(&self) -> bool {
        self@.terminated()
    }

    fn is_terminated(&self) -> (answer: bool) {
        match &self.state {
            Some(state) => ContainerStateExt::is_terminated(state),
            None => false,
        }
    }
}

impl Clone for ContainerStatus {
    fn clone(&self) -> (copy: ContainerStatus)
        ensures
            copy@ == self@,
    {
        ContainerStatus { name: self.name.clone(), state: self.state }
    }
}

} // verus!
