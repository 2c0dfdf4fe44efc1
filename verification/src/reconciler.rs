//! One pass over one pod: classify it, shut its live sidecars down in
//! order, and decide when to look at the pod again.

use crate::actions::{Action, ActionView, Catalog};
use crate::api::{result_view, Destroyer, ExecError, ExecErrorView};
use crate::container::{status_views, ContainerStatusView};
use crate::events::{failure_event, shutdown_event, Event, EventSink, EventView, ObjectReference};
use crate::metrics::MetricsSink;
use crate::pod::{ClassifyError, JobPod, Pod};
use crate::text::occurs_in;
use vstd::prelude::*;
use vstd::string::StringExecFns;

verus! {

/// What the controller does with a pod after a pass.
#[derive(Clone, Copy, Debug, PartialEq, Eq, Structural)]
pub enum ReconcilerAction {
    /// Leave the pod alone until the cluster reports a change of it.
    AwaitChange,
    /// Look at the pod again after this many seconds.
    Requeue(u64),
}

/// The seconds to wait before a failed pass is tried again.
pub const RETRY_SECONDS: u64 = 30;

impl ReconcilerAction {
    /// Do nothing about the pod until the cluster reports a change of it.
    pub fn await_change() -> (action: ReconcilerAction)
        ensures
            action == ReconcilerAction::AwaitChange,
    {
        ReconcilerAction::AwaitChange
    }

    /// Look at the pod again after the given number of seconds.
    pub fn requeue(seconds: u64) -> (action: ReconcilerAction)
        ensures
            action == ReconcilerAction::Requeue(seconds),
    {
        ReconcilerAction::Requeue(seconds)
    }
}

/// Why a pass over a pod failed.
#[derive(Debug)]
pub enum Error {
    /// The pod, the sidecar that could not be shut down, and why.
    SidecarShutdownFailed(String, String, ExecError),
    /// The pod, and why it could not be classified.
    RunningSidecarError(String, ClassifyError),
}

/// A failed pass as a plain value.
pub enum ErrorView {
    SidecarShutdownFailed(Seq<char>, Seq<char>, ExecErrorView),
    RunningSidecarError(Seq<char>, ClassifyError),
}

impl View for Error {
    type V = ErrorView;

    open spec fn view(&self) -> ErrorView {
        match self {
            Error::SidecarShutdownFailed(pod, sidecar, error) => ErrorView::SidecarShutdownFailed(
                pod@,
                sidecar@,
                error@,
            ),
            Error::RunningSidecarError(pod, error) => ErrorView::RunningSidecarError(pod@, *error),
        }
    }
}

impl ErrorView {
    /// The failure in words.
    pub open spec fn message(self) -> Seq<char> {
        match self {
            ErrorView::SidecarShutdownFailed(pod, sidecar, error) => pod
                + ": could not shut down sidecar "@ + sidecar + ": "@ + error.message(),
            ErrorView::RunningSidecarError(pod, error) => pod
                + ": could not get running sidecars: "@ + error.message(),
        }
    }
}

impl Error {
    /// The failure in words.
    pub fn to_string(&self) -> (text: String)
        ensures
            text@ == self@.message(),
    {
        match self {
            Error::SidecarShutdownFailed(pod, sidecar, error) => {
                let mut text = pod.clone();
                text.append(": could not shut down sidecar ");
                text.append(sidecar.as_str());
                text.append(": ");
                text.append(error.to_string().as_str());
                text
            },
            Error::RunningSidecarError(pod, error) => {
                let mut text = pod.clone();
                text.append(": could not get running sidecars: ");
                text.append(error.to_string().as_str());
                text
            },
        }
    }
}

/// The counters that are kept per container, job and namespace.
#[derive(Clone, Copy, Debug, PartialEq, Eq, Structural)]
pub enum Counter {
    /// Sidecars that were shut down.
    SidecarShutdowns,
    /// Sidecars that could not be shut down.
    FailedSidecarShutdowns,
    /// Sidecars for which the catalog has no recipe.
    UnsupportedSidecars,
}

/// Something that a pass wants the outside world to know.
#[derive(Debug)]
pub enum Effect {
    /// Publish this event about the pod.
    Publish(Event),
    /// Add one to this counter for this container, job and namespace.
    Count(Counter, String, String, String),
    /// Add one to the count of the events that could not be published.
    CountUnsuccessfulPost,
}

/// An effect as a plain value.
pub enum EffectView {
    Publish(EventView),
    Count(Counter, Seq<char>, Seq<char>, Seq<char>),
    CountUnsuccessfulPost,
}

impl View for Effect {
    type V = EffectView;

    open spec fn view(&self) -> EffectView {
        match self {
            Effect::Publish(event) => EffectView::Publish(event@),
            Effect::Count(counter, container, job_name, namespace) => EffectView::Count(
                *counter,
                container@,
                job_name@,
                namespace@,
            ),
            Effect::CountUnsuccessfulPost => EffectView::CountUnsuccessfulPost,
        }
    }
}

/// What is due once the event sink has answered: an event that could not
/// be published is counted as an unsuccessful post, and nothing else
/// follows from it; an event that was published asks for nothing more.
pub open spec fn due_after_publish(answer: Result<(), String>) -> Option<EffectView> {
    match answer {
        Ok(_) => None,
        Err(_) => Some(EffectView::CountUnsuccessfulPost),
    }
}

/// Says what is due once the event sink has answered. The answer changes
/// nothing about the pass itself.
pub fn after_publish(answer: &Result<(), String>) -> (due: Option<Effect>)
    ensures
        match due {
            Some(effect) => Some(effect@),
            None => None,
        } == due_after_publish(*answer),
{
    match answer {
        Ok(_) => None,
        Err(_) => Some(Effect::CountUnsuccessfulPost),
    }
}

/// A pass over one pod: the pod's name, namespace and job, the sidecars to
/// shut down, and how many of them have been dealt with.
#[derive(Debug)]
pub struct Pass {
    pub pod_name: String,
    pub namespace: String,
    pub job_name: String,
    pub roster: Vec<String>,
    pub cursor: usize,
}

/// A pass as a plain value.
pub struct PassView {
    pub pod_name: Seq<char>,
    pub namespace: Seq<char>,
    pub job_name: Seq<char>,
    pub roster: Seq<Seq<char>>,
    pub cursor: int,
}

impl View for Pass {
    type V = PassView;

    open spec fn view(&self) -> PassView {
        PassView {
            pod_name: self.pod_name@,
            namespace: self.namespace@,
            job_name: self.job_name@,
            roster: self.roster.deep_view(),
            cursor: self.cursor as int,
        }
    }
}

/// A sidecar that is to be shut down with a recipe, and the pass that
/// goes on once the outcome is known.
#[derive(Debug)]
pub struct Attempt {
    pub pass: Pass,
    pub container: String,
    pub action: Action,
}

/// An attempt as a plain value.
pub struct AttemptView {
    pub pass: PassView,
    pub container: Seq<char>,
    pub action: ActionView,
}

impl View for Attempt {
    type V = AttemptView;

    open spec fn view(&self) -> AttemptView {
        AttemptView { pass: self.pass@, container: self.container@, action: self.action@ }
    }
}

/// How a pass goes on.
#[derive(Debug)]
pub enum Next {
    /// Shut this sidecar down, then settle the attempt with the outcome.
    Shutdown(Attempt),
    /// The pass is over, with this result.
    Finished(Result<ReconcilerAction, Error>),
}

/// The next thing to do as a plain value.
pub enum NextView {
    Shutdown(AttemptView),
    Finished(Result<ReconcilerAction, ErrorView>),
}

impl View for Next {
    type V = NextView;

    open spec fn view(&self) -> NextView {
        match self {
            Next::Shutdown(attempt) => NextView::Shutdown(attempt@),
            Next::Finished(Ok(action)) => NextView::Finished(Ok(*action)),
            Next::Finished(Err(error)) => NextView::Finished(Err(error@)),
        }
    }
}

/// One step of a pass: the effects that are due now, in their order, and
/// how the pass goes on after them.
#[derive(Debug)]
pub struct Step {
    pub effects: Vec<Effect>,
    pub next: Next,
}

/// A step as a plain value.
pub struct StepView {
    pub effects: Seq<EffectView>,
    pub next: NextView,
}

impl View for Step {
    type V = StepView;

    open spec fn view(&self) -> StepView {
        StepView {
            effects: self.effects@.map_values(|effect: Effect| effect@),
            next: self.next@,
        }
    }
}

/// The names of the containers of a roster, in its order.
pub open spec fn roster_names(roster: Seq<ContainerStatusView>) -> Seq<Seq<char>> {
    roster.map_values(|status: ContainerStatusView| status.name)
}

/// The position of the first sidecar at or after `from` that the catalog
/// has a recipe for; where there is none, the roster's length, or `from`
/// itself if that lies beyond the roster.
pub open spec fn first_supported(
    roster: Seq<Seq<char>>,
    catalog: Map<Seq<char>, ActionView>,
    from: int,
) -> int
    decreases roster.len() - from,
{
    if from >= roster.len() {
        from
    } else if catalog.contains_key(roster[from]) {
        from
    } else {
        first_supported(roster, catalog, from + 1)
    }
}

impl PassView {
    /// The count that tells of the sidecar at `position`, on `counter`.
    pub open spec fn count(self, counter: Counter, position: int) -> EffectView {
        EffectView::Count(counter, self.roster[position], self.job_name, self.namespace)
    }

    /// One count of an unsupported sidecar for each sidecar from `from` up
    /// to, and without, `to`.
    pub open spec fn passed_over(self, from: int, to: int) -> Seq<EffectView> {
        Seq::new(
            (to - from) as nat,
            |offset: int| self.count(Counter::UnsupportedSidecars, from + offset),
        )
    }

    /// How the pass goes on from its cursor, once the effects `due` have
    /// been noted: every sidecar without a recipe is counted as
    /// unsupported and passed over, up to the first sidecar that has one,
    /// which is to be shut down. A pass that comes to the end of its roster
    /// awaits the pod's next change.
    pub open spec fn resume(
        self,
        catalog: Map<Seq<char>, ActionView>,
        due: Seq<EffectView>,
    ) -> StepView {
        let found = first_supported(self.roster, catalog, self.cursor);
        StepView {
            effects: due + self.passed_over(self.cursor, found),
            next: if found < self.roster.len() {
                NextView::Shutdown(
                    AttemptView {
                        pass: PassView { cursor: found + 1, ..self },
                        container: self.roster[found],
                        action: catalog[self.roster[found]],
                    },
                )
            } else {
                NextView::Finished(Ok(ReconcilerAction::AwaitChange))
            },
        }
    }
}

/// The first step of a pass over a pod. A pod that cannot be classified
/// fails the pass at once, with nothing else done. Any other pod's roster
/// is taken from its start.
pub open spec fn first_step(pod: Pod, catalog: Map<Seq<char>, ActionView>) -> StepView {
    match pod.roster() {
        Err(error) => StepView {
            effects: Seq::empty(),
            next: NextView::Finished(
                Err(ErrorView::RunningSidecarError(pod.spec_name_any(), error)),
            ),
        },
        Ok(roster) => PassView {
            pod_name: pod.spec_name_any(),
            namespace: pod.spec_namespace(),
            job_name: pod.job()->Ok_0,
            roster: roster_names(roster),
            cursor: 0,
        }.resume(catalog, Seq::empty()),
    }
}

impl AttemptView {
    /// The step that follows the outcome of the attempt.
    ///
    /// A success is told by a normal event and counted as a shutdown, and
    /// the pass goes on with the rest of the roster. A failure is told by a
    /// warning that names the sidecar and the reason, and is counted as a
    /// failed shutdown; it ends the pass, with an error that names the pod
    /// and the sidecar, and nothing is done about the rest of the roster.
    pub open spec fn settled(
        self,
        outcome: Result<(), ExecErrorView>,
        catalog: Map<Seq<char>, ActionView>,
    ) -> StepView {
        match outcome {
            Ok(_) => self.pass.resume(
                catalog,
                seq![
                    EffectView::Publish(shutdown_event(self.container)),
                    EffectView::Count(
                        Counter::SidecarShutdowns,
                        self.container,
                        self.pass.job_name,
                        self.pass.namespace,
                    ),
                ],
            ),
            Err(error) => StepView {
                effects: seq![
                    EffectView::Publish(failure_event(self.container, error.message())),
                    EffectView::Count(
                        Counter::FailedSidecarShutdowns,
                        self.container,
                        self.pass.job_name,
                        self.pass.namespace,
                    ),
                ],
                next: NextView::Finished(
                    Err(
                        ErrorView::SidecarShutdownFailed(
                            self.pass.pod_name,
                            self.container,
                            error,
                        ),
                    ),
                ),
            },
        }
    }
}

impl Pass {
    /// Goes on from the cursor, after the effects that are due already.
    fn resume(self, actions: &Catalog, due: Vec<Effect>) -> (step: Step)
        ensures
            step@ == self@.resume(actions@, due@.map_values(|effect: Effect| effect@)),
    {
        let ghost start = self@;
        let ghost noted = due@.map_values(|effect: Effect| effect@);
        let mut pass = self;
        let mut effects = due;
        proof {
            assert(start.passed_over(start.cursor, start.cursor) =~= Seq::empty());
            assert(noted + Seq::<EffectView>::empty() =~= noted);
        }
        while pass.cursor < pass.roster.len()
            invariant
                start == self@,
                noted == due@.map_values(|effect: Effect| effect@),
                start.cursor <= pass.cursor,
                pass.cursor <= pass.roster.len() || pass.cursor == start.cursor,
                pass@ == (PassView { cursor: pass.cursor as int, ..start }),
                first_supported(start.roster, actions@, start.cursor) == first_supported(
                    start.roster,
                    actions@,
                    pass.cursor as int,
                ),
                effects@.map_values(|effect: Effect| effect@) == noted + start.passed_over(
                    start.cursor,
                    pass.cursor as int,
                ),
            decreases pass.roster.len() - pass.cursor,
        {
            let container = pass.roster[pass.cursor].clone();
            proof {
                assert(container@ == start.roster[pass.cursor as int]);
            }
            match actions.get(&container) {
                Some(action) => {
                    let action = action.clone();
                    pass.cursor += 1;
                    return Step {
                        effects,
                        next: Next::Shutdown(Attempt { pass, container, action }),
                    };
                },
                None => {
                    let ghost before = effects@.map_values(|effect: Effect| effect@);
                    let ghost position = pass.cursor as int;
                    effects.push(
                        Effect::Count(
                            Counter::UnsupportedSidecars,
                            container,
                            pass.job_name.clone(),
                            pass.namespace.clone(),
                        ),
                    );
                    pass.cursor += 1;
                    proof {
                        let counted = start.count(Counter::UnsupportedSidecars, position);
                        assert(effects@.map_values(|effect: Effect| effect@) =~= before.push(
                            counted,
                        ));
                        assert(start.passed_over(start.cursor, position + 1)
                            =~= start.passed_over(start.cursor, position).push(counted));
                        assert(noted + start.passed_over(start.cursor, position + 1) =~= (noted
                            + start.passed_over(start.cursor, position)).push(counted));
                    }
                },
            }
        }
        Step { effects, next: Next::Finished(Ok(ReconcilerAction::await_change())) }
    }
}

/// Begins a pass over a pod: classifies it and goes as far as the first
/// sidecar that is to be shut down.
pub fn begin(pod: &Pod, actions: &Catalog) -> (step: Step)
    ensures
        step@ == first_step(*pod, actions@),
{
    let pod_name = pod.name_any();
    let job_pod = match JobPod::from(pod) {
        Ok(job_pod) => job_pod,
        Err(error) => {
            let step = Step {
                effects: Vec::new(),
                next: Next::Finished(Err(Error::RunningSidecarError(pod_name, error))),
            };
            assert(step@.effects =~= Seq::empty());
            return step;
        },
    };
    let sidecars = match job_pod.sidecars() {
        Ok(sidecars) => sidecars,
        Err(error) => {
            let step = Step {
                effects: Vec::new(),
                next: Next::Finished(Err(Error::RunningSidecarError(pod_name, error))),
            };
            assert(step@.effects =~= Seq::empty());
            return step;
        },
    };
    let mut roster: Vec<String> = Vec::new();
    let mut index: usize = 0;
    while index < sidecars.len()
        invariant
            index <= sidecars.len(),
            roster.len() == index,
            forall|at: int| 0 <= at < index ==> roster@[at]@ == sidecars@[at].name@,
        decreases sidecars.len() - index,
    {
        roster.push(sidecars[index].name.clone());
        index += 1;
    }
    proof {
        assert(roster.deep_view() =~= roster_names(status_views(sidecars@)));
    }
    let pass = Pass {
        pod_name,
        namespace: pod.namespace(),
        job_name: job_pod.name,
        roster,
        cursor: 0,
    };
    let due: Vec<Effect> = Vec::new();
    proof {
        assert(due@.map_values(|effect: Effect| effect@) =~= Seq::empty());
    }
    pass.resume(actions, due)
}

impl Attempt {
    /// Settles the attempt with its outcome, and goes on with the pass
    /// where the outcome allows it.
    pub fn settle(self, outcome: Result<(), ExecError>, actions: &Catalog) -> (step: Step)
        ensures
            step@ == self@.settled(result_view(outcome), actions@),
    {
        let Attempt { pass, container, action: _ } = self;
        let mut effects: Vec<Effect> = Vec::new();
        match outcome {
            Ok(_) => {
                effects.push(Effect::Publish(Event::shutdown(container.as_str())));
                effects.push(
                    Effect::Count(
                        Counter::SidecarShutdowns,
                        container,
                        pass.job_name.clone(),
                        pass.namespace.clone(),
                    ),
                );
                proof {
                    assert(effects@.map_values(|effect: Effect| effect@) =~= seq![
                        EffectView::Publish(shutdown_event(self.container@)),
                        EffectView::Count(
                            Counter::SidecarShutdowns,
                            self.container@,
                            self.pass.job_name@,
                            self.pass.namespace@,
                        ),
                    ]);
                }
                pass.resume(actions, effects)
            },
            Err(error) => {
                let reason = error.to_string();
                effects.push(
                    Effect::Publish(Event::failure(container.as_str(), reason.as_str())),
                );
                effects.push(
                    Effect::Count(
                        Counter::FailedSidecarShutdowns,
                        container.clone(),
                        pass.job_name.clone(),
                        pass.namespace.clone(),
                    ),
                );
                let step = Step {
                    effects,
                    next: Next::Finished(
                        Err(Error::SidecarShutdownFailed(pass.pod_name, container, error)),
                    ),
                };
                proof {
                    assert(step@.effects =~= self@.settled(
                        result_view(outcome),
                        actions@,
                    ).effects);
                }
                step
            },
        }
    }
}

/// What a pass works with: the catalog of recipes, and where events and
/// counts go.
#[derive(Debug)]
pub struct Data<E, M> {
    pub actions: Catalog,
    pub events: E,
    pub metrics: M,
}

impl<E: EventSink, M: MetricsSink> Data<E, M> {
    /// Puts together what a pass works with.
    pub fn new(events: E, metrics: M, actions: Catalog) -> (data: Data<E, M>)
        ensures
            data.actions == actions,
            data.events == events,
            data.metrics == metrics,
    {
        Data { actions, events, metrics }
    }
}

/// Hands the effects to where they go, in their order. An event that
/// cannot be published is counted as such, and nothing else follows from
/// it. Where no effect is due, neither sink is touched.
fn perform<E: EventSink, M: MetricsSink>(
    effects: &Vec<Effect>,
    subject: &ObjectReference,
    events: &mut E,
    metrics: &mut M,
)
    ensures
        effects@.len() == 0 ==> *final(events) == *old(events) && *final(metrics) == *old(metrics),
{
    let mut index: usize = 0;
    while index < effects.len()
        invariant
            index <= effects.len(),
            effects@.len() == 0 ==> *events == *old(events) && *metrics == *old(metrics),
        decreases effects.len() - index,
    {
        match &effects[index] {
            Effect::Publish(event) => {
                let answer = events.publish(subject, event);
                if let Some(Effect::CountUnsuccessfulPost) = after_publish(&answer) {
                    metrics.unsuccessful_event_post();
                }
            },
            Effect::Count(counter, container, job_name, namespace) => match counter {
                Counter::SidecarShutdowns => metrics.sidecar_shutdown(
                    container.as_str(),
                    job_name.as_str(),
                    namespace.as_str(),
                ),
                Counter::FailedSidecarShutdowns => metrics.failed_sidecar_shutdown(
                    container.as_str(),
                    job_name.as_str(),
                    namespace.as_str(),
                ),
                Counter::UnsupportedSidecars => metrics.unsupported_sidecar(
                    container.as_str(),
                    job_name.as_str(),
                    namespace.as_str(),
                ),
            },
            Effect::CountUnsuccessfulPost => metrics.unsuccessful_event_post(),
        }
        index += 1;
    }
}

/// Whether an attempt belongs to a pass over a pod with this name and
/// roster: it is for the sidecar just before the cursor, and the catalog
/// has a recipe for that sidecar.
spec fn on_roster(
    attempt: AttemptView,
    pod_name: Seq<char>,
    roster: Seq<Seq<char>>,
    catalog: Map<Seq<char>, ActionView>,
) -> bool {
    &&& attempt.pass.pod_name == pod_name
    &&& attempt.pass.roster == roster
    &&& 0 < attempt.pass.cursor <= roster.len()
    &&& attempt.container == roster[attempt.pass.cursor - 1]
    &&& catalog.contains_key(attempt.container)
}

/// The first supported sidecar lies between the start and the roster's
/// end, and no sidecar before it has a recipe.
pub proof fn lemma_first_supported(
    roster: Seq<Seq<char>>,
    catalog: Map<Seq<char>, ActionView>,
    from: int,
)
    requires
        0 <= from <= roster.len(),
    ensures
        from <= first_supported(roster, catalog, from) <= roster.len(),
        first_supported(roster, catalog, from) < roster.len() ==> catalog.contains_key(
            roster[first_supported(roster, catalog, from)],
        ),
        forall|at: int|
            from <= at < first_supported(roster, catalog, from) ==> !catalog.contains_key(
                #[trigger] roster[at],
            ),
    decreases roster.len() - from,
{
    if from < roster.len() && !catalog.contains_key(roster[from]) {
        lemma_first_supported(roster, catalog, from + 1);
    }
}

/// Runs one pass over a pod and decides when to look at it again.
///
/// A pod that cannot be classified fails the pass at once, and a pod with
/// nothing to shut down ends it at once: neither touches a sink. Otherwise
/// the roster is taken in order. A sidecar without a recipe is counted as
/// unsupported and passed over. Every other one is handed to `api` with
/// its recipe; the outcome is published as an event and counted, and the
/// first failure ends the pass. A pass that comes to the end of the roster
/// awaits the pod's next change.
pub fn reconcile_inner<D: Destroyer, E: EventSink, M: MetricsSink>(
    api: &D,
    pod: &Pod,
    ctx: &mut Data<E, M>,
) -> (result: Result<ReconcilerAction, Error>)
    ensures
        final(ctx).actions@ == old(ctx).actions@,
        (pod.roster() matches Ok(roster) ==> roster.len() == 0) ==> final(ctx).events == old(
            ctx,
        ).events && final(ctx).metrics == old(ctx).metrics,
        result matches Ok(action) ==> action == ReconcilerAction::AwaitChange && pod.roster().is_ok(),
        pod.roster() matches Err(error) ==> result matches Err(failure) && failure@
            == ErrorView::RunningSidecarError(pod.spec_name_any(), error),
        pod.roster() matches Ok(roster) ==> {
            &&& (forall|at: int|
                0 <= at < roster.len() ==> !old(ctx).actions@.contains_key(
                    #[trigger] roster[at].name,
                )) ==> result.is_ok()
            &&& result matches Err(failure) ==> {
                &&& failure@ is SidecarShutdownFailed
                &&& failure@->SidecarShutdownFailed_0 == pod.spec_name_any()
                &&& exists|at: int|
                    0 <= at < roster.len() && (#[trigger] roster[at]).name
                        == failure@->SidecarShutdownFailed_1 && old(ctx).actions@.contains_key(
                        roster[at].name,
                    )
            }
        },
{
    let subject = pod.object_ref();
    let first = begin(pod, &ctx.actions);
    let ghost catalog = ctx.actions@;
    let ghost names = match pod.roster() {
        Ok(roster) => roster_names(roster),
        Err(_) => Seq::empty(),
    };
    let Step { effects, next } = first;
    proof {
        lemma_first_supported(names, catalog, 0);
        if pod.roster() matches Ok(roster) ==> roster.len() == 0 {
            lemma_idle_pod_attempts_nothing(*pod, catalog);
        }
    }
    perform(&effects, &subject, &mut ctx.events, &mut ctx.metrics);
    let mut attempt = match next {
        Next::Finished(result) => {
            return result;
        },
        Next::Shutdown(attempt) => attempt,
    };
    loop
        invariant
            pod.roster().is_ok(),
            names == roster_names(pod.roster()->Ok_0),
            catalog == old(ctx).actions@,
            ctx.actions@ == catalog,
            on_roster(attempt@, pod.spec_name_any(), names, catalog),
        decreases names.len() - attempt@.pass.cursor,
    {
        let ghost pending = attempt@;
        let outcome = api.shutdown(
            &attempt.action,
            attempt.pass.pod_name.as_str(),
            attempt.container.as_str(),
        );
        let step = attempt.settle(outcome, &ctx.actions);
        proof {
            lemma_first_supported(names, catalog, pending.pass.cursor);
        }
        let Step { effects, next } = step;
        perform(&effects, &subject, &mut ctx.events, &mut ctx.metrics);
        match next {
            Next::Finished(result) => {
                proof {
                    let at = pending.pass.cursor - 1;
                    assert(names[at] == pending.container);
                    assert(pod.roster()->Ok_0[at].name == names[at]);
                }
                return result;
            },
            Next::Shutdown(following) => {
                attempt = following;
            },
        }
    }
}

/// What to do with a pod whose pass failed: try again after a short,
/// fixed delay, whatever the failure was.
pub fn error_policy<E, M>(pod: &Pod, error: &Error, ctx: &Data<E, M>) -> (action: ReconcilerAction)
    ensures
        action == ReconcilerAction::Requeue(RETRY_SECONDS),
{
    ReconcilerAction::requeue(RETRY_SECONDS)
}

/// A pod that cannot be classified, or that has nothing to shut down,
/// ends its pass at the first step: nothing is published or counted, and
/// no sidecar is attempted.
pub proof fn lemma_idle_pod_attempts_nothing(pod: Pod, catalog: Map<Seq<char>, ActionView>)
    requires
        pod.roster() matches Ok(roster) ==> roster.len() == 0,
    ensures
        first_step(pod, catalog).effects == Seq::<EffectView>::empty(),
        pod.roster() matches Ok(_) ==> first_step(pod, catalog).next == NextView::Finished(
            Ok(ReconcilerAction::AwaitChange),
        ),
        pod.roster() matches Err(error) ==> first_step(pod, catalog).next == NextView::Finished(
            Err(ErrorView::RunningSidecarError(pod.spec_name_any(), error)),
        ),
{
    if let Ok(roster) = pod.roster() {
        let pass = PassView {
            pod_name: pod.spec_name_any(),
            namespace: pod.spec_namespace(),
            job_name: pod.job()->Ok_0,
            roster: roster_names(roster),
            cursor: 0,
        };
        assert(pass.passed_over(0, 0) =~= Seq::empty());
        assert(first_step(pod, catalog).effects =~= Seq::empty());
    }
}

/// The first failed attempt ends the pass, whatever is left of the
/// roster: the failure is published and counted, nothing is looked up or
/// counted for a later sidecar, and the pass fails with an error that
/// names the pod and the sidecar and whose message holds the sidecar's name.
pub proof fn lemma_failure_ends_pass(
    attempt: AttemptView,
    error: ExecErrorView,
    catalog: Map<Seq<char>, ActionView>,
)
    ensures
        attempt.settled(Err(error), catalog).next == NextView::Finished(
            Err(ErrorView::SidecarShutdownFailed(attempt.pass.pod_name, attempt.container, error)),
        ),
        attempt.settled(Err(error), catalog).effects == seq![
            EffectView::Publish(failure_event(attempt.container, error.message())),
            EffectView::Count(
                Counter::FailedSidecarShutdowns,
                attempt.container,
                attempt.pass.job_name,
                attempt.pass.namespace,
            ),
        ],
        occurs_in(
            attempt.container,
            ErrorView::SidecarShutdownFailed(
                attempt.pass.pod_name,
                attempt.container,
                error,
            ).message(),
        ),
{
    let message = ErrorView::SidecarShutdownFailed(
        attempt.pass.pod_name,
        attempt.container,
        error,
    ).message();
    let start = (attempt.pass.pod_name + ": could not shut down sidecar "@).len() as int;
    assert(message.subrange(start, start + attempt.container.len()) =~= attempt.container);
}

/// A roster of sidecars without recipes is passed over whole: each one is
/// counted as unsupported exactly once, in the roster's order, nothing is
/// published, none is attempted, and the pass succeeds.
pub proof fn lemma_unsupported_sidecars_are_passed_over(
    pass: PassView,
    catalog: Map<Seq<char>, ActionView>,
)
    requires
        0 <= pass.cursor <= pass.roster.len(),
        forall|at: int|
            pass.cursor <= at < pass.roster.len() ==> !catalog.contains_key(
                #[trigger] pass.roster[at],
            ),
    ensures
        pass.resume(catalog, Seq::empty()).next == NextView::Finished(
            Ok(ReconcilerAction::AwaitChange),
        ),
        pass.resume(catalog, Seq::empty()).effects.len() == pass.roster.len() - pass.cursor,
        forall|offset: int|
            0 <= offset < pass.roster.len() - pass.cursor ==> #[trigger] pass.resume(
                catalog,
                Seq::empty(),
            ).effects[offset] == EffectView::Count(
                Counter::UnsupportedSidecars,
                pass.roster[pass.cursor + offset],
                pass.job_name,
                pass.namespace,
            ),
{
    lemma_first_supported(pass.roster, catalog, pass.cursor);
    let found = first_supported(pass.roster, catalog, pass.cursor);
    if found < pass.roster.len() {
        assert(!catalog.contains_key(pass.roster[found]));
    }
    assert(Seq::<EffectView>::empty() + pass.passed_over(pass.cursor, found) =~= pass.passed_over(
        pass.cursor,
        found,
    ));
}

/// A successful attempt is published as a normal event and counted once
/// as a shutdown of that sidecar of that job in that namespace, before
/// anything is done about the rest of the roster.
pub proof fn lemma_success_is_told_and_counted(
    attempt: AttemptView,
    catalog: Map<Seq<char>, ActionView>,
)
    requires
        0 <= attempt.pass.cursor <= attempt.pass.roster.len(),
    ensures
        attempt.settled(Ok(()), catalog).effects.len() >= 2,
        attempt.settled(Ok(()), catalog).effects[0] == EffectView::Publish(
            shutdown_event(attempt.container),
        ),
        attempt.settled(Ok(()), catalog).effects[1] == EffectView::Count(
            Counter::SidecarShutdowns,
            attempt.container,
            attempt.pass.job_name,
            attempt.pass.namespace,
        ),
        attempt.pass.cursor == attempt.pass.roster.len() ==> attempt.settled(
            Ok(()),
            catalog,
        ).effects.len() == 2 && attempt.settled(Ok(()), catalog).next == NextView::Finished(
            Ok(ReconcilerAction::AwaitChange),
        ),
{
    lemma_first_supported(attempt.pass.roster, catalog, attempt.pass.cursor);
}

} // verus!
