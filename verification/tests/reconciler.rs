use std::cell::Cell;

use hahaha::actions::{generate, Action, Catalog};
use hahaha::api::{Destroyer, ExecError};
use hahaha::container::{ContainerState, ContainerStatus};
use hahaha::events::{Event, EventSink, EventType, ObjectReference};
use hahaha::metrics::MetricsSink;
use hahaha::pod::{ObjectMeta, Pod, PodStatus};
use hahaha::reconciler::{
    after_publish, begin, error_policy, reconcile_inner, Counter, Data, Effect, Error, Next,
    ReconcilerAction, Step,
};

/// Answers every shutdown the same way and counts the calls.
struct MockDestroyer {
    calls: Cell<usize>,
    failure: Option<&'static str>,
    last: Cell<Option<(String, String)>>,
}

impl MockDestroyer {
    fn succeeding() -> MockDestroyer {
        MockDestroyer { calls: Cell::new(0), failure: None, last: Cell::new(None) }
    }

    fn failing(reason: &'static str) -> MockDestroyer {
        MockDestroyer { calls: Cell::new(0), failure: Some(reason), last: Cell::new(None) }
    }
}

impl Destroyer for MockDestroyer {
    fn shutdown(
        &self,
        _action: &Action,
        pod_name: &str,
        container_name: &str,
    ) -> Result<(), ExecError> {
        self.calls.set(self.calls.get() + 1);
        self.last.set(Some((pod_name.to_string(), container_name.to_string())));
        match self.failure {
            Some(reason) => Err(ExecError::Other(reason.to_string())),
            None => Ok(()),
        }
    }
}

/// Keeps what was published; can be told to refuse everything.
struct Events {
    published: Vec<(EventType, String)>,
    refuse: bool,
}

impl EventSink for Events {
    fn publish(&mut self, _subject: &ObjectReference, event: &Event) -> Result<(), String> {
        if self.refuse {
            return Err("no cluster to publish to".to_string());
        }
        self.published.push((event.type_, event.note.clone().unwrap_or_default()));
        Ok(())
    }
}

#[derive(Default)]
struct Counters {
    shutdowns: Vec<(String, String, String)>,
    failures: Vec<(String, String, String)>,
    unsupported: Vec<(String, String, String)>,
    unsuccessful_event_posts: u64,
}

fn key(container: &str, job_name: &str, namespace: &str) -> (String, String, String) {
    (container.to_string(), job_name.to_string(), namespace.to_string())
}

impl MetricsSink for Counters {
    fn sidecar_shutdown(&mut self, container: &str, job_name: &str, namespace: &str) {
        self.shutdowns.push(key(container, job_name, namespace));
    }

    fn failed_sidecar_shutdown(&mut self, container: &str, job_name: &str, namespace: &str) {
        self.failures.push(key(container, job_name, namespace));
    }

    fn unsupported_sidecar(&mut self, container: &str, job_name: &str, namespace: &str) {
        self.unsupported.push(key(container, job_name, namespace));
    }

    fn unsuccessful_event_post(&mut self) {
        self.unsuccessful_event_posts += 1;
    }
}

/// The recipes that are built in.
fn catalog() -> Catalog {
    generate()
}

/// A context whose events reach nobody, as with a client that connects nowhere.
fn make_data() -> Data<Events, Counters> {
    Data::new(Events { published: Vec::new(), refuse: true }, Counters::default(), catalog())
}

fn make_listening_data() -> Data<Events, Counters> {
    Data::new(Events { published: Vec::new(), refuse: false }, Counters::default(), catalog())
}

fn running(name: &str) -> ContainerStatus {
    ContainerStatus {
        name: name.to_string(),
        state: Some(ContainerState { running: true, ..Default::default() }),
    }
}

fn make_pod(
    name: String,
    labels: Option<Vec<(String, String)>>,
    mut extra_containers: Vec<ContainerStatus>,
) -> Pod {
    let mut container_statuses =
        vec![ContainerStatus {
            name: name.clone(),
            state: Some(ContainerState { terminated: true, ..Default::default() }),
        }];
    container_statuses.append(&mut extra_containers);

    Pod {
        metadata: ObjectMeta { name: Some(name), labels, ..Default::default() },
        status: Some(PodStatus { container_statuses: Some(container_statuses) }),
    }
}

#[test]
fn reconcile_ok_on_successful_shutdown() {
    let destroyer = MockDestroyer::succeeding();

    let name: String = String::from("oh-no");

    let labels = vec![("app".to_string(), name.clone())];
    let extra_containers = vec![running("cloudsql-proxy")];

    let ret = reconcile_inner(
        &destroyer,
        &make_pod(name, Some(labels), extra_containers),
        &mut make_data(),
    );

    assert!(ret.is_ok());
    assert_eq!(destroyer.calls.get(), 1);
}

#[test]
fn reconcile_ok_on_no_running_sidecars() {
    let destroyer = MockDestroyer::succeeding();

    let name: String = String::from("oh-no");

    let labels = vec![("app".to_string(), name.clone())];

    let ret = reconcile_inner(&destroyer, &make_pod(name, Some(labels), vec![]), &mut make_data());

    assert!(ret.is_ok());
    assert_eq!(destroyer.calls.get(), 0);
}

#[test]
fn reconcile_err_on_failed_shutdown() {
    let destroyer = MockDestroyer::failing("couldn't shutdown!");
    let name = String::from("oh-no");

    let labels = vec![("app".to_string(), name.clone())];
    let extra_containers = vec![running("cloudsql-proxy")];

    let ret = reconcile_inner(
        &destroyer,
        &make_pod(name.clone(), Some(labels), extra_containers),
        &mut make_data(),
    )
    .unwrap_err();
    assert_eq!(
        ret.to_string(),
        format!("{name}: could not shut down sidecar cloudsql-proxy: couldn't shutdown!")
    );
    assert_eq!(destroyer.calls.get(), 1);
}

#[test]
fn reconcile_err_on_misconfigured_pod() {
    let destroyer = MockDestroyer::succeeding();

    let name: String = String::from("oh-no");

    let labels: Vec<(String, String)> = Vec::new();

    let ret =
        reconcile_inner(&destroyer, &make_pod(name.clone(), Some(labels), vec![]), &mut make_data())
            .unwrap_err();

    assert_eq!(
        ret.to_string(),
        format!("{name}: could not get running sidecars: no app name found on pod")
    );
    assert_eq!(destroyer.calls.get(), 0);
}

#[test]
fn pod_without_labels_is_reported_as_such() {
    let destroyer = MockDestroyer::succeeding();
    let ret = reconcile_inner(
        &destroyer,
        &make_pod("oh-no".to_string(), None, vec![running("cloudsql-proxy")]),
        &mut make_data(),
    )
    .unwrap_err();
    assert_eq!(ret.to_string(), "oh-no: could not get running sidecars: no labels found on pod");
    assert!(matches!(ret, Error::RunningSidecarError(..)));
    assert_eq!(destroyer.calls.get(), 0);
}

/// The effects of a step, each in a line of its own.
fn told(step: &Step) -> Vec<String> {
    step.effects
        .iter()
        .map(|effect| match effect {
            Effect::Publish(event) => {
                format!("{:?}: {}", event.type_, event.note.as_deref().unwrap_or_default())
            }
            Effect::Count(counter, container, job_name, namespace) => {
                format!("{counter:?}({container}, {job_name}, {namespace})")
            }
            Effect::CountUnsuccessfulPost => "unsuccessful post".to_string(),
        })
        .collect()
}

#[test]
fn first_failure_ends_the_pass() {
    let destroyer = MockDestroyer::failing("connection refused");
    let labels = vec![("app".to_string(), "job-abc".to_string())];
    let pod = make_pod(
        "job-abc".to_string(),
        Some(labels),
        vec![running("cloudsql-proxy"), running("linkerd-proxy")],
    );
    let mut data = make_listening_data();

    let failure = reconcile_inner(&destroyer, &pod, &mut data).unwrap_err();

    assert_eq!(destroyer.calls.get(), 1);
    assert_eq!(destroyer.last.take(), Some(("job-abc".to_string(), "cloudsql-proxy".to_string())));
    assert!(matches!(&failure, Error::SidecarShutdownFailed(pod, sidecar, ExecError::Other(_))
        if pod == "job-abc" && sidecar == "cloudsql-proxy"));
    assert!(failure.to_string().contains("cloudsql-proxy"));
    assert_eq!(
        failure.to_string(),
        "job-abc: could not shut down sidecar cloudsql-proxy: connection refused"
    );
    assert_eq!(data.metrics.failures, vec![key("cloudsql-proxy", "job-abc", "default")]);
    assert!(data.metrics.shutdowns.is_empty());
    assert!(data.metrics.unsupported.is_empty());
    assert_eq!(
        data.events.published,
        vec![(
            EventType::Warning,
            "Unsuccessfully shut down container cloudsql-proxy: connection refused".to_string()
        )]
    );
}

#[test]
fn failed_attempt_is_settled_without_a_look_at_the_rest() {
    let labels = vec![("app".to_string(), "job-abc".to_string())];
    let pod = make_pod(
        "job-abc".to_string(),
        Some(labels),
        vec![running("cloudsql-proxy"), running("mystery"), running("linkerd-proxy")],
    );
    let catalog = catalog();

    let first = begin(&pod, &catalog);
    assert!(first.effects.is_empty());
    let attempt = match first.next {
        Next::Shutdown(attempt) => attempt,
        Next::Finished(result) => panic!("finished early: {:?}", result),
    };
    assert_eq!(attempt.container, "cloudsql-proxy");
    assert_eq!(attempt.pass.pod_name, "job-abc");
    assert_eq!(attempt.pass.job_name, "job-abc");
    assert_eq!(attempt.pass.namespace, "default");
    assert_eq!(attempt.pass.roster, vec!["cloudsql-proxy", "mystery", "linkerd-proxy"]);
    assert_eq!(attempt.pass.cursor, 1);
    assert!(matches!(&attempt.action, Action::Exec(command) if command.len() == 4));

    let step = attempt.settle(Err(ExecError::PortUnavailable(4191, None)), &catalog);
    assert_eq!(
        told(&step),
        vec![
            "Warning: Unsuccessfully shut down container cloudsql-proxy: Unable to attach to port: 4191",
            "FailedSidecarShutdowns(cloudsql-proxy, job-abc, default)",
        ]
    );
    match step.next {
        Next::Finished(Err(Error::SidecarShutdownFailed(pod, sidecar, ExecError::PortUnavailable(4191, None)))) => {
            assert_eq!(pod, "job-abc");
            assert_eq!(sidecar, "cloudsql-proxy");
        }
        next => panic!("unexpected step: {:?}", next),
    }
}

#[test]
fn successful_attempt_goes_on_with_the_rest() {
    let labels = vec![("app".to_string(), "job-abc".to_string())];
    let mut pod = make_pod(
        "job-abc".to_string(),
        Some(labels),
        vec![
            running("ghost"),
            running("cloudsql-proxy"),
            running("mystery"),
            running("riddle"),
            running("linkerd-proxy"),
            running("enigma"),
        ],
    );
    pod.metadata.namespace = Some("batch".to_string());
    let catalog = catalog();

    let first = begin(&pod, &catalog);
    assert_eq!(told(&first), vec!["UnsupportedSidecars(ghost, job-abc, batch)"]);
    let attempt = match first.next {
        Next::Shutdown(attempt) => attempt,
        Next::Finished(result) => panic!("finished early: {:?}", result),
    };
    assert_eq!(attempt.container, "cloudsql-proxy");

    let second = attempt.settle(Ok(()), &catalog);
    assert_eq!(
        told(&second),
        vec![
            "Normal: Shut down container cloudsql-proxy",
            "SidecarShutdowns(cloudsql-proxy, job-abc, batch)",
            "UnsupportedSidecars(mystery, job-abc, batch)",
            "UnsupportedSidecars(riddle, job-abc, batch)",
        ]
    );
    let attempt = match second.next {
        Next::Shutdown(attempt) => attempt,
        Next::Finished(result) => panic!("finished early: {:?}", result),
    };
    assert_eq!(attempt.container, "linkerd-proxy");
    assert_eq!(attempt.pass.cursor, 5);
    assert!(matches!(&attempt.action, Action::Portforward(method, path, 4191)
        if method == "POST" && path == "/shutdown"));

    let last = attempt.settle(Ok(()), &catalog);
    assert_eq!(
        told(&last),
        vec![
            "Normal: Shut down container linkerd-proxy",
            "SidecarShutdowns(linkerd-proxy, job-abc, batch)",
            "UnsupportedSidecars(enigma, job-abc, batch)",
        ]
    );
    assert!(matches!(last.next, Next::Finished(Ok(ReconcilerAction::AwaitChange))));
}

#[test]
fn unclassifiable_pod_ends_the_pass_at_once() {
    let pod = make_pod("oh-no".to_string(), None, vec![running("cloudsql-proxy")]);
    let step = begin(&pod, &catalog());
    assert!(step.effects.is_empty());
    assert!(matches!(step.next, Next::Finished(Err(Error::RunningSidecarError(pod, _))) if pod == "oh-no"));

    let labels = vec![("app".to_string(), "job".to_string())];
    let pod = make_pod("job-abc".to_string(), Some(labels), vec![running("cloudsql-proxy")]);
    let destroyer = MockDestroyer::succeeding();
    let mut data = make_listening_data();
    let failure = reconcile_inner(&destroyer, &pod, &mut data).unwrap_err();
    assert_eq!(
        failure.to_string(),
        "job-abc: could not get running sidecars: couldn't determine main container"
    );
    assert_eq!(destroyer.calls.get(), 0);
    assert!(data.events.published.is_empty());
}

#[test]
fn idle_pod_ends_the_pass_at_once() {
    let labels = vec![("app".to_string(), "job-1".to_string())];
    let mut pod = make_pod("job-1".to_string(), Some(labels), vec![running("cloudsql-proxy")]);
    pod.status = Some(PodStatus {
        container_statuses: Some(vec![running("job-1"), running("cloudsql-proxy")]),
    });
    let step = begin(&pod, &catalog());
    assert!(step.effects.is_empty());
    assert!(matches!(step.next, Next::Finished(Ok(ReconcilerAction::AwaitChange))));

    let destroyer = MockDestroyer::succeeding();
    let mut data = make_listening_data();
    assert_eq!(reconcile_inner(&destroyer, &pod, &mut data).unwrap(), ReconcilerAction::AwaitChange);
    assert_eq!(destroyer.calls.get(), 0);
    assert!(data.events.published.is_empty());
    assert!(data.metrics.shutdowns.is_empty());
}

#[test]
fn sidecar_without_recipe_is_counted_and_passed_over() {
    let destroyer = MockDestroyer::succeeding();
    let labels = vec![("app".to_string(), "job-1".to_string())];
    let mut pod = make_pod("job-1".to_string(), Some(labels), vec![running("mystery")]);
    pod.metadata.namespace = Some("batch".to_string());
    let mut data = make_listening_data();

    let step = begin(&pod, &data.actions);
    assert_eq!(told(&step), vec!["UnsupportedSidecars(mystery, job-1, batch)"]);
    assert!(matches!(step.next, Next::Finished(Ok(ReconcilerAction::AwaitChange))));
    assert!(matches!(&step.effects[0], Effect::Count(Counter::UnsupportedSidecars, ..)));

    let result = reconcile_inner(&destroyer, &pod, &mut data);

    assert_eq!(result.unwrap(), ReconcilerAction::AwaitChange);
    assert_eq!(destroyer.calls.get(), 0);
    assert_eq!(data.metrics.unsupported, vec![key("mystery", "job-1", "batch")]);
    assert!(data.metrics.shutdowns.is_empty());
    assert!(data.metrics.failures.is_empty());
    assert!(data.events.published.is_empty());
}

#[test]
fn pass_goes_on_after_a_sidecar_without_recipe() {
    let destroyer = MockDestroyer::succeeding();
    let labels = vec![("app".to_string(), "job-1".to_string())];
    let pod = make_pod(
        "job-1".to_string(),
        Some(labels),
        vec![running("mystery"), running("linkerd-proxy")],
    );
    let mut data = make_listening_data();

    let result = reconcile_inner(&destroyer, &pod, &mut data);

    assert!(result.is_ok());
    assert_eq!(destroyer.calls.get(), 1);
    assert_eq!(destroyer.last.take(), Some(("job-1".to_string(), "linkerd-proxy".to_string())));
    assert_eq!(data.metrics.unsupported, vec![key("mystery", "job-1", "default")]);
    assert_eq!(data.metrics.shutdowns, vec![key("linkerd-proxy", "job-1", "default")]);
}

#[test]
fn finished_job_with_one_sidecar_is_shut_down() {
    let destroyer = MockDestroyer::succeeding();
    let labels = vec![("app".to_string(), "job-7".to_string())];
    let mut pod = make_pod("job-7".to_string(), Some(labels), vec![running("cloudsql-proxy")]);
    pod.metadata.namespace = Some("team-a".to_string());
    let mut data = make_listening_data();

    let ret = reconcile_inner(&destroyer, &pod, &mut data);

    assert_eq!(ret.unwrap(), ReconcilerAction::AwaitChange);
    assert_eq!(destroyer.calls.get(), 1);
    assert_eq!(
        data.events.published,
        vec![(EventType::Normal, "Shut down container cloudsql-proxy".to_string())]
    );
    assert_eq!(data.metrics.shutdowns, vec![key("cloudsql-proxy", "job-7", "team-a")]);
    assert!(data.metrics.failures.is_empty());
    assert!(data.metrics.unsupported.is_empty());
    assert_eq!(data.metrics.unsuccessful_event_posts, 0);
}

#[test]
fn only_a_refused_event_asks_for_a_count() {
    assert!(after_publish(&Ok(())).is_none());
    assert!(matches!(
        after_publish(&Err("no cluster to publish to".to_string())),
        Some(Effect::CountUnsuccessfulPost)
    ));
    assert!(matches!(after_publish(&Err(String::new())), Some(Effect::CountUnsuccessfulPost)));
}

#[test]
fn unpublished_event_is_counted_and_changes_nothing() {
    let destroyer = MockDestroyer::succeeding();
    let labels = vec![("app".to_string(), "job-7".to_string())];
    let pod = make_pod("job-7".to_string(), Some(labels), vec![running("cloudsql-proxy")]);
    let mut data = make_data();

    let ret = reconcile_inner(&destroyer, &pod, &mut data);

    assert!(ret.is_ok());
    assert_eq!(data.metrics.unsuccessful_event_posts, 1);
    assert_eq!(data.metrics.shutdowns, vec![key("cloudsql-proxy", "job-7", "default")]);
}

#[test]
fn failed_pass_is_retried_after_thirty_seconds() {
    let data = make_data();
    let pod = make_pod("oh-no".to_string(), None, vec![]);
    let error = Error::SidecarShutdownFailed(
        "oh-no".to_string(),
        "cloudsql-proxy".to_string(),
        ExecError::PortUnavailable(4191, None),
    );
    assert_eq!(error_policy(&pod, &error, &data), ReconcilerAction::Requeue(30));
    assert_eq!(
        error.to_string(),
        "oh-no: could not shut down sidecar cloudsql-proxy: Unable to attach to port: 4191"
    );
}
