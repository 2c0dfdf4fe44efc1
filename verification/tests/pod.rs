use hahaha::container::{ContainerState, ContainerStateExt, ContainerStatus, HahahaContainer};
use hahaha::pod::{classify, find_label, ClassifyError, JobPod, ObjectMeta, Pod, PodStatus, Sidecars};

const WAITING: ContainerState = ContainerState { waiting: true, running: false, terminated: false };
const RUNNING: ContainerState = ContainerState { waiting: false, running: true, terminated: false };
const TERMINATED: ContainerState =
    ContainerState { waiting: false, running: false, terminated: true };

fn status(name: &str, state: Option<ContainerState>) -> ContainerStatus {
    ContainerStatus { name: name.to_string(), state }
}

fn pod(labels: Option<Vec<(&str, &str)>>, statuses: Option<Vec<ContainerStatus>>) -> Pod {
    Pod {
        metadata: ObjectMeta {
            name: Some("job-7-x2x".to_string()),
            labels: labels.map(|labels| {
                labels.into_iter().map(|(key, value)| (key.to_string(), value.to_string())).collect()
            }),
            ..Default::default()
        },
        status: Some(PodStatus { container_statuses: statuses }),
    }
}

fn names(statuses: &[ContainerStatus]) -> Vec<&str> {
    statuses.iter().map(|status| status.name.as_str()).collect()
}

#[test]
fn only_the_terminated_state_counts_as_terminated() {
    assert!(status("a", Some(TERMINATED)).is_terminated());
    assert!(!status("a", Some(RUNNING)).is_terminated());
    assert!(!status("a", Some(WAITING)).is_terminated());
    assert!(!status("a", None).is_terminated());
    assert!(!status("a", Some(ContainerState::default())).is_terminated());
    assert!(TERMINATED.is_terminated());
    assert!(!RUNNING.is_terminated());
    assert!(!WAITING.is_terminated());
    assert!(!ContainerState::default().is_terminated());
}

#[test]
fn terminated_sub_state_counts_whatever_else_is_reported() {
    let both = ContainerState { waiting: false, running: true, terminated: true };
    assert!(both.is_terminated());
    assert!(status("a", Some(both)).is_terminated());
    let pod = pod(
        Some(vec![("app", "job-7")]),
        Some(vec![status("job-7", Some(both)), status("cloudsql-proxy", Some(RUNNING))]),
    );
    assert_eq!(names(&classify(&pod).unwrap()), vec!["cloudsql-proxy"]);
}

#[test]
fn running_main_container_gives_empty_roster() {
    let pod = pod(
        Some(vec![("app", "job-7")]),
        Some(vec![
            status("job-7", Some(RUNNING)),
            status("cloudsql-proxy", Some(RUNNING)),
        ]),
    );
    assert_eq!(names(&classify(&pod).unwrap()), Vec::<&str>::new());
}

#[test]
fn waiting_or_stateless_main_container_gives_empty_roster() {
    for state in [Some(WAITING), None] {
        let pod = pod(
            Some(vec![("app", "job-7")]),
            Some(vec![status("cloudsql-proxy", Some(RUNNING)), status("job-7", state)]),
        );
        assert!(classify(&pod).unwrap().is_empty());
    }
}

#[test]
fn pod_without_container_statuses_gives_empty_roster() {
    assert!(classify(&pod(Some(vec![("app", "job-7")]), None)).unwrap().is_empty());
    assert!(classify(&pod(Some(vec![("app", "job-7")]), Some(vec![]))).unwrap().is_empty());
    let mut without_status = pod(Some(vec![("app", "job-7")]), None);
    without_status.status = None;
    assert!(classify(&without_status).unwrap().is_empty());
}

#[test]
fn terminated_main_container_lists_live_sidecars_in_order() {
    let pod = pod(
        Some(vec![("team", "x"), ("app", "job-7")]),
        Some(vec![
            status("linkerd-proxy", Some(RUNNING)),
            status("job-7", Some(TERMINATED)),
            status("vks-sidecar", Some(TERMINATED)),
            status("cloudsql-proxy", Some(WAITING)),
            status("secure-logs-fluentd", None),
        ]),
    );
    let roster = classify(&pod).unwrap();
    assert_eq!(names(&roster), vec!["linkerd-proxy", "cloudsql-proxy", "secure-logs-fluentd"]);
    assert_eq!(roster[1].state, Some(WAITING));
    assert_eq!(names(&pod.sidecars().unwrap()), names(&roster));
}

#[test]
fn terminated_sidecars_are_left_out() {
    let pod = pod(
        Some(vec![("app", "job-7")]),
        Some(vec![
            status("job-7", Some(TERMINATED)),
            status("cloudsql-proxy", Some(TERMINATED)),
        ]),
    );
    assert!(classify(&pod).unwrap().is_empty());
}

#[test]
fn missing_label_is_told_apart_from_missing_labels() {
    let statuses = || Some(vec![status("job-7", Some(TERMINATED))]);
    assert_eq!(classify(&pod(None, statuses())).unwrap_err(), ClassifyError::NoLabels);
    assert_eq!(
        classify(&pod(Some(vec![("team", "x")]), statuses())).unwrap_err(),
        ClassifyError::MissingLabel
    );
    assert_eq!(pod(Some(vec![]), statuses()).job_name().unwrap_err(), ClassifyError::MissingLabel);
    assert_eq!(ClassifyError::NoLabels.to_string(), "no labels found on pod");
    assert_eq!(ClassifyError::MissingLabel.to_string(), "no app name found on pod");
}

#[test]
fn reported_containers_without_the_main_one_are_an_error() {
    let pod = pod(
        Some(vec![("app", "job-7")]),
        Some(vec![status("cloudsql-proxy", Some(RUNNING))]),
    );
    assert_eq!(classify(&pod).unwrap_err(), ClassifyError::MainContainerNotFound);
    assert_eq!(
        ClassifyError::MainContainerNotFound.to_string(),
        "couldn't determine main container"
    );
}

#[test]
fn job_name_is_the_value_of_the_app_label() {
    let pod = pod(Some(vec![("app", "other"), ("app", "job-7"), ("team", "x")]), None);
    assert_eq!(pod.job_name().unwrap(), "job-7");
    let labels = vec![("a".to_string(), "1".to_string()), ("b".to_string(), "2".to_string())];
    assert_eq!(find_label(&labels, &"b".to_string()), Some("2".to_string()));
    assert_eq!(find_label(&labels, &"a".to_string()), Some("1".to_string()));
    assert_eq!(find_label(&labels, &"c".to_string()), None);
    assert_eq!(find_label(&Vec::new(), &"a".to_string()), None);
}

#[test]
fn job_pod_holds_name_and_statuses() {
    let pod = pod(
        Some(vec![("app", "job-7")]),
        Some(vec![
            status("job-7", Some(RUNNING)),
            status("cloudsql-proxy", Some(RUNNING)),
            status("done", Some(TERMINATED)),
        ]),
    );
    let job_pod = JobPod::from(&pod).unwrap();
    assert_eq!(job_pod.name, "job-7");
    assert_eq!(names(&job_pod.statuses), vec!["job-7", "cloudsql-proxy", "done"]);
    assert_eq!(names(&job_pod.running_sidecars()), vec!["cloudsql-proxy"]);
    assert_eq!(job_pod.main_container().unwrap().state, Some(RUNNING));
    assert!(job_pod.sidecars().unwrap().is_empty());
}

#[test]
fn pod_name_and_namespace_fall_back() {
    let mut pod = pod(None, None);
    assert_eq!(pod.name_any(), "job-7-x2x");
    assert_eq!(pod.namespace(), "default");
    pod.metadata.name = None;
    pod.metadata.generate_name = Some("job-7-".to_string());
    pod.metadata.namespace = Some("team-a".to_string());
    pod.metadata.uid = Some("1234".to_string());
    assert_eq!(pod.name_any(), "job-7-");
    assert_eq!(pod.namespace(), "team-a");
    pod.metadata.generate_name = None;
    assert_eq!(pod.name_any(), "");
    let reference = pod.object_ref();
    assert_eq!(reference.name, None);
    assert_eq!(reference.namespace, Some("team-a".to_string()));
    assert_eq!(reference.uid, Some("1234".to_string()));
}
