//! The pod as the controller sees it, and the classification of its containers.

use crate::container::{status_views, ContainerStatus, ContainerStatusView, HahahaContainer};
use crate::events::{copy_text, ObjectReference};
use vstd::prelude::*;
use vstd::string::StringExecFns;

verus! {

/// The identity and labels of a pod.
#[derive(Debug, Default)]
pub struct ObjectMeta {
    pub name: Option<String>,
    pub generate_name: Option<String>,
    pub namespace: Option<String>,
    pub uid: Option<String>,
    /// Label keys and values, as if put into a map one after the other:
    /// where a key occurs twice, the last pair with it decides its value.
    pub labels: Option<Vec<(String, String)>>,
}

/// The observed state of a pod.
#[derive(Debug, Default)]
pub struct PodStatus {
    pub container_statuses: Option<Vec<ContainerStatus>>,
}

/// A snapshot of one pod, as delivered by the cluster.
#[derive(Debug, Default)]
pub struct Pod {
    pub metadata: ObjectMeta,
    pub status: Option<PodStatus>,
}

/// Why a pod could not be classified.
#[derive(Clone, Copy, Debug, PartialEq, Eq, Structural)]
pub enum ClassifyError {
    /// The pod carries no labels at all.
    NoLabels,
    /// The pod's labels lack the key that names the job.
    MissingLabel,
    /// Containers are reported, but none is named like the job.
    MainContainerNotFound,
}

impl ClassifyError {
    /// The failure in words.
    pub open spec fn message(self) -> Seq<char> {
        match self {
            ClassifyError::NoLabels => "no labels found on pod"@,
            ClassifyError::MissingLabel => "no app name found on pod"@,
            ClassifyError::MainContainerNotFound => "couldn't determine main container"@,
        }
    }

    /// The failure in words.
    pub fn to_string(&self) -> (text: String)
        ensures
            text@ == self.message(),
    {
        match self {
            ClassifyError::NoLabels => String::from_str("no labels found on pod"),
            ClassifyError::MissingLabel => String::from_str("no app name found on pod"),
            ClassifyError::MainContainerNotFound => String::from_str(
                "couldn't determine main container",
            ),
        }
    }
}

/// The label key whose value names the job, and with it the main container.
pub open spec fn job_label() -> Seq<char> {
    "app"@
}

/// The namespace assumed for a pod that names none.
pub open spec fn default_namespace() -> Seq<char> {
    "default"@
}

/// The value of the last label with the given key, if there is one.
pub open spec fn label_value(labels: Seq<(String, String)>, key: Seq<char>) -> Option<Seq<char>>
    decreases labels.len(),
{
    if labels.len() == 0 {
        None
    } else if labels.last().0@ == key {
        Some(labels.last().1@)
    } else {
        label_value(labels.drop_last(), key)
    }
}

/// The position of the first container named `job`, if there is one.
pub open spec fn main_position(statuses: Seq<ContainerStatusView>, job: Seq<char>) -> Option<int>
    decreases statuses.len(),
{
    if statuses.len() == 0 {
        None
    } else if statuses[0].name == job {
        Some(0int)
    } else {
        match main_position(statuses.drop_first(), job) {
            Some(position) => Some(position + 1),
            None => None,
        }
    }
}

/// A sidecar that is still alive: any container but the main one that has
/// not terminated.
pub open spec fn live_sidecar(status: ContainerStatusView, job: Seq<char>) -> bool {
    status.name != job && !status.terminated()
}

/// The live sidecars among `statuses`, in the order reported.
pub open spec fn live_sidecars(statuses: Seq<ContainerStatusView>, job: Seq<char>) -> Seq<
    ContainerStatusView,
> {
    statuses.filter(|status: ContainerStatusView| live_sidecar(status, job))
}

/// The sidecars to shut down, given the job's name and the reported
/// containers: none while nothing is reported or the main container still
/// runs, every live sidecar once the main container has terminated.
pub open spec fn roster_of(statuses: Seq<ContainerStatusView>, job: Seq<char>) -> Result<
    Seq<ContainerStatusView>,
    ClassifyError,
> {
    if statuses.len() == 0 {
        Ok(Seq::empty())
    } else {
        match main_position(statuses, job) {
            None => Err(ClassifyError::MainContainerNotFound),
            Some(position) => if statuses[position].terminated() {
                Ok(live_sidecars(statuses, job))
            } else {
                Ok(Seq::empty())
            },
        }
    }
}

impl Pod {
    /// The name of the job that the pod belongs to, or why it has none.
    pub open spec fn job(&self) -> Result<Seq<char>, ClassifyError> {
        match self.metadata.labels {
            None => Err(ClassifyError::NoLabels),
            Some(labels) => match label_value(labels@, job_label()) {
                None => Err(ClassifyError::MissingLabel),
                Some(value) => Ok(value),
            },
        }
    }

    /// The containers reported so far, none if the pod has no status yet.
    pub open spec fn reported(&self) -> Seq<ContainerStatusView> {
        match self.status {
            Some(PodStatus { container_statuses: Some(statuses) }) => status_views(statuses@),
            _ => Seq::empty(),
        }
    }

    /// The sidecars that must be shut down, or why the pod cannot be classified.
    pub open spec fn roster(&self) -> Result<Seq<ContainerStatusView>, ClassifyError> {
        match self.job() {
            Err(error) => Err(error),
            Ok(job) => roster_of(self.reported(), job),
        }
    }

    /// The pod's name, else the prefix its name is generated from, else nothing.
    pub open spec fn spec_name_any(&self) -> Seq<char> {
        match (self.metadata.name, self.metadata.generate_name) {
            (Some(name), _) => name@,
            (None, Some(prefix)) => prefix@,
            (None, None) => Seq::empty(),
        }
    }

    /// The pod's namespace, or the default one where it names none.
    pub open spec fn spec_namespace(&self) -> Seq<char> {
        match self.metadata.namespace {
            Some(namespace) => namespace@,
            None => default_namespace(),
        }
    }

    /// The reference by which events name the pod.
    pub fn object_ref(&self) -> (reference: ObjectReference)
        ensures
            reference.name == self.metadata.name,
            reference.namespace == self.metadata.namespace,
            reference.uid == self.metadata.uid,
    {
        ObjectReference {
            name: copy_text(&self.metadata.name),
            namespace: copy_text(&self.metadata.namespace),
            uid: copy_text(&self.metadata.uid),
        }
    }

    /// The pod's name, else the prefix its name is generated from, else
    /// the empty name.
    pub fn name_any(&self) -> (name: String)
        ensures
            name@ == self.spec_name_any(),
    {
        match &self.metadata.name {
            Some(name) => name.clone(),
            None => match &self.metadata.generate_name {
                Some(prefix) => prefix.clone(),
                None => String::new(),
            },
        }
    }

    /// The pod's namespace, or `default` where it names none.
    pub fn namespace(&self) -> (namespace: String)
        ensures
            namespace@ == self.spec_namespace(),
    {
        match &self.metadata.namespace {
            Some(namespace) => namespace.clone(),
            None => String::from_str("default"),
        }
    }
}

/// Looks a label up by its key.
pub fn find_label(labels: &Vec<(String, String)>, key: &String) -> (value: Option<String>)
    ensures
        match value {
            Some(text) => label_value(labels@, key@) == Some(text@),
            None => label_value(labels@, key@).is_none(),
        },
{
    let mut index: usize = labels.len();
    assert(labels@.take(index as int) =~= labels@);
    while index > 0
        invariant
            index <= labels.len(),
            label_value(labels@, key@) == label_value(labels@.take(index as int), key@),
        decreases index,
    {
        proof {
            assert(labels@.take(index as int).drop_last() =~= labels@.take(index as int - 1));
        }
        index -= 1;
        if labels[index].0 == *key {
            return Some(labels[index].1.clone());
        }
    }
    None
}

/// The job's name together with the containers reported for its pod.
#[derive(Debug)]
pub struct JobPod {
    pub name: String,
    pub statuses: Vec<ContainerStatus>,
}

impl JobPod {
    /// Reads the job's name and the reported containers off a pod. A pod
    /// without a status, or without container statuses, has no containers yet.
    pub fn from(pod: &Pod) -> (outcome: Result<JobPod, ClassifyError>)
        ensures
            match outcome {
                Ok(job_pod) => pod.job() == Ok::<Seq<char>, ClassifyError>(job_pod.name@)
                    && status_views(job_pod.statuses@) == pod.reported(),
                Err(error) => pod.job() == Err::<Seq<char>, ClassifyError>(error),
            },
    {
        let name = match pod.job_name() {
            Ok(name) => name,
            Err(error) => { return Err(error); },
        };
        let statuses = match &pod.status {
            Some(status) => match &status.container_statuses {
                Some(statuses) => copy_statuses(statuses),
                None => Vec::new(),
            },
            None => Vec::new(),
        };
        proof {
            assert(status_views(Seq::<ContainerStatus>::empty()) =~= Seq::empty());
        }
        Ok(JobPod { name, statuses })
    }

    /// The sidecars to shut down now: none while nothing is reported or the
    /// main container has not terminated, every live sidecar afterwards.
    pub fn sidecars(&self) -> (outcome: Result<Vec<ContainerStatus>, ClassifyError>)
        ensures
            match outcome {
                Ok(sidecars) => roster_of(status_views(self.statuses@), self.name@) == Ok::<
                    Seq<ContainerStatusView>,
                    ClassifyError,
                >(status_views(sidecars@)),
                Err(error) => roster_of(status_views(self.statuses@), self.name@) == Err::<
                    Seq<ContainerStatusView>,
                    ClassifyError,
                >(error),
            },
    {
        proof {
            assert(status_views(Seq::<ContainerStatus>::empty()) =~= Seq::empty());
        }
        if self.statuses.len() == 0 {
            return Ok(Vec::new());
        }
        let main = match self.main_container() {
            Ok(main) => main,
            Err(error) => { return Err(error); },
        };
        if !main.is_terminated() {
            return Ok(Vec::new());
        }
        Ok(self.running_sidecars())
    }

    /// The live sidecars of the pod, whatever the main container does.
    pub fn running_sidecars(&self) -> (sidecars: Vec<ContainerStatus>)
        ensures
            status_views(sidecars@) == live_sidecars(status_views(self.statuses@), self.name@),
    {
        let ghost job = self.name@;
        let ghost keep = |status: ContainerStatusView| live_sidecar(status, job);
        let mut sidecars: Vec<ContainerStatus> = Vec::new();
        let mut index: usize = 0;
        proof {
            assert(self.statuses@.take(0) =~= Seq::empty());
            assert(status_views(self.statuses@.take(0)) =~= Seq::empty());
            assert(status_views(sidecars@) =~= Seq::empty());
            reveal(Seq::filter);
        }
        while index < self.statuses.len()
            invariant
                index <= self.statuses.len(),
                job == self.name@,
                keep == |status: ContainerStatusView| live_sidecar(status, job),
                status_views(sidecars@) == status_views(self.statuses@.take(index as int)).filter(
                    keep,
                ),
            decreases self.statuses.len() - index,
        {
            let status = &self.statuses[index];
            let ghost before = status_views(self.statuses@.take(index as int));
            let ghost kept = status_views(sidecars@);
            proof {
                assert(self.statuses@.take(index as int + 1) =~= self.statuses@.take(
                    index as int,
                ).push(*status));
                assert(status_views(self.statuses@.take(index as int + 1)) =~= before.push(
                    status@,
                ));
                before.lemma_filter_push(status@, keep);
            }
            if status.name != self.name && !status.is_terminated() {
                sidecars.push(status.clone());
                proof {
                    assert(status_views(sidecars@) =~= kept.push(status@));
                }
            }
            index += 1;
        }
        proof {
            assert(self.statuses@.take(index as int) =~= self.statuses@);
        }
        sidecars
    }

    /// The first container named like the job.
    pub fn main_container(&self) -> (outcome: Result<ContainerStatus, ClassifyError>)
        ensures
            match outcome {
                Ok(main) => match main_position(status_views(self.statuses@), self.name@) {
                    Some(position) => main@ == status_views(self.statuses@)[position],
                    None => false,
                },
                Err(error) => error == ClassifyError::MainContainerNotFound && main_position(
                    status_views(self.statuses@),
                    self.name@,
                ).is_none(),
            },
    {
        let ghost views = status_views(self.statuses@);
        let mut index: usize = 0;
        proof {
            assert(views.skip(0) =~= views);
        }
        while index < self.statuses.len()
            invariant
                index <= self.statuses.len(),
                views == status_views(self.statuses@),
                match main_position(views.skip(index as int), self.name@) {
                    Some(position) => main_position(views, self.name@) == Some(position + index),
                    None => main_position(views, self.name@).is_none(),
                },
            decreases self.statuses.len() - index,
        {
            proof {
                assert(views.skip(index as int).drop_first() =~= views.skip(index as int + 1));
            }
            if self.statuses[index].name == self.name {
                return Ok(self.statuses[index].clone());
            }
            index += 1;
        }
        Err(ClassifyError::MainContainerNotFound)
    }
}

/// Copies the reported containers.
fn copy_statuses(statuses: &Vec<ContainerStatus>) -> (copy: Vec<ContainerStatus>)
    ensures
        status_views(copy@) == status_views(statuses@),
{
    let mut copy: Vec<ContainerStatus> = Vec::new();
    let mut index: usize = 0;
    while index < statuses.len()
        invariant
            index <= statuses.len(),
            copy.len() == index,
            forall|k: int| 0 <= k < index ==> copy@[k]@ == statuses@[k]@,
        decreases statuses.len() - index,
    {
        copy.push(statuses[index].clone());
        index += 1;
    }
    proof {
        assert(status_views(copy@) =~= status_views(statuses@));
    }
    copy
}

/// Classifies a pod: which of its sidecars must be shut down now.
///
/// The job's name is the value of the `app` label, and the main container
/// is the first one of that name. Nothing is to be done while no container
/// is reported or the main container has not terminated. Once it has, every
/// other container that has not terminated is listed, in the order reported.
pub fn classify(pod: &Pod) -> (outcome: Result<Vec<ContainerStatus>, ClassifyError>)
    ensures
        match outcome {
            Ok(sidecars) => pod.roster() == Ok::<Seq<ContainerStatusView>, ClassifyError>(
                status_views(sidecars@),
            ),
            Err(error) => pod.roster() == Err::<Seq<ContainerStatusView>, ClassifyError>(error),
        },
{
    match JobPod::from(pod) {
        Ok(job_pod) => job_pod.sidecars(),
        Err(error) => Err(error),
    }
}

/// What the controller asks of a pod.
pub trait Sidecars {
    /// The sidecars to shut down, as a plain value.
    spec fn sidecar_roster(&self) -> Result<Seq<ContainerStatusView>, ClassifyError>;

    /// The job's name, as a plain value.
    spec fn job_identity(&self) -> Result<Seq<char>, ClassifyError>;

    /// Every live container but the main one, once the main one has terminated.
    fn sidecars(&self) -> (outcome: Result<Vec<ContainerStatus>, ClassifyError>)
        ensures
            match outcome {
                Ok(sidecars) => self.sidecar_roster() == Ok::<
                    Seq<ContainerStatusView>,
                    ClassifyError,
                >(status_views(sidecars@)),
                Err(error) => self.sidecar_roster() == Err::<
                    Seq<ContainerStatusView>,
                    ClassifyError,
                >(error),
            },
    ;

    /// The value of the `app` label.
    fn job_name(&self) -> (outcome: Result<String, ClassifyError>)
        ensures
            match outcome {
                Ok(name) => self.job_identity() == Ok::<Seq<char>, ClassifyError>(name@),
                Err(error) => self.job_identity() == Err::<Seq<char>, ClassifyError>(error),
            },
    ;
}

impl Sidecars for Pod {
    open spec fn sidecar_roster(&self) -> Result<Seq<ContainerStatusView>, ClassifyError> {
        self.roster()
    }

    open spec fn job_identity(&self) -> Result<Seq<char>, ClassifyError> {
        self.job()
    }

    fn sidecars(&self) -> (outcome: Result<Vec<ContainerStatus>, ClassifyError>) {
        classify(self)
    }

    fn job_name(&self) -> (outcome: Result<String, ClassifyError>) {
        match &self.metadata.labels {
            None => Err(ClassifyError::NoLabels),
            Some(labels) => {
                let key = String::from_str("app");
                match find_label(labels, &key) {
                    None => Err(ClassifyError::MissingLabel),
                    Some(name) => Ok(name),
                }
            },
        }
    }
}

/// A pod that names its job has nothing to shut down while it reports no
/// container, or while its main container has not terminated.
pub proof fn lemma_idle_pod_has_empty_roster(pod: Pod)
    requires
        pod.job().is_ok(),
        pod.reported().len() == 0 || (main_position(pod.reported(), pod.job().unwrap())
            matches Some(position) && !pod.reported()[position].terminated()),
    ensures
        pod.roster() == Ok::<Seq<ContainerStatusView>, ClassifyError>(Seq::empty()),
{
}

/// Once the main container of a pod has terminated, the roster holds
/// every reported container that is neither the main one nor terminated,
/// in the order reported, and nothing else.
pub proof fn lemma_finished_pod_lists_live_sidecars(pod: Pod)
    requires
        pod.job().is_ok(),
        main_position(pod.reported(), pod.job().unwrap()) matches Some(position)
            && pod.reported()[position].terminated(),
    ensures
        pod.roster() == Ok::<Seq<ContainerStatusView>, ClassifyError>(
            live_sidecars(pod.reported(), pod.job().unwrap()),
        ),
        forall|status: ContainerStatusView|
            pod.roster().unwrap().contains(status) <==> pod.reported().contains(status)
                && status.name != pod.job().unwrap() && !status.terminated(),
{
    let job = pod.job().unwrap();
    let reported = pod.reported();
    let keep = |status: ContainerStatusView| live_sidecar(status, job);
    lemma_main_position_in_range(reported, job);
    assert forall|status: ContainerStatusView|
        reported.filter(keep).contains(status) <==> reported.contains(status) && status.name
            != job && !status.terminated() by {
        if reported.filter(keep).contains(status) {
            reported.lemma_filter_contains_rev(keep, status);
        }
        if reported.contains(status) && keep(status) {
            let at = choose|at: int| 0 <= at < reported.len() && reported[at] == status;
            reported.lemma_filter_contains(keep, at);
        }
    }
}

/// The main container, where there is one, is a reported container of the
/// job's name, and the first such.
pub proof fn lemma_main_position_in_range(statuses: Seq<ContainerStatusView>, job: Seq<char>)
    ensures
        match main_position(statuses, job) {
            Some(position) => 0 <= position < statuses.len() && statuses[position].name == job
                && forall|earlier: int|
                0 <= earlier < position ==> statuses[earlier].name != job,
            None => forall|at: int| 0 <= at < statuses.len() ==> statuses[at].name != job,
        },
    decreases statuses.len(),
{
    if statuses.len() > 0 && statuses[0].name != job {
        lemma_main_position_in_range(statuses.drop_first(), job);
        match main_position(statuses.drop_first(), job) {
            Some(position) => {
                assert forall|earlier: int| 0 <= earlier < position + 1 implies statuses[earlier].name
                    != job by {
                    if earlier > 0 {
                        assert(statuses[earlier] == statuses.drop_first()[earlier - 1]);
                    }
                }
            },
            None => {
                assert forall|at: int| 0 <= at < statuses.len() implies statuses[at].name
                    != job by {
                    if at > 0 {
                        assert(statuses[at] == statuses.drop_first()[at - 1]);
                    }
                }
            },
        }
    }
}

/// A pod whose labels do not name a job cannot be classified, and the
/// failure says which of the two is missing: the labels, or the job's name
/// among them.
pub proof fn lemma_unlabelled_pod_is_refused(pod: Pod)
    requires
        pod.metadata.labels matches Some(labels) ==> label_value(labels@, job_label()).is_none(),
    ensures
        pod.metadata.labels.is_none() ==> pod.roster() == Err::<
            Seq<ContainerStatusView>,
            ClassifyError,
        >(ClassifyError::NoLabels),
        pod.metadata.labels.is_some() ==> pod.roster() == Err::<
            Seq<ContainerStatusView>,
            ClassifyError,
        >(ClassifyError::MissingLabel),
{
}

} // verus!
