//! The steps of installing an instance: each function takes what the cluster
//! answered to the step before and says what to do next.

use vstd::prelude::*;
use crate::conditions::{update_condition_vec_at, updated_conditions};
use crate::controller::{
    classified, controller_uid, reconciliation_state, Action, AppInstanceLike, Context,
    JobOutcome, ReconciliationState, handle_resource_exists, JOB_FAILURE_REQUEUE_SECONDS,
};
use crate::credentials::{
    docker_config_json, is_docker_config_of, is_pull_secret_of, is_registry_auth,
    pull_secret_is_named, pull_secret_name, registry_auth,
};
use crate::docker_config::DockerConfig;
use crate::jobs::{is_job_of};
use crate::logs::{
    failed_container, log_plan, pod_statuses, recorded, started_containers, summed_up,
    CapturedLogs,
};
use crate::objects::{Job, JobState, Pod, PodView, Secret};
use crate::oci::{PackageConfig, RegistryAuth};
use crate::rbac::{ClusterRoles, NamespacedRoles};
use crate::resources::{AppInstanceStatus, StatusView, Time};
use crate::text::str_eq;
use crate::{Error, KubeError};

verus! {

/// One log to fetch: that of a container of a pod. `failed` marks the container
/// whose log is summed up as the reason of the failure.
#[derive(Clone, Debug)]
pub struct LogSource {
    pub pod: String,
    pub container: String,
    pub failed: bool,
}

/// A log source as a mathematical value.
pub struct LogSourceView {
    pub pod: Seq<char>,
    pub container: Seq<char>,
    pub failed: bool,
}

impl View for LogSource {
    type V = LogSourceView;

    open spec fn view(&self) -> LogSourceView {
        LogSourceView {
            pod: self.pod.deep_view(),
            container: self.container.deep_view(),
            failed: self.failed,
        }
    }
}

impl DeepView for LogSource {
    type V = LogSourceView;

    open spec fn deep_view(&self) -> LogSourceView {
        self@
    }
}

/// One observation to record among the conditions of the status.
#[derive(Clone, Debug)]
pub struct ConditionUpdate {
    pub type_: String,
    pub status: String,
    pub reason: String,
    pub message: Option<String>,
}

/// A condition update as a mathematical value.
pub struct ConditionUpdateView {
    pub type_: Seq<char>,
    pub status: Seq<char>,
    pub reason: Seq<char>,
    pub message: Option<Seq<char>>,
}

impl View for ConditionUpdate {
    type V = ConditionUpdateView;

    open spec fn view(&self) -> ConditionUpdateView {
        ConditionUpdateView {
            type_: self.type_.deep_view(),
            status: self.status.deep_view(),
            reason: self.reason.deep_view(),
            message: self.message.deep_view(),
        }
    }
}

impl DeepView for ConditionUpdate {
    type V = ConditionUpdateView;

    open spec fn deep_view(&self) -> ConditionUpdateView {
        self@
    }
}

/// One change to make to the status of an instance.
#[derive(Clone, Debug)]
pub enum StatusChange {
    /// Put down the logs of the last job, by container.
    LastLogs(Vec<(String, String)>),
    /// Record an observation among the conditions.
    Condition(ConditionUpdate),
}

/// A status change as a mathematical value.
pub enum StatusChangeView {
    LastLogs(Seq<(Seq<char>, Seq<char>)>),
    Condition(ConditionUpdateView),
}

impl View for StatusChange {
    type V = StatusChangeView;

    open spec fn view(&self) -> StatusChangeView {
        match self {
            StatusChange::LastLogs(logs) => StatusChangeView::LastLogs(logs.deep_view()),
            StatusChange::Condition(update) => StatusChangeView::Condition(update@),
        }
    }
}

impl DeepView for StatusChange {
    type V = StatusChangeView;

    open spec fn deep_view(&self) -> StatusChangeView {
        self@
    }
}

/// How a reconciliation ends once the status is up to date.
#[derive(Debug)]
pub enum Finish {
    /// With this result.
    Return(Result<Action, Error>),
    /// With the deletion of the ended job, so that a later reconciliation can
    /// create it anew, and then with this action.
    DeleteJob(Action),
}

/// What is left to do before a reconciliation ends: status changes, of which
/// the last one listed comes first, and the ending.
#[derive(Debug)]
pub struct Agenda {
    pub pending: Vec<StatusChange>,
    pub finish: Finish,
}

/// An agenda as a mathematical value.
pub struct AgendaView {
    pub pending: Seq<StatusChangeView>,
    pub finish: Finish,
}

impl View for Agenda {
    type V = AgendaView;

    open spec fn view(&self) -> AgendaView {
        AgendaView { pending: self.pending.deep_view(), finish: self.finish }
    }
}

/// The status after a change made at time `now`.
pub open spec fn changed_status(old: StatusView, change: StatusChangeView, now: Time) -> StatusView {
    match change {
        StatusChangeView::LastLogs(logs) => StatusView { last_logs: Some(logs), ..old },
        StatusChangeView::Condition(update) => StatusView {
            conditions: updated_conditions(
                old.conditions,
                update.type_,
                update.status,
                update.reason,
                update.message,
                now,
            ),
            ..old
        },
    }
}

/// Makes a change to a status at time `now`.
pub fn change_status(old: AppInstanceStatus, change: StatusChange, now: Time) -> (r:
    AppInstanceStatus)
    ensures
        r@ == changed_status(old@, change@, now),
{
    match change {
        StatusChange::LastLogs(logs) => AppInstanceStatus {
            last_logs: Some(logs),
            conditions: old.conditions,
        },
        StatusChange::Condition(update) => {
            let mut conditions = old.conditions;
            update_condition_vec_at(
                &mut conditions,
                update.type_.as_str(),
                update.status.as_str(),
                update.reason.as_str(),
                update.message,
                now,
            );
            AppInstanceStatus { last_logs: old.last_logs, conditions: conditions }
        },
    }
}

/// An observation to record.
pub open spec fn condition_change(
    type_: Seq<char>,
    status: Seq<char>,
    reason: Seq<char>,
    message: Option<Seq<char>>,
) -> StatusChangeView {
    StatusChangeView::Condition(
        ConditionUpdateView { type_: type_, status: status, reason: reason, message: message },
    )
}

/// An observation to record.
pub fn condition(type_: &str, status: &str, reason: &str, message: Option<String>) -> (r:
    StatusChange)
    ensures
        r@ == condition_change(type_@, status@, reason@, message.deep_view()),
{
    StatusChange::Condition(
        ConditionUpdate {
            type_: String::from_str(type_),
            status: String::from_str(status),
            reason: String::from_str(reason),
            message: message,
        },
    )
}

/// What a step of an installation asks for, or how the reconciliation ended.
/// Every request names the namespace to make it in.
#[derive(Debug)]
pub enum ApplyStep {
    /// The reconciliation is over.
    Done(Result<Action, Error>),
    /// Read the job of that name, if it exists.
    GetJob { namespace: String, name: String },
    /// Write the service account, the role and its binding, then the cluster
    /// role and its binding, each as a forced server-side apply, stopping at
    /// the first failure.
    ApplyRoles { namespace: String, namespaced: NamespacedRoles, cluster: ClusterRoles },
    /// Read the secret of that name.
    GetSecret { namespace: String, name: String },
    /// Decode these bytes as a docker configuration.
    DecodeDockerConfig { bytes: Vec<u8> },
    /// Fetch the configuration of the package behind the image reference.
    FetchPackageConfig { image: String, auth: RegistryAuth },
    /// Create the job.
    CreateJob { namespace: String, job: Job },
    /// List the pods that the label selector picks.
    ListPods { namespace: String, label_selector: String, outcome: JobOutcome },
    /// Fetch these logs, in this order, stopping at the first failure.
    GetLogs { namespace: String, sources: Vec<LogSource>, outcome: JobOutcome },
    /// Read the status of the instance from its carrier.
    GetStatus { namespace: String, name: String, change: StatusChange, agenda: Agenda },
    /// Write the status of the instance to its carrier.
    UpdateStatus { namespace: String, name: String, status: AppInstanceStatus, agenda: Agenda },
    /// Delete the job of that name, in the foreground.
    DeleteJob { namespace: String, name: String, action: Action },
}

/// The label selector that picks the pods of the job `job_name` under the
/// controller `uid`.
pub open spec fn pod_selector(job_name: Seq<char>, uid: Seq<char>) -> Seq<char> {
    "job-name="@ + job_name + ",controller-uid="@ + uid
}

/// The logs to fetch for one pod: those of its started containers.
pub open spec fn pod_sources(pod: PodView) -> Seq<LogSourceView> {
    started_containers(pod_statuses(pod)).map_values(
        |name: Seq<char>|
            LogSourceView {
                pod: pod.name,
                container: name,
                failed: failed_container(pod_statuses(pod)) == Some(name),
            },
    )
}

/// The logs to fetch for `pods`: pod by pod.
pub open spec fn log_sources(pods: Seq<PodView>) -> Seq<LogSourceView>
    decreases pods.len(),
{
    if pods.len() == 0 {
        Seq::empty()
    } else {
        log_sources(pods.drop_last()) + pod_sources(pods.last())
    }
}

/// What is captured once the first `n` logs have come in: a log that never
/// came counts for nothing.
pub open spec fn captured_logs(sources: Seq<LogSourceView>, logs: Seq<Seq<char>>, n: int) -> (
    Seq<(Seq<char>, Seq<char>)>,
    Seq<char>,
)
    decreases n,
{
    if n <= 0 || n > sources.len() || n > logs.len() {
        (Seq::empty(), Seq::empty())
    } else {
        let before = captured_logs(sources, logs, n - 1);
        (
            recorded(before.0, sources[n - 1].container, logs[n - 1]),
            summed_up(
                before.1,
                sources[n - 1].container,
                if sources[n - 1].failed {
                    Some(sources[n - 1].container)
                } else {
                    None
                },
                logs[n - 1],
            ),
        )
    }
}

/// The smaller of two lengths.
pub open spec fn shorter(a: nat, b: nat) -> int {
    if a <= b {
        a as int
    } else {
        b as int
    }
}

/// What is left to do once the logs of a job that ended with `outcome` are
/// captured: put them down, then report the outcome in both conditions, then
/// delete the job.
pub open spec fn outcome_agenda(
    outcome: JobOutcome,
    logs: Seq<(Seq<char>, Seq<char>)>,
    summary: Seq<char>,
) -> AgendaView {
    match outcome {
        JobOutcome::Success => AgendaView {
            pending: seq![
                condition_change("Ready"@, "True"@, "JobCompletedSuccessfully"@, None),
                condition_change("Reconcilier"@, "True"@, "Succeeded"@, None),
                StatusChangeView::LastLogs(logs),
            ],
            finish: Finish::DeleteJob(Action::AwaitChange),
        },
        JobOutcome::Failure => AgendaView {
            pending: seq![
                condition_change("Ready"@, "False"@, "JobFailed"@, Some(summary)),
                condition_change("Reconcilier"@, "True"@, "Failed"@, None),
                StatusChangeView::LastLogs(logs),
            ],
            finish: Finish::DeleteJob(Action::Requeue(JOB_FAILURE_REQUEUE_SECONDS)),
        },
    }
}

/// What is left to do once the install job is created: say that the
/// templates are being expanded, and wait for the job.
pub open spec fn launched_agenda() -> AgendaView {
    AgendaView {
        pending: seq![condition_change("Reconcilier"@, "False"@, "ExpandingTemplate"@, None)],
        finish: Finish::Return(Ok(Action::AwaitChange)),
    }
}

/// What is left to do once the launch has failed with `err`: report the
/// failure in both conditions, the reason in the second, and end with `err`.
pub open spec fn launch_failure_agenda(err: Error) -> AgendaView {
    AgendaView {
        pending: seq![
            condition_change(
                "Ready"@,
                "False"@,
                "Failed"@,
                Some("Cannot launch installation job: "@ + err.message_spec()),
            ),
            condition_change("Reconcilier"@, "False"@, "Failed"@, None),
        ],
        finish: Finish::Return(Err(err)),
    }
}

impl AppInstanceLike {
    /// The namespace of the instance, if it has one.
    pub open spec fn namespace_spec(&self) -> Option<Seq<char>> {
        self.instance_spec().metadata.namespace.deep_view()
    }

    /// True when `r` is the step that takes up `agenda`: the next status
    /// change, which starts with reading the status, or, when none is left,
    /// the ending. Both a status change and the deletion of the job need the
    /// instance's namespace.
    pub open spec fn takes_up(&self, agenda: AgendaView, r: ApplyStep) -> bool {
        if agenda.pending.len() > 0 {
            match self.namespace_spec() {
                None => r matches ApplyStep::Done(Err(Error::NamespaceRequired)),
                Some(ns) => r matches ApplyStep::GetStatus { namespace, name, change, agenda: rest }
                    && namespace@ == ns && name@ == self.name_any_spec() && change@
                    == agenda.pending.last() && rest@ == (AgendaView {
                    pending: agenda.pending.drop_last(),
                    finish: agenda.finish,
                }),
            }
        } else {
            match agenda.finish {
                Finish::Return(result) => r == ApplyStep::Done(result),
                Finish::DeleteJob(action) => match self.namespace_spec() {
                    None => r matches ApplyStep::Done(Err(Error::NamespaceRequired)),
                    Some(ns) => r matches ApplyStep::DeleteJob { namespace, name, action: a }
                        && namespace@ == ns && name@ == self.job_name_spec("apply"@) && a
                        == action,
                },
            }
        }
    }

    /// True when `r` is the step that follows a launch that failed with
    /// `err`.
    pub open spec fn gives_up_launch(&self, err: Error, r: ApplyStep) -> bool {
        self.takes_up(launch_failure_agenda(err), r)
    }

    /// Takes up an agenda.
    pub fn take_up(&self, agenda: Agenda) -> (r: ApplyStep)
        ensures
            self.takes_up(agenda@, r),
    {
        let mut agenda = agenda;
        let ghost before = agenda@;
        if agenda.pending.len() > 0 {
            match self.instance().namespace() {
                None => ApplyStep::Done(Err(Error::NamespaceRequired)),
                Some(ns) => {
                    let change = agenda.pending.pop().unwrap();
                    proof {
                        assert(before.pending.last() == change@);
                        assert(agenda.pending.deep_view() =~= before.pending.drop_last());
                    }
                    ApplyStep::GetStatus {
                        namespace: ns,
                        name: self.name_any(),
                        change: change,
                        agenda: agenda,
                    }
                },
            }
        } else {
            match agenda.finish {
                Finish::Return(result) => ApplyStep::Done(result),
                Finish::DeleteJob(action) => match self.instance().namespace() {
                    None => ApplyStep::Done(Err(Error::NamespaceRequired)),
                    Some(ns) => ApplyStep::DeleteJob {
                        namespace: ns,
                        name: self.job_name_for("apply"),
                        action: action,
                    },
                },
            }
        }
    }

    /// The step that follows a failed launch.
    pub fn give_up_launch(&self, err: Error) -> (r: ApplyStep)
        ensures
            self.gives_up_launch(err, r),
    {
        let message = String::from_str("Cannot launch installation job: ").concat(
            err.to_string().as_str(),
        );
        let mut pending: Vec<StatusChange> = Vec::new();
        let ready = condition("Ready", "False", "Failed", Some(message));
        let reconcilier = condition("Reconcilier", "False", "Failed", None);
        pending.push(ready);
        pending.push(reconcilier);
        proof {
            assert(pending.deep_view() =~= seq![ready@, reconcilier@]);
        }
        self.take_up(Agenda { pending: pending, finish: Finish::Return(Err(err)) })
    }

    /// True when `r` is the first step of an installation: reading the
    /// instance's install job.
    pub open spec fn is_start_of_apply(&self, r: ApplyStep) -> bool {
        r matches ApplyStep::GetJob { namespace, name } && namespace@
            == self.instance_spec().metadata.namespace_any_spec() && name@ == self.job_name_spec(
            "apply"@,
        )
    }

    /// Starts an installation.
    pub fn reconcile_apply(&self) -> (r: ApplyStep)
        ensures
            self.is_start_of_apply(r),
    {
        ApplyStep::GetJob {
            namespace: self.instance().namespace_any(),
            name: self.job_name_for("apply"),
        }
    }

    /// True when `r` is the step that follows the answer `response` to the
    /// reading of the install job: without a job the launch begins with the
    /// roles; a running job is left alone; of an ended job the pods are
    /// listed, for their logs.
    pub open spec fn follows_job(
        &self,
        response: Result<Option<JobState>, Error>,
        r: ApplyStep,
    ) -> bool {
        match response {
            Err(e) => r == ApplyStep::Done(Err(e)),
            Ok(None) => r matches ApplyStep::ApplyRoles { namespace, namespaced, cluster }
                && namespace@ == self.instance_spec().metadata.namespace_any_spec()
                && namespaced.service_account@ == self.service_account_spec() && namespaced.role@
                == self.role_spec() && namespaced.role_binding@ == self.role_binding_spec()
                && cluster.role@ == self.cluster_role_spec() && cluster.role_binding@
                == self.cluster_role_binding_spec(),
            Ok(Some(job)) => match classified(job.conditions.deep_view()) {
                None => r == ApplyStep::Done(Ok(Action::AwaitChange)),
                Some(outcome) => match self.namespace_spec() {
                    None => r matches ApplyStep::Done(Err(Error::NamespaceRequired)),
                    Some(ns) => r matches ApplyStep::ListPods {
                        namespace,
                        label_selector,
                        outcome: o,
                    } && namespace@ == ns && label_selector@ == pod_selector(
                        self.job_name_spec("apply"@),
                        controller_uid(job.labels.deep_view())->0,
                    ) && o == outcome,
                },
            },
        }
    }

    /// The step after the reading of the install job. A job must carry the
    /// label that names its controller.
    pub fn after_get_job(&self, response: Result<Option<JobState>, Error>) -> (r: ApplyStep)
        requires
            response matches Ok(Some(job)) ==> controller_uid(job.labels.deep_view()) is Some,
        ensures
            self.follows_job(response, r),
    {
        let job = match response {
            Err(e) => {
                return ApplyStep::Done(Err(e));
            },
            Ok(job) => job,
        };
        let state = reconciliation_state(job.as_ref());
        match state {
            ReconciliationState::Idle => ApplyStep::ApplyRoles {
                namespace: self.instance().namespace_any(),
                namespaced: self.setup_namespaced_roles(),
                cluster: self.setup_cluster_roles(),
            },
            ReconciliationState::Executing => ApplyStep::Done(Ok(Action::AwaitChange)),
            ReconciliationState::JobTerminated(job_uid, outcome) => {
                match self.instance().namespace() {
                    None => ApplyStep::Done(Err(Error::NamespaceRequired)),
                    Some(ns) => ApplyStep::ListPods {
                        namespace: ns,
                        label_selector: String::from_str("job-name=").concat(
                            self.job_name_for("apply").as_str(),
                        ).concat(",controller-uid=").concat(job_uid.as_str()),
                        outcome: outcome,
                    },
                }
            },
        }
    }

    /// True when `r` is the request for the package's configuration, made
    /// with `auth`.
    pub open spec fn fetches_package_config(&self, auth: RegistryAuth, r: ApplyStep) -> bool {
        r matches ApplyStep::FetchPackageConfig { image, auth: a } && image@
            == self.instance_spec().spec.package.image@ && a == auth
    }

    /// True when `r` is the step that follows the naming of the pull secret
    /// by `secret`: without one the package is fetched anonymously, with one
    /// the secret is read first.
    pub open spec fn follows_pull_secret(
        &self,
        secret: Result<Option<String>, Error>,
        r: ApplyStep,
    ) -> bool {
        match secret {
            Ok(None) => self.fetches_package_config(RegistryAuth::Anonymous, r),
            Ok(Some(secret_name)) => r matches ApplyStep::GetSecret { namespace, name }
                && Some(namespace@) == self.namespace_spec() && name == secret_name,
            Err(e) => self.gives_up_launch(e, r),
        }
    }

    /// True when `r` is the step that follows the answer `response` to the
    /// writing of the roles.
    pub open spec fn follows_roles(&self, response: Result<(), Error>, r: ApplyStep) -> bool {
        match response {
            Err(e) => self.gives_up_launch(e, r),
            Ok(_) => exists|secret: Result<Option<String>, Error>|
                is_pull_secret_of(self.instance_spec(), secret) && #[trigger] self.follows_pull_secret(
                    secret,
                    r,
                ),
        }
    }

    /// The step after the writing of the roles: the credentials for the
    /// package's registry are looked up. The pull secret that the instance
    /// names, if it names one, must have a name.
    pub fn after_apply_roles(&self, response: Result<(), Error>) -> (r: ApplyStep)
        requires
            response is Ok ==> pull_secret_is_named(self.instance_spec()),
        ensures
            self.follows_roles(response, r),
    {
        match response {
            Err(e) => self.give_up_launch(e),
            Ok(_) => {
                let secret = pull_secret_name(self.instance());
                let ghost witness = secret;
                let r = match secret {
                    Ok(None) => ApplyStep::FetchPackageConfig {
                        image: self.instance().spec.package.image.clone(),
                        auth: RegistryAuth::Anonymous,
                    },
                    Ok(Some(name)) => ApplyStep::GetSecret {
                        namespace: self.instance().namespace_any(),
                        name: name,
                    },
                    Err(e) => self.give_up_launch(e),
                };
                proof {
                    assert(self.follows_pull_secret(witness, r));
                }
                r
            },
        }
    }

    /// True when `r` is the step that follows the reading of the docker
    /// configuration out of the pull secret, which came to `bytes`.
    pub open spec fn follows_docker_config_json(
        &self,
        bytes: Result<Vec<u8>, Error>,
        r: ApplyStep,
    ) -> bool {
        match bytes {
            Ok(b) => r matches ApplyStep::DecodeDockerConfig { bytes: c } && c@ == b@,
            Err(e) => self.gives_up_launch(e, r),
        }
    }

    /// True when `r` is the step that follows the answer `response` to the
    /// reading of the pull secret.
    pub open spec fn follows_secret(&self, response: Result<Secret, Error>, r: ApplyStep) -> bool {
        match response {
            Err(e) => self.gives_up_launch(e, r),
            Ok(secret) => exists|bytes: Result<Vec<u8>, Error>|
                is_docker_config_of(secret, bytes) && #[trigger] self.follows_docker_config_json(
                    bytes,
                    r,
                ),
        }
    }

    /// The step after the reading of the pull secret: its docker
    /// configuration is handed out for decoding.
    pub fn after_get_secret(&self, response: Result<Secret, Error>) -> (r: ApplyStep)
        ensures
            self.follows_secret(response, r),
    {
        match response {
            Err(e) => self.give_up_launch(e),
            Ok(secret) => {
                let bytes = docker_config_json(&secret);
                let ghost witness = bytes;
                let r = match bytes {
                    Ok(b) => ApplyStep::DecodeDockerConfig { bytes: b },
                    Err(e) => self.give_up_launch(e),
                };
                proof {
                    assert(self.follows_docker_config_json(witness, r));
                }
                r
            },
        }
    }

    /// True when `r` is the step that follows the choice `auth` of how to
    /// authenticate to the registry.
    pub open spec fn follows_registry_auth(
        &self,
        auth: Result<RegistryAuth, Error>,
        r: ApplyStep,
    ) -> bool {
        match auth {
            Ok(a) => self.fetches_package_config(a, r),
            Err(e) => self.gives_up_launch(e, r),
        }
    }

    /// True when `r` is the step that follows the outcome `response` of
    /// decoding the docker configuration, which is the configuration or the
    /// decoder's complaint.
    pub open spec fn follows_docker_config(
        &self,
        response: Result<DockerConfig, String>,
        r: ApplyStep,
    ) -> bool {
        match response {
            Err(complaint) => self.gives_up_launch(
                Error::DecodeDockerConfig(crate::docker_config::Error::Deserializing(complaint)),
                r,
            ),
            Ok(docker_config) => exists|auth: Result<RegistryAuth, Error>|
                is_registry_auth(self.instance_spec().spec.package.image@, docker_config, auth)
                    && #[trigger] self.follows_registry_auth(auth, r),
        }
    }

    /// The step after the decoding of the docker configuration: the package's
    /// configuration is fetched with the credentials for its registry.
    pub fn after_decode_docker_config(&self, response: Result<DockerConfig, String>) -> (r:
        ApplyStep)
        ensures
            self.follows_docker_config(response, r),
    {
        match response {
            Err(complaint) => self.give_up_launch(
                Error::DecodeDockerConfig(crate::docker_config::Error::Deserializing(complaint)),
            ),
            Ok(docker_config) => {
                let auth = registry_auth(self.instance(), &docker_config);
                let ghost witness = auth;
                let r = match auth {
                    Ok(a) => ApplyStep::FetchPackageConfig {
                        image: self.instance().spec.package.image.clone(),
                        auth: a,
                    },
                    Err(e) => self.give_up_launch(e),
                };
                proof {
                    assert(self.follows_registry_auth(witness, r));
                }
                r
            },
        }
    }

    /// True when `r` is the step that follows the building of the install
    /// job, which came to `job`.
    pub open spec fn follows_job_built(&self, job: Result<Job, Error>, r: ApplyStep) -> bool {
        match job {
            Ok(j) => r matches ApplyStep::CreateJob { namespace, job: k } && Some(namespace@)
                == self.namespace_spec() && k@ == j@,
            Err(e) => self.gives_up_launch(e, r),
        }
    }

    /// True when `r` is the step that follows the answer `response` to the
    /// fetching of the package's configuration: the install job is created,
    /// with the `kubecfg` image in the version that the package asks for.
    pub open spec fn follows_package_config(
        &self,
        ctx: &Context,
        response: Result<PackageConfig, Error>,
        r: ApplyStep,
    ) -> bool {
        match response {
            Err(e) => self.gives_up_launch(e, r),
            Ok(config) => match config.pack {
                None => self.gives_up_launch(
                    Error::OCI(crate::oci::Error::MissingMetadataKeyPack),
                    r,
                ),
                Some(Err(complaint)) => exists|e: Error|
                    (e matches Error::OCI(crate::oci::Error::DecodeKubecfgPackageMetadata(m))
                        && m@ == complaint@) && #[trigger] self.gives_up_launch(e, r),
                Some(Ok(metadata)) => exists|job: Result<Job, Error>|
                    is_job_of(
                        self.instance_spec(),
                        self.apply_job_spec(ctx, ctx.kubecfg_image@ + ":"@ + metadata.version@),
                        job,
                    ) && #[trigger] self.follows_job_built(job, r),
            },
        }
    }

    /// The step after the fetching of the package's configuration.
    pub fn after_fetch_package_config(
        &self,
        ctx: &Context,
        response: Result<PackageConfig, Error>,
    ) -> (r: ApplyStep)
        ensures
            self.follows_package_config(ctx, response, r),
    {
        match response {
            Err(e) => self.give_up_launch(e),
            Ok(config) => match config.versioned_kubecfg_image(ctx.kubecfg_image.as_str()) {
                Err(e) => {
                    let err = Error::OCI(e);
                    let ghost witness = err;
                    let r = self.give_up_launch(err);
                    proof {
                        assert(self.gives_up_launch(witness, r));
                    }
                    r
                },
                Ok(kubecfg_image) => {
                    let job = self.create_job(kubecfg_image, ctx);
                    let ghost witness = job;
                    let r = match job {
                        Ok(j) => ApplyStep::CreateJob {
                            namespace: self.instance().namespace_any(),
                            job: j,
                        },
                        Err(e) => self.give_up_launch(e),
                    };
                    proof {
                        assert(self.follows_job_built(witness, r));
                    }
                    r
                },
            },
        }
    }

    /// True when `r` is the step that follows the answer `response` to the
    /// creation of the install job. A job that exists already counts as
    /// created: an earlier reconciliation made it.
    pub open spec fn follows_job_creation(
        &self,
        response: Result<(), KubeError>,
        r: ApplyStep,
    ) -> bool {
        match response {
            Err(e) => if e.code == Some(409u16) {
                self.takes_up(launched_agenda(), r)
            } else {
                self.gives_up_launch(Error::KubeError(e), r)
            },
            Ok(_) => self.takes_up(launched_agenda(), r),
        }
    }

    /// The step after the creation of the install job.
    pub fn after_create_job(&self, response: Result<(), KubeError>) -> (r: ApplyStep)
        ensures
            self.follows_job_creation(response, r),
    {
        match handle_resource_exists(response) {
            Err(e) => self.give_up_launch(e),
            Ok(_) => {
                let mut pending: Vec<StatusChange> = Vec::new();
                let expanding = condition("Reconcilier", "False", "ExpandingTemplate", None);
                pending.push(expanding);
                proof {
                    assert(pending.deep_view() =~= seq![expanding@]);
                }
                self.take_up(
                    Agenda { pending: pending, finish: Finish::Return(Ok(Action::AwaitChange)) },
                )
            },
        }
    }

    /// True when `r` is the step that follows the answer `response` to the
    /// listing of the pods of a job that ended with `outcome`: the logs of
    /// their started containers are fetched.
    pub open spec fn follows_pods(
        &self,
        outcome: JobOutcome,
        response: Result<Vec<Pod>, Error>,
        r: ApplyStep,
    ) -> bool {
        match response {
            Err(e) => r == ApplyStep::Done(Err(e)),
            Ok(pods) => match self.namespace_spec() {
                None => r matches ApplyStep::Done(Err(Error::NamespaceRequired)),
                Some(ns) => r matches ApplyStep::GetLogs { namespace, sources, outcome: o }
                    && namespace@ == ns && sources.deep_view() == log_sources(pods.deep_view())
                    && o == outcome,
            },
        }
    }

    /// The step after the listing of the pods.
    pub fn after_list_pods(&self, outcome: JobOutcome, response: Result<Vec<Pod>, Error>) -> (r:
        ApplyStep)
        ensures
            self.follows_pods(outcome, response, r),
    {
        let pods = match response {
            Err(e) => {
                return ApplyStep::Done(Err(e));
            },
            Ok(pods) => pods,
        };
        let ns = match self.instance().namespace() {
            None => {
                return ApplyStep::Done(Err(Error::NamespaceRequired));
            },
            Some(ns) => ns,
        };
        let mut sources: Vec<LogSource> = Vec::new();
        proof {
            assert(sources.deep_view() =~= log_sources(pods.deep_view().take(0)));
        }
        let mut i: usize = 0;
        while i < pods.len()
            invariant
                i <= pods.len(),
                sources.deep_view() == log_sources(pods.deep_view().take(i as int)),
            decreases pods.len() - i,
        {
            let pod = &pods[i];
            let plan = log_plan(pod);
            let ghost so_far = sources.deep_view();
            let ghost names = started_containers(pod_statuses(pod@));
            let mut k: usize = 0;
            while k < plan.container_names.len()
                invariant
                    k <= plan.container_names.len(),
                    plan.container_names.deep_view() == names,
                    names == started_containers(pod_statuses(pod@)),
                    plan.failed_container_name.deep_view() == failed_container(
                        pod_statuses(pod@),
                    ),
                    sources.deep_view() == so_far + pod_sources(pod@).take(k as int),
                decreases plan.container_names.len() - k,
            {
                let name = &plan.container_names[k];
                let failed = match &plan.failed_container_name {
                    Some(f) => str_eq(f.as_str(), name.as_str()),
                    None => false,
                };
                let ghost before = sources.deep_view();
                let source = LogSource {
                    pod: pod.name.clone(),
                    container: name.clone(),
                    failed: failed,
                };
                sources.push(source);
                proof {
                    assert(names[k as int] == name@);
                    assert(sources.deep_view() =~= before.push(source@));
                    assert(pod_sources(pod@).take(k + 1) =~= pod_sources(pod@).take(k as int).push(
                        source@,
                    ));
                }
                k += 1;
            }
            proof {
                assert(pod_sources(pod@).take(plan.container_names.len() as int) =~= pod_sources(
                    pod@,
                ));
                let next = pods.deep_view().take(i + 1);
                assert(next.drop_last() =~= pods.deep_view().take(i as int));
                assert(next.last() == pod@);
            }
            i += 1;
        }
        proof {
            assert(pods.deep_view().take(pods.len() as int) =~= pods.deep_view());
        }
        ApplyStep::GetLogs { namespace: ns, sources: sources, outcome: outcome }
    }

    /// True when `r` is the step that follows the answer `response` to the
    /// fetching of the logs from `sources`: the status is brought up to
    /// date with the logs and with the outcome.
    pub open spec fn follows_logs(
        &self,
        outcome: JobOutcome,
        sources: Seq<LogSourceView>,
        response: Result<Vec<String>, Error>,
        r: ApplyStep,
    ) -> bool {
        match response {
            Err(e) => r == ApplyStep::Done(Err(e)),
            Ok(logs) => {
                let captured = captured_logs(
                    sources,
                    logs.deep_view(),
                    shorter(sources.len(), logs.deep_view().len()),
                );
                self.takes_up(outcome_agenda(outcome, captured.0, captured.1), r)
            },
        }
    }

    /// The step after the fetching of the logs, which come in the order of
    /// their sources.
    pub fn after_get_logs(
        &self,
        outcome: JobOutcome,
        sources: Vec<LogSource>,
        response: Result<Vec<String>, Error>,
    ) -> (r: ApplyStep)
        ensures
            self.follows_logs(outcome, sources.deep_view(), response, r),
    {
        let logs = match response {
            Err(e) => {
                return ApplyStep::Done(Err(e));
            },
            Ok(logs) => logs,
        };
        let n = if sources.len() <= logs.len() {
            sources.len()
        } else {
            logs.len()
        };
        let mut captured = CapturedLogs::new();
        let mut i: usize = 0;
        while i < n
            invariant
                i <= n,
                n <= sources.len(),
                n <= logs.len(),
                captured.per_container_logs.deep_view() == captured_logs(
                    sources.deep_view(),
                    logs.deep_view(),
                    i as int,
                ).0,
                captured.log_summary@ == captured_logs(
                    sources.deep_view(),
                    logs.deep_view(),
                    i as int,
                ).1,
            decreases n - i,
        {
            let source = &sources[i];
            let failed = if source.failed {
                Some(source.container.clone())
            } else {
                None
            };
            proof {
                assert(sources.deep_view()[i as int] == source@);
                assert(logs.deep_view()[i as int] == logs@[i as int]@);
            }
            captured.record(source.container.as_str(), &failed, logs[i].clone());
            i += 1;
        }
        let CapturedLogs { per_container_logs, log_summary } = captured;
        let mut pending: Vec<StatusChange> = Vec::new();
        let last_logs = StatusChange::LastLogs(per_container_logs);
        match outcome {
            JobOutcome::Success => {
                let ready = condition("Ready", "True", "JobCompletedSuccessfully", None);
                let reconcilier = condition("Reconcilier", "True", "Succeeded", None);
                pending.push(ready);
                pending.push(reconcilier);
                pending.push(last_logs);
                proof {
                    assert(pending.deep_view() =~= seq![ready@, reconcilier@, last_logs@]);
                }
                self.take_up(
                    Agenda { pending: pending, finish: Finish::DeleteJob(Action::AwaitChange) },
                )
            },
            JobOutcome::Failure => {
                let ready = condition("Ready", "False", "JobFailed", Some(log_summary));
                let reconcilier = condition("Reconcilier", "True", "Failed", None);
                pending.push(ready);
                pending.push(reconcilier);
                pending.push(last_logs);
                proof {
                    assert(pending.deep_view() =~= seq![ready@, reconcilier@, last_logs@]);
                }
                self.take_up(
                    Agenda {
                        pending: pending,
                        finish: Finish::DeleteJob(Action::Requeue(JOB_FAILURE_REQUEUE_SECONDS)),
                    },
                )
            },
        }
    }

    /// True when `r` is the step that follows the answer `response` to the
    /// reading of the status, at time `now`: the status is written back with
    /// `change` made to it.
    pub open spec fn follows_status(
        &self,
        change: StatusChangeView,
        agenda: AgendaView,
        response: Result<AppInstanceStatus, Error>,
        now: Time,
        r: ApplyStep,
    ) -> bool {
        match response {
            Err(e) => r == ApplyStep::Done(Err(e)),
            Ok(old) => match self.namespace_spec() {
                None => r matches ApplyStep::Done(Err(Error::NamespaceRequired)),
                Some(ns) => r matches ApplyStep::UpdateStatus {
                    namespace,
                    name,
                    status,
                    agenda: rest,
                } && namespace@ == ns && name@ == self.name_any_spec() && status@
                    == changed_status(old@, change, now) && rest@ == agenda,
            },
        }
    }

    /// The step after the reading of the status, at time `now`.
    pub fn after_get_status_at(
        &self,
        change: StatusChange,
        agenda: Agenda,
        response: Result<AppInstanceStatus, Error>,
        now: Time,
    ) -> (r: ApplyStep)
        ensures
            self.follows_status(change@, agenda@, response, now, r),
    {
        match response {
            Err(e) => ApplyStep::Done(Err(e)),
            Ok(old) => match self.instance().namespace() {
                None => ApplyStep::Done(Err(Error::NamespaceRequired)),
                Some(ns) => ApplyStep::UpdateStatus {
                    namespace: ns,
                    name: self.name_any(),
                    status: change_status(old, change, now),
                    agenda: agenda,
                },
            },
        }
    }

    /// The step after the reading of the status, which is now by the clock.
    pub fn after_get_status(
        &self,
        change: StatusChange,
        agenda: Agenda,
        response: Result<AppInstanceStatus, Error>,
    ) -> (r: ApplyStep)
        ensures
            exists|now: Time| #[trigger] self.follows_status(change@, agenda@, response, now, r),
    {
        let now = Time::now();
        self.after_get_status_at(change, agenda, response, now)
    }

    /// True when `r` is the step that follows the answer `response` to the
    /// writing of the status: the rest of the agenda is taken up.
    pub open spec fn follows_status_written(
        &self,
        agenda: AgendaView,
        response: Result<(), Error>,
        r: ApplyStep,
    ) -> bool {
        match response {
            Err(e) => r == ApplyStep::Done(Err(e)),
            Ok(_) => self.takes_up(agenda, r),
        }
    }

    /// The step after the writing of the status.
    pub fn after_update_status(&self, agenda: Agenda, response: Result<(), Error>) -> (r:
        ApplyStep)
        ensures
            self.follows_status_written(agenda@, response, r),
    {
        match response {
            Err(e) => ApplyStep::Done(Err(e)),
            Ok(_) => self.take_up(agenda),
        }
    }
}

/// True when `r` is the step that follows the answer `response` to the
/// deletion of the ended job: the reconciliation is over, with `action` if the
/// job is gone.
pub open spec fn follows_job_deletion(
    action: Action,
    response: Result<(), Error>,
    r: ApplyStep,
) -> bool {
    match response {
        Err(e) => r == ApplyStep::Done(Err(e)),
        Ok(_) => r == ApplyStep::Done(Ok(action)),
    }
}

/// The step after the deletion of the ended job.
pub fn after_delete_job(action: Action, response: Result<(), Error>) -> (r: ApplyStep)
    ensures
        follows_job_deletion(action, response, r),
{
    match response {
        Err(e) => ApplyStep::Done(Err(e)),
        Ok(_) => ApplyStep::Done(Ok(action)),
    }
}

/// True when `next` can follow `step` in an installation of `like`: it is
/// the step that follows some answer to what `step` asks for.
pub open spec fn can_follow(
    like: &AppInstanceLike,
    ctx: &Context,
    step: ApplyStep,
    next: ApplyStep,
) -> bool {
    match step {
        ApplyStep::Done(_) => false,
        ApplyStep::GetJob { .. } => exists|response: Result<Option<JobState>, Error>|
            #[trigger] like.follows_job(response, next),
        ApplyStep::ApplyRoles { .. } => exists|response: Result<(), Error>|
            #[trigger] like.follows_roles(response, next),
        ApplyStep::GetSecret { .. } => exists|response: Result<Secret, Error>|
            #[trigger] like.follows_secret(response, next),
        ApplyStep::DecodeDockerConfig { .. } => exists|response: Result<DockerConfig, String>|
            #[trigger] like.follows_docker_config(response, next),
        ApplyStep::FetchPackageConfig { .. } => exists|response: Result<PackageConfig, Error>|
            #[trigger] like.follows_package_config(ctx, response, next),
        ApplyStep::CreateJob { .. } => exists|response: Result<(), KubeError>|
            #[trigger] like.follows_job_creation(response, next),
        ApplyStep::ListPods { outcome, .. } => exists|response: Result<Vec<Pod>, Error>|
            #[trigger] like.follows_pods(outcome, response, next),
        ApplyStep::GetLogs { sources, outcome, .. } => exists|response: Result<Vec<String>, Error>|
            #[trigger] like.follows_logs(outcome, sources.deep_view(), response, next),
        ApplyStep::GetStatus { change, agenda, .. } => exists|
            response: Result<AppInstanceStatus, Error>,
            now: Time,
        | #[trigger] like.follows_status(change@, agenda@, response, now, next),
        ApplyStep::UpdateStatus { agenda, .. } => exists|response: Result<(), Error>|
            #[trigger] like.follows_status_written(agenda@, response, next),
        ApplyStep::DeleteJob { action, .. } => exists|response: Result<(), Error>|
            #[trigger] follows_job_deletion(action, response, next),
    }
}

/// True when `run` is an installation of `like` from its first step on:
/// every step but the first follows the one before.
pub open spec fn is_installation(
    like: &AppInstanceLike,
    ctx: &Context,
    run: Seq<ApplyStep>,
) -> bool {
    &&& run.len() > 0
    &&& like.is_start_of_apply(run[0])
    &&& forall|i: int| 0 <= i < run.len() - 1 ==> can_follow(like, ctx, #[trigger] run[i], run[i + 1])
}

/// True when a step belongs to the launch of the install job.
pub open spec fn launches(step: ApplyStep) -> bool {
    step is ApplyRoles || step is GetSecret || step is DecodeDockerConfig
        || step is FetchPackageConfig || step is CreateJob
}

/// How far a step is into an installation.
pub open spec fn progress(step: ApplyStep) -> int {
    match step {
        ApplyStep::GetJob { .. } => 0,
        ApplyStep::ApplyRoles { .. } => 1,
        ApplyStep::GetSecret { .. } => 2,
        ApplyStep::DecodeDockerConfig { .. } => 3,
        ApplyStep::FetchPackageConfig { .. } => 4,
        ApplyStep::CreateJob { .. } => 5,
        ApplyStep::ListPods { .. } => 1,
        ApplyStep::GetLogs { .. } => 2,
        ApplyStep::GetStatus { .. } => 6,
        ApplyStep::UpdateStatus { .. } => 6,
        ApplyStep::DeleteJob { .. } => 7,
        ApplyStep::Done(_) => 8,
    }
}

/// How many requests about the status are still to come, this one counted.
pub open spec fn status_requests_left(step: ApplyStep) -> int {
    match step {
        ApplyStep::GetStatus { agenda, .. } => 2 * (agenda@.pending.len() as int) + 2,
        ApplyStep::UpdateStatus { agenda, .. } => 2 * (agenda@.pending.len() as int) + 1,
        _ => 0,
    }
}

/// Every step of an installation goes further than the one before, or is
/// the next of fewer requests about the status: an installation comes to an
/// end.
pub proof fn lemma_installation_progresses(
    like: &AppInstanceLike,
    ctx: &Context,
    step: ApplyStep,
    next: ApplyStep,
)
    requires
        can_follow(like, ctx, step, next),
    ensures
        progress(step) < progress(next) || (progress(step) == progress(next)
            && status_requests_left(next) < status_requests_left(step)),
        launches(next) ==> (step is GetJob && next is ApplyRoles) || launches(step),
        next is ApplyRoles ==> step is GetJob && like.follows_job(Ok(None), next),
{
    match step {
        ApplyStep::GetJob { .. } => {
            let response = choose|response: Result<Option<JobState>, Error>|
                #[trigger] like.follows_job(response, next);
            assert(like.follows_job(response, next));
        },
        ApplyStep::ApplyRoles { .. } => {
            let response = choose|response: Result<(), Error>|
                #[trigger] like.follows_roles(response, next);
            if response is Ok {
                let secret = choose|secret: Result<Option<String>, Error>|
                    is_pull_secret_of(like.instance_spec(), secret)
                        && #[trigger] like.follows_pull_secret(secret, next);
            }
        },
        ApplyStep::GetSecret { .. } => {
            let response = choose|response: Result<Secret, Error>|
                #[trigger] like.follows_secret(response, next);
            if let Ok(secret) = response {
                let bytes = choose|bytes: Result<Vec<u8>, Error>|
                    is_docker_config_of(secret, bytes)
                        && #[trigger] like.follows_docker_config_json(bytes, next);
            }
        },
        ApplyStep::DecodeDockerConfig { .. } => {
            let response = choose|response: Result<DockerConfig, String>|
                #[trigger] like.follows_docker_config(response, next);
            if let Ok(docker_config) = response {
                let auth = choose|auth: Result<RegistryAuth, Error>|
                    is_registry_auth(
                        like.instance_spec().spec.package.image@,
                        docker_config,
                        auth,
                    ) && #[trigger] like.follows_registry_auth(auth, next);
            }
        },
        ApplyStep::FetchPackageConfig { .. } => {
            let response = choose|response: Result<PackageConfig, Error>|
                #[trigger] like.follows_package_config(ctx, response, next);
            if let Ok(config) = response {
                match config.pack {
                    Some(Ok(metadata)) => {
                        let job = choose|job: Result<Job, Error>|
                            is_job_of(
                                like.instance_spec(),
                                like.apply_job_spec(
                                    ctx,
                                    ctx.kubecfg_image@ + ":"@ + metadata.version@,
                                ),
                                job,
                            ) && #[trigger] like.follows_job_built(job, next);
                    },
                    Some(Err(complaint)) => {
                        let e = choose|e: Error|
                            (e matches Error::OCI(
                                crate::oci::Error::DecodeKubecfgPackageMetadata(m),
                            ) && m@ == complaint@) && #[trigger] like.gives_up_launch(e, next);
                    },
                    None => {},
                }
            }
        },
        _ => {},
    }
}

/// The steps of an installation go further and further, so that no request
/// but those about the status is made twice.
pub proof fn lemma_installation_is_ordered(
    like: &AppInstanceLike,
    ctx: &Context,
    run: Seq<ApplyStep>,
    i: int,
    j: int,
)
    requires
        is_installation(like, ctx, run),
        0 <= i <= j < run.len(),
    ensures
        progress(run[i]) <= progress(run[j]),
        i < j && progress(run[i]) == progress(run[j]) ==> status_requests_left(run[j])
            < status_requests_left(run[i]),
    decreases j - i,
{
    if i < j {
        lemma_installation_is_ordered(like, ctx, run, i, j - 1);
        assert(can_follow(like, ctx, run[j - 1], run[j - 1 + 1]));
        lemma_installation_progresses(like, ctx, run[j - 1], run[j]);
    }
}

/// An installation asks for the creation of a job once at most, and only
/// where it began by finding that the instance has no job.
pub proof fn lemma_one_job_for_an_idle_instance(
    like: &AppInstanceLike,
    ctx: &Context,
    run: Seq<ApplyStep>,
    k: int,
)
    requires
        is_installation(like, ctx, run),
        0 <= k < run.len(),
        run[k] is CreateJob,
    ensures
        forall|j: int| 0 <= j < run.len() && j != k ==> !(#[trigger] run[j] is CreateJob),
        k >= 1 && like.follows_job(Ok(None), run[1]),
{
    assert forall|j: int| 0 <= j < run.len() && j != k implies !(#[trigger] run[j]
        is CreateJob) by {
        if j < k {
            lemma_installation_is_ordered(like, ctx, run, j, k);
        } else {
            lemma_installation_is_ordered(like, ctx, run, k, j);
        }
    }
    lemma_launch_began_idle(like, ctx, run, k);
}

/// A step of the launch is reached from the finding that there is no job.
proof fn lemma_launch_began_idle(
    like: &AppInstanceLike,
    ctx: &Context,
    run: Seq<ApplyStep>,
    k: int,
)
    requires
        is_installation(like, ctx, run),
        0 <= k < run.len(),
        launches(run[k]),
    ensures
        k >= 1 && like.follows_job(Ok(None), run[1]),
    decreases k,
{
    assert(can_follow(like, ctx, run[k - 1], run[k - 1 + 1]));
    lemma_installation_progresses(like, ctx, run[k - 1], run[k]);
    if launches(run[k - 1]) {
        lemma_launch_began_idle(like, ctx, run, k - 1);
    } else {
        lemma_installation_is_ordered(like, ctx, run, 0, k - 1);
    }
}

} // verus!
