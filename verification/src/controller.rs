//! The reconciliation engine: what the operator decides at each step of
//! installing, observing and removing an application instance.

use vstd::prelude::*;
use crate::objects::{JobCondition, JobConditionView, JobState, OwnerReference, OwnerReferenceView};
use crate::resources::{
    entry_value, find_entry, AppInstance, AppInstanceLikeResources, ConfigMap,
    ObjectMeta,
};
use crate::text::{index_of, str_eq};
use crate::{Error, KubeError};

verus! {

pub const KUBECTL_IMAGE: &'static str = "registry.k8s.io/kubectl:v1.28.0";

pub const APPLIER_SERVICE_ACCOUNT: &'static str = "kubit-applier";

pub const KUBIT_FINALIZER: &'static str = "kubecfg.dev/appinstance-cleanup";

/// The key under which a config map carries an instance.
pub const APP_INSTANCE_KEY: &'static str = "app-instance";

/// Seconds before a failed reconciliation is tried again.
pub const ERROR_REQUEUE_SECONDS: u64 = 5;

/// Seconds before an installation is tried again after its job failed.
pub const JOB_FAILURE_REQUEUE_SECONDS: u64 = 60;

/// Seconds that a deletion waits for a job to go away or to complete.
pub const DELETION_TIMEOUT_SECONDS: u64 = 120;

/// What the operator was started with: the images to run and the mode to run
/// in. It is made once and handed to every step.
#[derive(Clone, Debug)]
pub struct Context {
    pub kubecfg_image: String,
    pub kubit_image: String,
    pub kubectl_image_apply: String,
    pub kubectl_image_render: String,
    pub config_map_name: Option<String>,
    pub only_paused: bool,
}

impl Context {
    pub fn apply_step_image(&self) -> (r: String)
        ensures
            r@ == self.kubectl_image_apply@,
    {
        self.kubectl_image_apply.clone()
    }

    pub fn render_step_image(&self) -> (r: String)
        ensures
            r@ == self.kubectl_image_render@,
    {
        self.kubectl_image_render.clone()
    }
}

/// What the controller runtime is asked to do once a reconciliation is over.
#[derive(Clone, Copy, Debug, PartialEq, Eq, Structural)]
pub enum Action {
    /// Wait until the object or one of its jobs changes.
    AwaitChange,
    /// Reconcile again after so many seconds.
    Requeue(u64),
}

/// What follows a failed reconciliation of an instance: a retry after a short
/// fixed delay, whatever the error.
pub fn error_policy_app_instance(app_instance: &AppInstance, error: &Error, ctx: &Context) -> (r:
    Action)
    ensures
        r == Action::Requeue(ERROR_REQUEUE_SECONDS),
{
    Action::Requeue(ERROR_REQUEUE_SECONDS)
}

/// What follows a failed reconciliation of a config map: a retry after a
/// short fixed delay, whether or not the config map holds an instance.
pub fn error_policy_config_map(config_map: &ConfigMap, error: &Error, ctx: &Context) -> (r: Action)
    ensures
        r == Action::Requeue(ERROR_REQUEUE_SECONDS),
{
    Action::Requeue(ERROR_REQUEUE_SECONDS)
}

/// Tells whether a config map is the one the operator watches.
pub fn watches_config_map(ctx: &Context, config_map: &ConfigMap) -> (r: bool)
    ensures
        r == (ctx.config_map_name matches Some(name) && name@
            == config_map.metadata.name_any_spec()),
{
    match &ctx.config_map_name {
        Some(name) => {
            let cm_name = config_map.name_any();
            str_eq(name.as_str(), cm_name.as_str())
        },
        None => false,
    }
}

/// What reconciling a config map comes to where it is not the one that the
/// operator watches: nothing but another look after a short delay.
pub fn reconcile_other_config_map() -> (r: Action)
    ensures
        r == Action::Requeue(ERROR_REQUEUE_SECONDS),
{
    Action::Requeue(ERROR_REQUEUE_SECONDS)
}

/// The failure that reconciling a config map ends with where the config map
/// holds no instance, for the reason `error`.
pub fn reconcile_config_map(error: &Error) -> (r: Error)
    ensures
        r matches Error::InvalidConfigMap(m) && m@ == error.message_spec(),
{
    Error::InvalidConfigMap(error.to_string())
}

/// The reference by which an object of the given kind, with the metadata
/// `meta`, owns what is created for it: none unless it has a name and a uid.
pub open spec fn controller_owner_ref_spec(
    api_version: Seq<char>,
    kind: Seq<char>,
    meta: ObjectMeta,
) -> Option<OwnerReferenceView> {
    match (meta.name, meta.uid) {
        (Some(name), Some(uid)) => Some(
            OwnerReferenceView {
                api_version: api_version,
                kind: kind,
                name: name@,
                uid: uid@,
                controller: Some(true),
                block_owner_deletion: None,
            },
        ),
        _ => None,
    }
}

/// The reference by which an object owns what is created for it.
pub fn controller_owner_ref(api_version: &str, kind: &str, meta: &ObjectMeta) -> (r: Option<
    OwnerReference,
>)
    ensures
        r.deep_view() == controller_owner_ref_spec(api_version@, kind@, *meta),
{
    match (&meta.name, &meta.uid) {
        (Some(name), Some(uid)) => Some(
            OwnerReference {
                api_version: String::from_str(api_version),
                kind: String::from_str(kind),
                name: name.clone(),
                uid: uid.clone(),
                controller: Some(true),
                block_owner_deletion: None,
            },
        ),
        _ => None,
    }
}

/// An instance together with the object that carries it, so that one
/// reconciliation serves both carriers.
#[derive(Debug)]
pub struct AppInstanceLike {
    carrier: AppInstanceLikeResources,
    decoded: Option<AppInstance>,
}

impl AppInstanceLike {
    #[verifier::type_invariant]
    spec fn decoded_iff_carried(&self) -> bool {
        self.carrier is ConfigMap <==> self.decoded is Some
    }

    /// The object that carries the instance.
    pub closed spec fn carrier_spec(&self) -> AppInstanceLikeResources {
        self.carrier
    }

    /// The instance.
    pub closed spec fn instance_spec(&self) -> AppInstance {
        match self.carrier {
            AppInstanceLikeResources::AppInstance(ai) => ai,
            AppInstanceLikeResources::ConfigMap(_) => self.decoded->0,
        }
    }

    /// The name under which the operator knows the instance: that of the
    /// object that carries it.
    pub open spec fn name_any_spec(&self) -> Seq<char> {
        match self.carrier_spec() {
            AppInstanceLikeResources::AppInstance(ai) => ai.metadata.name_any_spec(),
            AppInstanceLikeResources::ConfigMap(cm) => cm.metadata.name_any_spec(),
        }
    }

    /// An instance that is its own carrier.
    pub fn from(value: AppInstance) -> (r: Self)
        ensures
            r.carrier_spec() == AppInstanceLikeResources::AppInstance(value),
            r.instance_spec() == value,
    {
        AppInstanceLike { carrier: AppInstanceLikeResources::AppInstance(value), decoded: None }
    }

    /// The instance that a config map carries under `key`, given what decoding
    /// the text under that key came to. The instance takes the config map's
    /// uid.
    pub fn from_config_map(config_map: ConfigMap, key: &str, decoded: Result<AppInstance, String>) -> (r:
        Result<Self, Error>)
        requires
            config_map.data is Some ==> config_map.value_spec(key@) is Some,
        ensures
            match (config_map.data, decoded) {
                (None, _) => r matches Err(Error::InvalidConfigMap(m)) && m@
                    == "configmap did not have the `data` property set"@,
                (Some(_), Err(e)) => r matches Err(Error::InvalidConfigMap(m)) && m == e,
                (Some(_), Ok(ai)) => r matches Ok(like) && like.carrier_spec()
                    == AppInstanceLikeResources::ConfigMap(config_map) && like.instance_spec() == (
                AppInstance {
                    metadata: ObjectMeta { uid: config_map.metadata.uid, ..ai.metadata },
                    ..ai
                }),
            },
    {
        if config_map.data.is_none() {
            return Err(
                Error::InvalidConfigMap(
                    String::from_str("configmap did not have the `data` property set"),
                ),
            );
        }
        match decoded {
            Err(e) => Err(Error::InvalidConfigMap(e)),
            Ok(ai) => {
                let uid = match &config_map.metadata.uid {
                    Some(u) => Some(u.clone()),
                    None => None,
                };
                let mut ai = ai;
                ai.metadata.uid = uid;
                Ok(
                    AppInstanceLike {
                        carrier: AppInstanceLikeResources::ConfigMap(config_map),
                        decoded: Some(ai),
                    },
                )
            },
        }
    }

    /// The instance.
    pub fn instance(&self) -> (r: &AppInstance)
        ensures
            *r == self.instance_spec(),
    {
        proof {
            use_type_invariant(self);
        }
        match &self.carrier {
            AppInstanceLikeResources::AppInstance(ai) => ai,
            AppInstanceLikeResources::ConfigMap(_) => self.decoded.as_ref().unwrap(),
        }
    }

    /// The object that carries the instance.
    pub fn carrier(&self) -> (r: &AppInstanceLikeResources)
        ensures
            *r == self.carrier_spec(),
    {
        &self.carrier
    }

    /// The name under which the operator knows the instance. For a config map
    /// this is the config map's name, which is what the operator watches, not
    /// the name of the instance inside.
    pub fn name_any(&self) -> (r: String)
        ensures
            r@ == self.name_any_spec(),
    {
        match &self.carrier {
            AppInstanceLikeResources::AppInstance(ai) => ai.name_any(),
            AppInstanceLikeResources::ConfigMap(cm) => cm.name_any(),
        }
    }

    /// How a reconciliation begins: an instance whose pause flag differs
    /// from the operator's mode is not this operator's to handle, so the
    /// reconciliation is over at once, nothing is asked of the cluster, and
    /// the next change is waited for. Any other instance goes on to be
    /// installed or removed.
    pub open spec fn reconcile_spec(&self, ctx: &Context) -> Option<Action> {
        if self.instance_spec().spec.pause != ctx.only_paused {
            Some(Action::AwaitChange)
        } else {
            None
        }
    }

    /// Begins a reconciliation: the action it ends with at once, if this
    /// operator leaves the instance alone, or nothing if it is to go on. A
    /// dedicated operator for paused instances can so run beside the normal
    /// one without the two working on one instance.
    pub fn reconcile(&self, ctx: &Context) -> (r: Option<Action>)
        ensures
            r == self.reconcile_spec(ctx),
    {
        if self.instance().spec.pause != ctx.only_paused {
            Some(Action::AwaitChange)
        } else {
            None
        }
    }

    /// The name of the instance's job of the given type.
    pub open spec fn job_name_spec(&self, job_type: Seq<char>) -> Seq<char> {
        "kubit-"@ + job_type + "-"@ + self.name_any_spec()
    }

    /// The name of the instance's job of the given type.
    pub fn job_name_for(&self, job_type: &str) -> (r: String)
        ensures
            r@ == self.job_name_spec(job_type@),
    {
        String::from_str("kubit-").concat(job_type).concat("-").concat(self.name_any().as_str())
    }

    /// The owner references that every object created for the instance
    /// carries: one to the carrier, none where the carrier lacks a name or a
    /// uid.
    pub open spec fn owned_by_spec(&self) -> Option<Seq<OwnerReferenceView>> {
        let owner = match self.carrier_spec() {
            AppInstanceLikeResources::AppInstance(ai) => controller_owner_ref_spec(
                "kubecfg.dev/v1alpha1"@,
                "AppInstance"@,
                ai.metadata,
            ),
            AppInstanceLikeResources::ConfigMap(cm) => controller_owner_ref_spec(
                "v1"@,
                "ConfigMap"@,
                cm.metadata,
            ),
        };
        match owner {
            Some(o) => Some(seq![o]),
            None => None,
        }
    }

    /// The owner references that every object created for the instance
    /// carries.
    pub fn owned_by(&self) -> (r: Option<Vec<OwnerReference>>)
        ensures
            r.deep_view() == self.owned_by_spec(),
    {
        let owner = match &self.carrier {
            AppInstanceLikeResources::AppInstance(ai) => controller_owner_ref(
                "kubecfg.dev/v1alpha1",
                "AppInstance",
                &ai.metadata,
            ),
            AppInstanceLikeResources::ConfigMap(cm) => controller_owner_ref(
                "v1",
                "ConfigMap",
                &cm.metadata,
            ),
        };
        match owner {
            Some(o) => {
                let mut v: Vec<OwnerReference> = Vec::new();
                v.push(o);
                proof {
                    assert(v.deep_view() =~= seq![o@]);
                }
                Some(v)
            },
            None => None,
        }
    }
}

/// How a job ended.
#[derive(Clone, Copy, Debug, PartialEq, Eq, Structural)]
pub enum JobOutcome {
    Success,
    Failure,
}

/// Where the installation of an instance stands. It is read off the
/// instance's job each time and never stored.
#[derive(Clone, Debug)]
pub enum ReconciliationState {
    /// No job exists.
    Idle,
    /// The job exists and has not ended.
    Executing,
    /// The job with the given controller uid has ended.
    JobTerminated(String, JobOutcome),
}

/// The types of `conds`, in order.
pub open spec fn job_condition_types(conds: Seq<JobConditionView>) -> Seq<Seq<char>> {
    conds.map_values(|c: JobConditionView| c.type_)
}

/// True when the first condition of the given type says `True`.
pub open spec fn condition_holds(conds: Seq<JobConditionView>, type_: Seq<char>) -> bool {
    match index_of(job_condition_types(conds), type_) {
        Some(i) => conds[i].status == "True"@,
        None => false,
    }
}

/// Tells whether a job has completed, by the cluster's own account.
///
/// Trusted: hands a job with these conditions to
/// `kube::runtime::conditions::is_job_completed`, which looks for the first
/// condition of type `Complete` and tells whether its status is `True`.
#[verifier::external_body]
fn is_job_completed(conditions: &Vec<JobCondition>) -> (r: bool)
    ensures
        r == condition_holds(conditions.deep_view(), "Complete"@),
{
    let conditions = conditions.iter().map(|c| k8s_openapi::api::batch::v1::JobCondition {
        type_: c.type_.clone(),
        status: c.status.clone(),
        ..Default::default()
    }).collect();
    let status = k8s_openapi::api::batch::v1::JobStatus {
        conditions: Some(conditions),
        ..Default::default()
    };
    let job = k8s_openapi::api::batch::v1::Job { status: Some(status), ..Default::default() };
    let completed = kube::runtime::conditions::is_job_completed();
    kube::runtime::wait::Condition::matches_object(&completed, Some(&job))
}

/// True when some condition of the given type says `True`.
pub open spec fn reports(conds: Seq<JobConditionView>, type_: Seq<char>) -> bool {
    exists|i: int| 0 <= i < conds.len() && #[trigger] conds[i].type_ == type_ && conds[i].status
        == "True"@
}

/// Tells whether a job has failed: whether any of its conditions is of type
/// `Failed` and says `True`. The cluster's own completion check knows success
/// only, so failure is read off the conditions here.
pub fn is_job_failed(conditions: &Vec<JobCondition>) -> (r: bool)
    ensures
        r == reports(conditions.deep_view(), "Failed"@),
{
    let ghost conds = conditions.deep_view();
    let mut i: usize = 0;
    while i < conditions.len()
        invariant
            i <= conditions.len(),
            conds == conditions.deep_view(),
            forall|j: int|
                0 <= j < i ==> !((#[trigger] conds[j].type_) == "Failed"@ && conds[j].status
                    == "True"@),
        decreases conditions.len() - i,
    {
        assert(conds[i as int] == conditions@[i as int]@);
        if str_eq(conditions[i].type_.as_str(), "Failed") && str_eq(
            conditions[i].status.as_str(),
            "True",
        ) {
            proof {
                assert(conds[i as int].type_ == "Failed"@ && conds[i as int].status == "True"@);
                assert(reports(conds, "Failed"@));
            }
            return true;
        }
        i += 1;
    }
    false
}

/// The controller uid that a job's labels give, if they give one.
pub open spec fn controller_uid(labels: Seq<(Seq<char>, Seq<char>)>) -> Option<Seq<char>> {
    entry_value(labels, "controller-uid"@)
}

/// How a job with these conditions ended, if it has ended. Completion is
/// looked for first, as the cluster's own check reads it: off the first
/// condition of type `Complete`. Failure is any condition of type `Failed`
/// that says `True`.
pub open spec fn classified(
    conditions: Seq<JobConditionView>,
) -> Option<JobOutcome> {
    if condition_holds(conditions, "Complete"@) {
        Some(JobOutcome::Success)
    } else if reports(conditions, "Failed"@) {
        Some(JobOutcome::Failure)
    } else {
        None
    }
}

/// True when `state` is where the installation with the job `job` stands.
pub open spec fn is_state_of(job: Option<JobState>, state: ReconciliationState) -> bool {
    match job {
        None => state is Idle,
        Some(job) => match classified(job.conditions.deep_view()) {
            Some(outcome) => state matches ReconciliationState::JobTerminated(uid, o) && Some(uid@)
                == controller_uid(job.labels.deep_view()) && o == outcome,
            None => state is Executing,
        },
    }
}

/// True when no type occurs twice among the conditions, as is the case with
/// what the cluster reports.
pub open spec fn job_condition_types_unique(conds: Seq<JobConditionView>) -> bool {
    forall|i: int, j: int| 0 <= i < j < conds.len() ==> conds[i].type_ != conds[j].type_
}

/// Where every type has one condition, the first condition of a type says
/// `True` exactly when some condition of the type does.
pub proof fn lemma_condition_holds_iff_reported(conds: Seq<JobConditionView>, type_: Seq<char>)
    requires
        job_condition_types_unique(conds),
    ensures
        condition_holds(conds, type_) == reports(conds, type_),
{
    let types = job_condition_types(conds);
    crate::text::lemma_index_of_sound(types, type_);
    if reports(conds, type_) {
        let i = choose|i: int| 0 <= i < conds.len() && #[trigger] conds[i].type_ == type_
            && conds[i].status == "True"@;
        assert(types[i] == type_);
        match index_of(types, type_) {
            Some(k) => {
                assert(types[k] == conds[k].type_);
                if k != i {
                    assert(conds[k].type_ == conds[i].type_);
                }
            },
            None => {},
        }
    } else {
        match index_of(types, type_) {
            Some(k) => {
                assert(types[k] == conds[k].type_);
            },
            None => {},
        }
    }
}

/// How the installation stands by the job, whatever the job's conditions:
/// without a job it is idle; a job that the cluster's own check calls
/// complete has ended well; any other job with a condition `Failed` that says
/// `True` has ended badly; any job left is running.
pub proof fn lemma_classification(job: Option<JobState>, state: ReconciliationState)
    requires
        is_state_of(job, state),
    ensures
        match job {
            None => state is Idle,
            Some(j) => if condition_holds(j.conditions.deep_view(), "Complete"@) {
                state matches ReconciliationState::JobTerminated(uid, JobOutcome::Success)
                    && Some(uid@) == controller_uid(j.labels.deep_view())
            } else if reports(j.conditions.deep_view(), "Failed"@) {
                state matches ReconciliationState::JobTerminated(uid, JobOutcome::Failure)
                    && Some(uid@) == controller_uid(j.labels.deep_view())
            } else {
                state is Executing
            },
        },
{
}

/// Of a job whose conditions have one condition per type, as the cluster
/// reports them: a condition `Complete` that says `True` means success, and
/// without one a condition `Failed` that says `True` means failure.
pub proof fn lemma_classification_of_reported(job: JobState, state: ReconciliationState)
    requires
        is_state_of(Some(job), state),
        job_condition_types_unique(job.conditions.deep_view()),
    ensures
        reports(job.conditions.deep_view(), "Complete"@) ==> (
        state matches ReconciliationState::JobTerminated(uid, JobOutcome::Success) && Some(uid@)
            == controller_uid(job.labels.deep_view())),
        !reports(job.conditions.deep_view(), "Complete"@) && reports(
            job.conditions.deep_view(),
            "Failed"@,
        ) ==> (state matches ReconciliationState::JobTerminated(uid, JobOutcome::Failure)
            && Some(uid@) == controller_uid(job.labels.deep_view())),
        !reports(job.conditions.deep_view(), "Complete"@) && !reports(
            job.conditions.deep_view(),
            "Failed"@,
        ) ==> state is Executing,
{
    lemma_condition_holds_iff_reported(job.conditions.deep_view(), "Complete"@);
}

/// Tells whether a job carries the label that names its controller.
pub fn has_controller_uid(job: &JobState) -> (r: bool)
    ensures
        r == controller_uid(job.labels.deep_view()) is Some,
{
    find_entry(&job.labels, "controller-uid").is_some()
}

/// Where the installation of an instance stands, given its job, if there is
/// one. A job must carry the label that names its controller.
pub fn reconciliation_state(job: Option<&JobState>) -> (r: ReconciliationState)
    requires
        job matches Some(j) ==> controller_uid(j.labels.deep_view()) is Some,
    ensures
        is_state_of(
            match job {
                Some(j) => Some(*j),
                None => None,
            },
            r,
        ),
{
    match job {
        Some(job) => {
            let uid = find_entry(&job.labels, "controller-uid").unwrap();
            if is_job_completed(&job.conditions) {
                ReconciliationState::JobTerminated(uid, JobOutcome::Success)
            } else if is_job_failed(&job.conditions) {
                ReconciliationState::JobTerminated(uid, JobOutcome::Failure)
            } else {
                ReconciliationState::Executing
            }
        },
        None => ReconciliationState::Idle,
    }
}

/// What creating an object came to, where an object of that name counts as
/// created: an answer that the object exists already is no failure, every
/// other failure is.
pub fn handle_resource_exists(res: Result<(), KubeError>) -> (r: Result<(), Error>)
    ensures
        match res {
            Ok(_) => r is Ok,
            Err(e) => if e.code == Some(409u16) {
                r is Ok
            } else {
                r matches Err(Error::KubeError(k)) && k == e
            },
        },
{
    match res {
        Err(e) => match e.code {
            Some(409) => Ok(()),
            _ => Err(Error::KubeError(e)),
        },
        Ok(_) => Ok(()),
    }
}

} // verus!
