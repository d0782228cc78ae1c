//! The steps of removing an instance, which run while the finalizer holds the
//! instance back: the install job goes first, then a cleanup job prunes what
//! was installed, then the placeholder config map is deleted. Only a run
//! that ends well lets the finalizer go.

use vstd::prelude::*;
use crate::controller::{
    handle_resource_exists, Action, AppInstanceLike, Context, DELETION_TIMEOUT_SECONDS,
};
use crate::delete::{cleanup_hack_name, cleanup_hack_resource_name};
use crate::jobs::is_job_of;
use crate::objects::{Job, JobState};
use crate::rbac::NamespacedRoles;
use crate::{Error, KubeError};

verus! {

/// What a step of a removal asks for, or how the removal ended. Every
/// request names the namespace to make it in.
#[derive(Debug)]
pub enum DeleteStep {
    /// The removal is over. The finalizer may go if it ended well.
    Done(Result<Action, Error>),
    /// Read the install job of that name, if it exists.
    GetApplyJob { namespace: String, name: String },
    /// Delete the install job, in the foreground.
    DeleteApplyJob { namespace: String, name: String, uid: String },
    /// Wait until the install job with that uid is gone, for so many seconds
    /// at most.
    AwaitApplyJobDeleted { namespace: String, name: String, uid: String, timeout_seconds: u64 },
    /// Write the service account, the role and its binding, each as a forced
    /// server-side apply, stopping at the first failure.
    ApplyRoles { namespace: String, namespaced: NamespacedRoles },
    /// Create the cleanup job.
    CreateCleanupJob { namespace: String, job: Job },
    /// Wait until the cleanup job has completed, for so many seconds at most.
    AwaitCleanupJobCompleted { namespace: String, name: String, timeout_seconds: u64 },
    /// Delete the placeholder config map.
    DeleteConfigMap { namespace: String, name: String },
}

impl AppInstanceLike {
    /// The namespace in which the removal looks for jobs.
    pub open spec fn jobs_namespace_spec(&self) -> Seq<char> {
        self.instance_spec().metadata.namespace_any_spec()
    }

    /// True when `r` is the first step of a removal: reading the install
    /// job.
    pub open spec fn is_start_of_delete(&self, r: DeleteStep) -> bool {
        r matches DeleteStep::GetApplyJob { namespace, name } && namespace@
            == self.jobs_namespace_spec() && name@ == self.job_name_spec("apply"@)
    }

    /// Starts a removal.
    pub fn reconcile_delete(&self) -> (r: DeleteStep)
        ensures
            self.is_start_of_delete(r),
    {
        DeleteStep::GetApplyJob {
            namespace: self.instance().namespace_any(),
            name: self.job_name_for("apply"),
        }
    }

    /// True when `r` begins the cleanup: the roles under which the cleanup
    /// job runs are written once more.
    pub open spec fn begins_cleanup(&self, r: DeleteStep) -> bool {
        r matches DeleteStep::ApplyRoles { namespace, namespaced } && namespace@
            == self.jobs_namespace_spec() && namespaced.service_account@
            == self.service_account_spec() && namespaced.role@ == self.role_spec()
            && namespaced.role_binding@ == self.role_binding_spec()
    }

    /// True when `r` asks for the placeholder config map to be deleted.
    pub open spec fn deletes_config_map(&self, r: DeleteStep) -> bool {
        r matches DeleteStep::DeleteConfigMap { namespace, name } && namespace@
            == self.jobs_namespace_spec() && name@ == cleanup_hack_name(self.name_any_spec())
    }

    /// True when `r` is the step that follows the answer `response` to the
    /// reading of the install job: a job that is there is deleted first;
    /// without one, the cleanup begins at once.
    pub open spec fn follows_apply_job(
        &self,
        response: Result<Option<JobState>, Error>,
        r: DeleteStep,
    ) -> bool {
        match response {
            Err(e) => r == DeleteStep::Done(Err(e)),
            Ok(Some(job)) => match self.instance_spec().metadata.namespace {
                None => r matches DeleteStep::Done(Err(Error::NamespaceRequired)),
                Some(ns) => r matches DeleteStep::DeleteApplyJob { namespace, name, uid }
                    && namespace@ == ns@ && name@ == self.job_name_spec("apply"@) && Some(uid)
                    == job.uid,
            },
            Ok(None) => self.begins_cleanup(r),
        }
    }

    fn begin_cleanup(&self) -> (r: DeleteStep)
        ensures
            self.begins_cleanup(r),
    {
        DeleteStep::ApplyRoles {
            namespace: self.instance().namespace_any(),
            namespaced: self.setup_namespaced_roles(),
        }
    }

    fn delete_cleanup_hack_configmap(&self) -> (r: DeleteStep)
        ensures
            self.deletes_config_map(r),
    {
        DeleteStep::DeleteConfigMap {
            namespace: self.instance().namespace_any(),
            name: cleanup_hack_resource_name(self.name_any().as_str()),
        }
    }

    /// The step after the reading of the install job. A job that the
    /// cluster reports has a uid.
    pub fn after_get_apply_job(&self, response: Result<Option<JobState>, Error>) -> (r:
        DeleteStep)
        requires
            response matches Ok(Some(job)) ==> job.uid is Some,
        ensures
            self.follows_apply_job(response, r),
    {
        match response {
            Err(e) => DeleteStep::Done(Err(e)),
            Ok(Some(job)) => match self.instance().namespace() {
                None => DeleteStep::Done(Err(Error::NamespaceRequired)),
                Some(ns) => DeleteStep::DeleteApplyJob {
                    namespace: ns,
                    name: self.job_name_for("apply"),
                    uid: job.uid.unwrap(),
                },
            },
            Ok(None) => self.begin_cleanup(),
        }
    }

    /// True when `r` is the step that follows the answer `response` to the
    /// deletion of the install job with the uid `job_uid`: the removal waits
    /// until the job is gone.
    pub open spec fn follows_apply_job_deletion(
        &self,
        job_uid: String,
        response: Result<(), Error>,
        r: DeleteStep,
    ) -> bool {
        match response {
            Err(e) => r == DeleteStep::Done(Err(e)),
            Ok(_) => r matches DeleteStep::AwaitApplyJobDeleted {
                namespace,
                name,
                uid,
                timeout_seconds,
            } && namespace@ == self.jobs_namespace_spec() && name@ == self.job_name_spec("apply"@)
                && uid == job_uid && timeout_seconds == DELETION_TIMEOUT_SECONDS,
        }
    }

    /// The step after the deletion of the install job.
    pub fn after_delete_apply_job(&self, job_uid: String, response: Result<(), Error>) -> (r:
        DeleteStep)
        ensures
            self.follows_apply_job_deletion(job_uid, response, r),
    {
        match response {
            Err(e) => DeleteStep::Done(Err(e)),
            Ok(_) => DeleteStep::AwaitApplyJobDeleted {
                namespace: self.instance().namespace_any(),
                name: self.job_name_for("apply"),
                uid: job_uid,
                timeout_seconds: DELETION_TIMEOUT_SECONDS,
            },
        }
    }

    /// True when `r` is the step that follows the wait for the install job
    /// to go: the cleanup begins if the job went in time; if it did not, the
    /// removal fails, to be tried again, and nothing is cleaned up.
    pub open spec fn follows_apply_job_wait(&self, gone_in_time: bool, r: DeleteStep) -> bool {
        if gone_in_time {
            self.begins_cleanup(r)
        } else {
            r matches DeleteStep::Done(Err(Error::ResourceDeletionTimeout))
        }
    }

    /// The step after the wait for the install job to go.
    pub fn after_await_apply_job_deleted(&self, gone_in_time: bool) -> (r: DeleteStep)
        ensures
            self.follows_apply_job_wait(gone_in_time, r),
    {
        if gone_in_time {
            self.begin_cleanup()
        } else {
            DeleteStep::Done(Err(Error::ResourceDeletionTimeout))
        }
    }

    /// True when `r` is the step that follows the building of the cleanup
    /// job, which came to `job`.
    pub open spec fn follows_cleanup_job_built(&self, job: Result<Job, Error>, r: DeleteStep) -> bool {
        match job {
            Ok(j) => r matches DeleteStep::CreateCleanupJob { namespace, job: k } && Some(
                namespace@,
            ) == self.instance_spec().metadata.namespace.deep_view() && k@ == j@,
            Err(e) => r == DeleteStep::Done(Err(e)),
        }
    }

    /// True when `r` is the step that follows the answer `response` to the
    /// writing of the roles: the cleanup job is created.
    pub open spec fn follows_cleanup_roles(
        &self,
        ctx: &Context,
        response: Result<(), Error>,
        r: DeleteStep,
    ) -> bool {
        match response {
            Err(e) => r == DeleteStep::Done(Err(e)),
            Ok(_) => exists|job: Result<Job, Error>|
                is_job_of(self.instance_spec(), self.cleanup_job_spec(ctx), job)
                    && #[trigger] self.follows_cleanup_job_built(job, r),
        }
    }

    /// The step after the writing of the roles.
    pub fn after_apply_cleanup_roles(&self, ctx: &Context, response: Result<(), Error>) -> (r:
        DeleteStep)
        ensures
            self.follows_cleanup_roles(ctx, response, r),
    {
        match response {
            Err(e) => DeleteStep::Done(Err(e)),
            Ok(_) => {
                let job = self.launch_cleanup_job(ctx);
                let ghost witness = job;
                let r = match job {
                    Ok(j) => DeleteStep::CreateCleanupJob {
                        namespace: self.instance().namespace_any(),
                        job: j,
                    },
                    Err(e) => DeleteStep::Done(Err(e)),
                };
                proof {
                    assert(self.follows_cleanup_job_built(witness, r));
                }
                r
            },
        }
    }

    /// True when `r` asks to wait for the cleanup job.
    pub open spec fn awaits_cleanup_job(&self, r: DeleteStep) -> bool {
        r matches DeleteStep::AwaitCleanupJobCompleted { namespace, name, timeout_seconds }
            && namespace@ == self.jobs_namespace_spec() && name@ == self.job_name_spec(
            "cleanup"@,
        ) && timeout_seconds == DELETION_TIMEOUT_SECONDS
    }

    /// True when `r` is the step that follows the answer `response` to the
    /// creation of the cleanup job. A job that exists already counts as
    /// created.
    pub open spec fn follows_cleanup_job_creation(
        &self,
        response: Result<(), KubeError>,
        r: DeleteStep,
    ) -> bool {
        match response {
            Err(e) => if e.code == Some(409u16) {
                self.awaits_cleanup_job(r)
            } else {
                r == DeleteStep::Done(Err(Error::KubeError(e)))
            },
            Ok(_) => self.awaits_cleanup_job(r),
        }
    }

    /// The step after the creation of the cleanup job.
    pub fn after_create_cleanup_job(&self, response: Result<(), KubeError>) -> (r: DeleteStep)
        ensures
            self.follows_cleanup_job_creation(response, r),
    {
        match handle_resource_exists(response) {
            Err(e) => DeleteStep::Done(Err(e)),
            Ok(_) => DeleteStep::AwaitCleanupJobCompleted {
                namespace: self.instance().namespace_any(),
                name: self.job_name_for("cleanup"),
                timeout_seconds: DELETION_TIMEOUT_SECONDS,
            },
        }
    }

    /// True when `r` is the step that follows the wait for the cleanup job:
    /// the placeholder config map is deleted if the job completed in time; if
    /// it did not, the removal fails, to be tried again.
    pub open spec fn follows_cleanup_job_wait(&self, completed_in_time: bool, r: DeleteStep) -> bool {
        if completed_in_time {
            self.deletes_config_map(r)
        } else {
            r matches DeleteStep::Done(Err(Error::ResourceDeletionTimeout))
        }
    }

    /// The step after the wait for the cleanup job.
    pub fn after_await_cleanup_job(&self, completed_in_time: bool) -> (r: DeleteStep)
        ensures
            self.follows_cleanup_job_wait(completed_in_time, r),
    {
        if completed_in_time {
            self.delete_cleanup_hack_configmap()
        } else {
            DeleteStep::Done(Err(Error::ResourceDeletionTimeout))
        }
    }
}

/// True when `r` is the step that follows the answer `response` to the
/// deletion of the placeholder config map: the removal has ended well if the
/// config map is gone, also where it was not there to begin with.
pub open spec fn follows_config_map_deletion(response: Result<(), KubeError>, r: DeleteStep) -> bool {
    match response {
        Err(e) => if e.code == Some(404u16) {
            r == DeleteStep::Done(Ok(Action::AwaitChange))
        } else {
            r == DeleteStep::Done(Err(Error::KubeError(e)))
        },
        Ok(_) => r == DeleteStep::Done(Ok(Action::AwaitChange)),
    }
}

/// The step after the deletion of the placeholder config map.
pub fn after_delete_config_map(response: Result<(), KubeError>) -> (r: DeleteStep)
    ensures
        follows_config_map_deletion(response, r),
{
    match response {
        Err(e) => match e.code {
            Some(404) => DeleteStep::Done(Ok(Action::AwaitChange)),
            _ => DeleteStep::Done(Err(Error::KubeError(e))),
        },
        Ok(_) => DeleteStep::Done(Ok(Action::AwaitChange)),
    }
}

/// True when `next` can follow `step` in a removal of `like`: it is the step
/// that follows some answer to what `step` asks for.
pub open spec fn can_follow(
    like: &AppInstanceLike,
    ctx: &Context,
    step: DeleteStep,
    next: DeleteStep,
) -> bool {
    match step {
        DeleteStep::Done(_) => false,
        DeleteStep::GetApplyJob { .. } => exists|response: Result<Option<JobState>, Error>|
            #[trigger] like.follows_apply_job(response, next),
        DeleteStep::DeleteApplyJob { uid, .. } => exists|response: Result<(), Error>|
            #[trigger] like.follows_apply_job_deletion(uid, response, next),
        DeleteStep::AwaitApplyJobDeleted { .. } => exists|gone_in_time: bool|
            #[trigger] like.follows_apply_job_wait(gone_in_time, next),
        DeleteStep::ApplyRoles { .. } => exists|response: Result<(), Error>|
            #[trigger] like.follows_cleanup_roles(ctx, response, next),
        DeleteStep::CreateCleanupJob { .. } => exists|response: Result<(), KubeError>|
            #[trigger] like.follows_cleanup_job_creation(response, next),
        DeleteStep::AwaitCleanupJobCompleted { .. } => exists|completed_in_time: bool|
            #[trigger] like.follows_cleanup_job_wait(completed_in_time, next),
        DeleteStep::DeleteConfigMap { .. } => exists|response: Result<(), KubeError>|
            #[trigger] follows_config_map_deletion(response, next),
    }
}

/// True when `run` is a removal of `like` from its first step on: every step
/// but the first follows the one before.
pub open spec fn is_removal(like: &AppInstanceLike, ctx: &Context, run: Seq<DeleteStep>) -> bool {
    &&& run.len() > 0
    &&& like.is_start_of_delete(run[0])
    &&& forall|i: int| 0 <= i < run.len() - 1 ==> can_follow(like, ctx, #[trigger] run[i], run[i + 1])
}

/// How far a step is into a removal.
pub open spec fn progress(step: DeleteStep) -> int {
    match step {
        DeleteStep::GetApplyJob { .. } => 0,
        DeleteStep::DeleteApplyJob { .. } => 1,
        DeleteStep::AwaitApplyJobDeleted { .. } => 2,
        DeleteStep::ApplyRoles { .. } => 3,
        DeleteStep::CreateCleanupJob { .. } => 4,
        DeleteStep::AwaitCleanupJobCompleted { .. } => 5,
        DeleteStep::DeleteConfigMap { .. } => 6,
        DeleteStep::Done(_) => 7,
    }
}

/// Every step of a removal goes further than the one before, so a removal
/// has nine steps at most and asks for nothing twice.
pub proof fn lemma_removal_progresses(
    like: &AppInstanceLike,
    ctx: &Context,
    step: DeleteStep,
    next: DeleteStep,
)
    requires
        can_follow(like, ctx, step, next),
    ensures
        progress(step) < progress(next),
{
    match step {
        DeleteStep::ApplyRoles { .. } => {
            let response = choose|response: Result<(), Error>|
                #[trigger] like.follows_cleanup_roles(ctx, response, next);
            if response is Ok {
                let job = choose|job: Result<Job, Error>|
                    is_job_of(like.instance_spec(), like.cleanup_job_spec(ctx), job)
                        && #[trigger] like.follows_cleanup_job_built(job, next);
            }
        },
        _ => {},
    }
}

/// The steps of a removal go further and further.
pub proof fn lemma_removal_is_ordered(
    like: &AppInstanceLike,
    ctx: &Context,
    run: Seq<DeleteStep>,
    i: int,
    j: int,
)
    requires
        is_removal(like, ctx, run),
        0 <= i <= j < run.len(),
    ensures
        progress(run[i]) + (j - i) <= progress(run[j]),
    decreases j - i,
{
    if i < j {
        lemma_removal_is_ordered(like, ctx, run, i, j - 1);
        assert(can_follow(like, ctx, run[j - 1], run[j - 1 + 1]));
        lemma_removal_progresses(like, ctx, run[j - 1], run[j]);
    }
}

/// Where the install job is not seen to go in time, the removal ends there
/// and then, with the error that asks for another try: no cleanup job was or
/// will be created in it, and it does not end well, so the finalizer stays.
pub proof fn lemma_timeout_blocks_cleanup(
    like: &AppInstanceLike,
    ctx: &Context,
    run: Seq<DeleteStep>,
    waited_at: int,
)
    requires
        is_removal(like, ctx, run),
        0 <= waited_at < run.len() - 1,
        run[waited_at] is AwaitApplyJobDeleted,
        like.follows_apply_job_wait(false, run[waited_at + 1]),
    ensures
        run.len() == waited_at + 2,
        run.last() matches DeleteStep::Done(Err(Error::ResourceDeletionTimeout)),
        forall|k: int| 0 <= k < run.len() ==> !(#[trigger] run[k] is CreateCleanupJob),
        forall|k: int| 0 <= k < run.len() ==> !(#[trigger] run[k] matches DeleteStep::Done(Ok(_))),
{
    if run.len() > waited_at + 2 {
        assert(can_follow(like, ctx, run[waited_at + 1], run[waited_at + 1 + 1]));
    }
    assert forall|k: int| 0 <= k < run.len() implies !(#[trigger] run[k] is CreateCleanupJob)
        && !(run[k] matches DeleteStep::Done(Ok(_))) by {
        if k <= waited_at {
            lemma_removal_is_ordered(like, ctx, run, k, waited_at);
        }
    }
}

/// What a step of a removal can follow: each step of the cleanup follows the
/// one before it and no other, and a removal ends well after the deletion of
/// the placeholder config map only.
pub proof fn lemma_removal_steps_in_turn(
    like: &AppInstanceLike,
    ctx: &Context,
    step: DeleteStep,
    next: DeleteStep,
)
    requires
        can_follow(like, ctx, step, next),
    ensures
        next matches DeleteStep::Done(Ok(_)) ==> step is DeleteConfigMap,
        next is DeleteConfigMap ==> step is AwaitCleanupJobCompleted,
        next is AwaitCleanupJobCompleted ==> step is CreateCleanupJob,
        next is CreateCleanupJob ==> step is ApplyRoles,
        next is ApplyRoles ==> step is GetApplyJob || step is AwaitApplyJobDeleted,
{
    match step {
        DeleteStep::ApplyRoles { .. } => {
            let response = choose|response: Result<(), Error>|
                #[trigger] like.follows_cleanup_roles(ctx, response, next);
            if response is Ok {
                let job = choose|job: Result<Job, Error>|
                    is_job_of(like.instance_spec(), like.cleanup_job_spec(ctx), job)
                        && #[trigger] like.follows_cleanup_job_built(job, next);
            }
        },
        _ => {},
    }
}

/// A removal that ends well has gone through the whole cleanup: its last
/// steps wrote the roles, created the cleanup job, waited for it to complete
/// and deleted the placeholder config map, in this order, whether or not an
/// install job was there to delete first. The finalizer goes after that
/// only.
pub proof fn lemma_removal_ends_well_after_cleanup(
    like: &AppInstanceLike,
    ctx: &Context,
    run: Seq<DeleteStep>,
)
    requires
        is_removal(like, ctx, run),
        run.last() matches DeleteStep::Done(Ok(_)),
    ensures
        run.len() >= 6,
        run[run.len() - 2] is DeleteConfigMap,
        run[run.len() - 3] is AwaitCleanupJobCompleted,
        run[run.len() - 4] is CreateCleanupJob,
        run[run.len() - 5] is ApplyRoles,
{
    let n = run.len() as int;
    assert(n >= 2);
    assert(can_follow(like, ctx, run[n - 2], run[n - 2 + 1]));
    lemma_removal_steps_in_turn(like, ctx, run[n - 2], run[n - 1]);
    assert(n >= 3);
    assert(can_follow(like, ctx, run[n - 3], run[n - 3 + 1]));
    lemma_removal_steps_in_turn(like, ctx, run[n - 3], run[n - 2]);
    assert(n >= 4);
    assert(can_follow(like, ctx, run[n - 4], run[n - 4 + 1]));
    lemma_removal_steps_in_turn(like, ctx, run[n - 4], run[n - 3]);
    assert(n >= 5);
    assert(can_follow(like, ctx, run[n - 5], run[n - 5 + 1]));
    lemma_removal_steps_in_turn(like, ctx, run[n - 5], run[n - 4]);
    assert(n >= 6);
}

} // verus!
