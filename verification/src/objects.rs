//! The cluster objects that the operator writes and reads, as plain values:
//! of each object only the fields that the operator sets or looks at.

use vstd::prelude::*;

verus! {

/// A back-reference from a created object to the object it was created for.
#[derive(Clone, Debug)]
pub struct OwnerReference {
    pub api_version: String,
    pub kind: String,
    pub name: String,
    pub uid: String,
    pub controller: Option<bool>,
    pub block_owner_deletion: Option<bool>,
}

/// An owner reference as a mathematical value.
pub struct OwnerReferenceView {
    pub api_version: Seq<char>,
    pub kind: Seq<char>,
    pub name: Seq<char>,
    pub uid: Seq<char>,
    pub controller: Option<bool>,
    pub block_owner_deletion: Option<bool>,
}

impl View for OwnerReference {
    type V = OwnerReferenceView;

    open spec fn view(&self) -> OwnerReferenceView {
        OwnerReferenceView {
            api_version: self.api_version.deep_view(),
            kind: self.kind.deep_view(),
            name: self.name.deep_view(),
            uid: self.uid.deep_view(),
            controller: self.controller,
            block_owner_deletion: self.block_owner_deletion,
        }
    }
}

impl DeepView for OwnerReference {
    type V = OwnerReferenceView;

    open spec fn deep_view(&self) -> OwnerReferenceView {
        self@
    }
}

/// The metadata that the operator sets on an object it writes.
#[derive(Clone, Debug)]
pub struct ObjectHeader {
    pub name: String,
    pub namespace: Option<String>,
    pub owner_references: Option<Vec<OwnerReference>>,
}

/// An object header as a mathematical value.
pub struct ObjectHeaderView {
    pub name: Seq<char>,
    pub namespace: Option<Seq<char>>,
    pub owner_references: Option<Seq<OwnerReferenceView>>,
}

impl View for ObjectHeader {
    type V = ObjectHeaderView;

    open spec fn view(&self) -> ObjectHeaderView {
        ObjectHeaderView {
            name: self.name.deep_view(),
            namespace: self.namespace.deep_view(),
            owner_references: self.owner_references.deep_view(),
        }
    }
}

impl DeepView for ObjectHeader {
    type V = ObjectHeaderView;

    open spec fn deep_view(&self) -> ObjectHeaderView {
        self@
    }
}

/// Maps a key of a secret to a file name inside the volume.
#[derive(Clone, Debug)]
pub struct KeyToPath {
    pub key: String,
    pub path: String,
}

/// A key-to-path mapping as a mathematical value.
pub struct KeyToPathView {
    pub key: Seq<char>,
    pub path: Seq<char>,
}

impl View for KeyToPath {
    type V = KeyToPathView;

    open spec fn view(&self) -> KeyToPathView {
        KeyToPathView {
            key: self.key.deep_view(),
            path: self.path.deep_view(),
        }
    }
}

impl DeepView for KeyToPath {
    type V = KeyToPathView;

    open spec fn deep_view(&self) -> KeyToPathView {
        self@
    }
}

/// Where a volume's content comes from.
#[derive(Clone, Debug)]
pub enum VolumeSource {
    /// A directory that starts empty and lives as long as the pod.
    EmptyDir,
    /// The named secret, with the listed keys written to the listed paths.
    Secret { secret_name: Option<String>, items: Vec<KeyToPath> },
}

/// A volume source as a mathematical value.
pub enum VolumeSourceView {
    EmptyDir,
    Secret { secret_name: Option<Seq<char>>, items: Seq<KeyToPathView> },
}

impl View for VolumeSource {
    type V = VolumeSourceView;

    open spec fn view(&self) -> VolumeSourceView {
        match self {
            VolumeSource::EmptyDir => VolumeSourceView::EmptyDir,
            VolumeSource::Secret { secret_name, items } => VolumeSourceView::Secret {
                secret_name: secret_name.deep_view(),
                items: items.deep_view(),
            },
        }
    }
}

impl DeepView for VolumeSource {
    type V = VolumeSourceView;

    open spec fn deep_view(&self) -> VolumeSourceView {
        self@
    }
}

/// A volume of a pod.
#[derive(Clone, Debug)]
pub struct Volume {
    pub name: String,
    pub source: VolumeSource,
}

/// A volume as a mathematical value.
pub struct VolumeView {
    pub name: Seq<char>,
    pub source: VolumeSourceView,
}

impl View for Volume {
    type V = VolumeView;

    open spec fn view(&self) -> VolumeView {
        VolumeView {
            name: self.name.deep_view(),
            source: self.source.deep_view(),
        }
    }
}

impl DeepView for Volume {
    type V = VolumeView;

    open spec fn deep_view(&self) -> VolumeView {
        self@
    }
}

/// Where a container sees a volume.
#[derive(Clone, Debug)]
pub struct VolumeMount {
    pub name: String,
    pub mount_path: String,
}

/// A volume mount as a mathematical value.
pub struct VolumeMountView {
    pub name: Seq<char>,
    pub mount_path: Seq<char>,
}

impl View for VolumeMount {
    type V = VolumeMountView;

    open spec fn view(&self) -> VolumeMountView {
        VolumeMountView {
            name: self.name.deep_view(),
            mount_path: self.mount_path.deep_view(),
        }
    }
}

impl DeepView for VolumeMount {
    type V = VolumeMountView;

    open spec fn deep_view(&self) -> VolumeMountView {
        self@
    }
}

/// An environment variable of a container.
#[derive(Clone, Debug)]
pub struct EnvVar {
    pub name: String,
    pub value: String,
}

/// An environment variable as a mathematical value.
pub struct EnvVarView {
    pub name: Seq<char>,
    pub value: Seq<char>,
}

impl View for EnvVar {
    type V = EnvVarView;

    open spec fn view(&self) -> EnvVarView {
        EnvVarView {
            name: self.name.deep_view(),
            value: self.value.deep_view(),
        }
    }
}

impl DeepView for EnvVar {
    type V = EnvVarView;

    open spec fn deep_view(&self) -> EnvVarView {
        self@
    }
}

/// A container of a pod: what it runs, and with which volumes and environment.
#[derive(Clone, Debug)]
pub struct Container {
    pub name: String,
    pub image: String,
    pub command: Vec<String>,
    pub args: Option<Vec<String>>,
    pub volume_mounts: Vec<VolumeMount>,
    pub env: Vec<EnvVar>,
}

/// A container as a mathematical value.
pub struct ContainerView {
    pub name: Seq<char>,
    pub image: Seq<char>,
    pub command: Seq<Seq<char>>,
    pub args: Option<Seq<Seq<char>>>,
    pub volume_mounts: Seq<VolumeMountView>,
    pub env: Seq<EnvVarView>,
}

impl View for Container {
    type V = ContainerView;

    open spec fn view(&self) -> ContainerView {
        ContainerView {
            name: self.name.deep_view(),
            image: self.image.deep_view(),
            command: self.command.deep_view(),
            args: self.args.deep_view(),
            volume_mounts: self.volume_mounts.deep_view(),
            env: self.env.deep_view(),
        }
    }
}

impl DeepView for Container {
    type V = ContainerView;

    open spec fn deep_view(&self) -> ContainerView {
        self@
    }
}

/// A batch job as the operator creates it: one pod that is never restarted,
/// with init containers that run in order before the main containers.
#[derive(Clone, Debug)]
pub struct Job {
    pub metadata: ObjectHeader,
    pub backoff_limit: i32,
    pub service_account: String,
    pub restart_policy: String,
    pub active_deadline_seconds: i64,
    pub volumes: Vec<Volume>,
    pub init_containers: Vec<Container>,
    pub containers: Vec<Container>,
}

/// A job as a mathematical value.
pub struct JobView {
    pub metadata: ObjectHeaderView,
    pub backoff_limit: i32,
    pub service_account: Seq<char>,
    pub restart_policy: Seq<char>,
    pub active_deadline_seconds: i64,
    pub volumes: Seq<VolumeView>,
    pub init_containers: Seq<ContainerView>,
    pub containers: Seq<ContainerView>,
}

impl View for Job {
    type V = JobView;

    open spec fn view(&self) -> JobView {
        JobView {
            metadata: self.metadata.deep_view(),
            backoff_limit: self.backoff_limit,
            service_account: self.service_account.deep_view(),
            restart_policy: self.restart_policy.deep_view(),
            active_deadline_seconds: self.active_deadline_seconds,
            volumes: self.volumes.deep_view(),
            init_containers: self.init_containers.deep_view(),
            containers: self.containers.deep_view(),
        }
    }
}

impl DeepView for Job {
    type V = JobView;

    open spec fn deep_view(&self) -> JobView {
        self@
    }
}

/// What a role allows: the verbs on the resources of the API groups.
#[derive(Clone, Debug)]
pub struct PolicyRule {
    pub api_groups: Vec<String>,
    pub resources: Vec<String>,
    pub verbs: Vec<String>,
}

/// A policy rule as a mathematical value.
pub struct PolicyRuleView {
    pub api_groups: Seq<Seq<char>>,
    pub resources: Seq<Seq<char>>,
    pub verbs: Seq<Seq<char>>,
}

impl View for PolicyRule {
    type V = PolicyRuleView;

    open spec fn view(&self) -> PolicyRuleView {
        PolicyRuleView {
            api_groups: self.api_groups.deep_view(),
            resources: self.resources.deep_view(),
            verbs: self.verbs.deep_view(),
        }
    }
}

impl DeepView for PolicyRule {
    type V = PolicyRuleView;

    open spec fn deep_view(&self) -> PolicyRuleView {
        self@
    }
}

/// The role that a binding grants.
#[derive(Clone, Debug)]
pub struct RoleRef {
    pub api_group: String,
    pub kind: String,
    pub name: String,
}

/// A role reference as a mathematical value.
pub struct RoleRefView {
    pub api_group: Seq<char>,
    pub kind: Seq<char>,
    pub name: Seq<char>,
}

impl View for RoleRef {
    type V = RoleRefView;

    open spec fn view(&self) -> RoleRefView {
        RoleRefView {
            api_group: self.api_group.deep_view(),
            kind: self.kind.deep_view(),
            name: self.name.deep_view(),
        }
    }
}

impl DeepView for RoleRef {
    type V = RoleRefView;

    open spec fn deep_view(&self) -> RoleRefView {
        self@
    }
}

/// Whom a binding grants a role to.
#[derive(Clone, Debug)]
pub struct Subject {
    pub kind: String,
    pub name: String,
    pub namespace: Option<String>,
}

/// A subject as a mathematical value.
pub struct SubjectView {
    pub kind: Seq<char>,
    pub name: Seq<char>,
    pub namespace: Option<Seq<char>>,
}

impl View for Subject {
    type V = SubjectView;

    open spec fn view(&self) -> SubjectView {
        SubjectView {
            kind: self.kind.deep_view(),
            name: self.name.deep_view(),
            namespace: self.namespace.deep_view(),
        }
    }
}

impl DeepView for Subject {
    type V = SubjectView;

    open spec fn deep_view(&self) -> SubjectView {
        self@
    }
}

/// A service account.
#[derive(Clone, Debug)]
pub struct ServiceAccount {
    pub metadata: ObjectHeader,
}

/// A service account as a mathematical value.
pub struct ServiceAccountView {
    pub metadata: ObjectHeaderView,
}

impl View for ServiceAccount {
    type V = ServiceAccountView;

    open spec fn view(&self) -> ServiceAccountView {
        ServiceAccountView {
            metadata: self.metadata.deep_view(),
        }
    }
}

impl DeepView for ServiceAccount {
    type V = ServiceAccountView;

    open spec fn deep_view(&self) -> ServiceAccountView {
        self@
    }
}

/// A role, of a namespace or of the whole cluster.
#[derive(Clone, Debug)]
pub struct Role {
    pub metadata: ObjectHeader,
    pub rules: Vec<PolicyRule>,
}

/// A role as a mathematical value.
pub struct RoleView {
    pub metadata: ObjectHeaderView,
    pub rules: Seq<PolicyRuleView>,
}

impl View for Role {
    type V = RoleView;

    open spec fn view(&self) -> RoleView {
        RoleView {
            metadata: self.metadata.deep_view(),
            rules: self.rules.deep_view(),
        }
    }
}

impl DeepView for Role {
    type V = RoleView;

    open spec fn deep_view(&self) -> RoleView {
        self@
    }
}

/// A binding of a role to subjects, in a namespace or in the whole cluster.
#[derive(Clone, Debug)]
pub struct RoleBinding {
    pub metadata: ObjectHeader,
    pub role_ref: RoleRef,
    pub subjects: Vec<Subject>,
}

/// A role binding as a mathematical value.
pub struct RoleBindingView {
    pub metadata: ObjectHeaderView,
    pub role_ref: RoleRefView,
    pub subjects: Seq<SubjectView>,
}

impl View for RoleBinding {
    type V = RoleBindingView;

    open spec fn view(&self) -> RoleBindingView {
        RoleBindingView {
            metadata: self.metadata.deep_view(),
            role_ref: self.role_ref.deep_view(),
            subjects: self.subjects.deep_view(),
        }
    }
}

impl DeepView for RoleBinding {
    type V = RoleBindingView;

    open spec fn deep_view(&self) -> RoleBindingView {
        self@
    }
}

/// One condition that a job reports of itself.
#[derive(Clone, Debug)]
pub struct JobCondition {
    pub type_: String,
    pub status: String,
}

/// A job condition as a mathematical value.
pub struct JobConditionView {
    pub type_: Seq<char>,
    pub status: Seq<char>,
}

impl View for JobCondition {
    type V = JobConditionView;

    open spec fn view(&self) -> JobConditionView {
        JobConditionView {
            type_: self.type_.deep_view(),
            status: self.status.deep_view(),
        }
    }
}

impl DeepView for JobCondition {
    type V = JobConditionView;

    open spec fn deep_view(&self) -> JobConditionView {
        self@
    }
}

/// A job as the cluster reports it: its labels and its conditions, in the
/// order in which the cluster lists them.
#[derive(Clone, Debug)]
pub struct JobState {
    pub uid: Option<String>,
    pub labels: Vec<(String, String)>,
    pub conditions: Vec<JobCondition>,
}

/// An observed job as a mathematical value.
pub struct JobStateView {
    pub uid: Option<Seq<char>>,
    pub labels: Seq<(Seq<char>, Seq<char>)>,
    pub conditions: Seq<JobConditionView>,
}

impl View for JobState {
    type V = JobStateView;

    open spec fn view(&self) -> JobStateView {
        JobStateView {
            uid: self.uid.deep_view(),
            labels: self.labels.deep_view(),
            conditions: self.conditions.deep_view(),
        }
    }
}

impl DeepView for JobState {
    type V = JobStateView;

    open spec fn deep_view(&self) -> JobStateView {
        self@
    }
}

/// What a container is doing: whether it still waits to start, and the exit
/// code it ended with, once it has.
#[derive(Clone, Debug)]
pub struct ContainerState {
    pub waiting: bool,
    pub terminated_exit_code: Option<i32>,
}

/// A container state as a mathematical value.
pub struct ContainerStateView {
    pub waiting: bool,
    pub terminated_exit_code: Option<i32>,
}

impl View for ContainerState {
    type V = ContainerStateView;

    open spec fn view(&self) -> ContainerStateView {
        ContainerStateView {
            waiting: self.waiting,
            terminated_exit_code: self.terminated_exit_code,
        }
    }
}

impl DeepView for ContainerState {
    type V = ContainerStateView;

    open spec fn deep_view(&self) -> ContainerStateView {
        self@
    }
}

/// What a pod reports of one of its containers.
#[derive(Clone, Debug)]
pub struct ContainerStatus {
    pub name: String,
    pub state: Option<ContainerState>,
}

/// A container status as a mathematical value.
pub struct ContainerStatusView {
    pub name: Seq<char>,
    pub state: Option<ContainerStateView>,
}

impl View for ContainerStatus {
    type V = ContainerStatusView;

    open spec fn view(&self) -> ContainerStatusView {
        ContainerStatusView {
            name: self.name.deep_view(),
            state: self.state.deep_view(),
        }
    }
}

impl DeepView for ContainerStatus {
    type V = ContainerStatusView;

    open spec fn deep_view(&self) -> ContainerStatusView {
        self@
    }
}

/// A pod as the cluster reports it: its name, and the statuses of its init
/// containers and of its main containers.
#[derive(Clone, Debug)]
pub struct Pod {
    pub name: String,
    pub init_container_statuses: Option<Vec<ContainerStatus>>,
    pub container_statuses: Option<Vec<ContainerStatus>>,
}

/// An observed pod as a mathematical value.
pub struct PodView {
    pub name: Seq<char>,
    pub init_container_statuses: Option<Seq<ContainerStatusView>>,
    pub container_statuses: Option<Seq<ContainerStatusView>>,
}

impl View for Pod {
    type V = PodView;

    open spec fn view(&self) -> PodView {
        PodView {
            name: self.name.deep_view(),
            init_container_statuses: self.init_container_statuses.deep_view(),
            container_statuses: self.container_statuses.deep_view(),
        }
    }
}

impl DeepView for Pod {
    type V = PodView;

    open spec fn deep_view(&self) -> PodView {
        self@
    }
}

/// A secret as the cluster reports it: its type and its data, one entry per
/// key.
#[derive(Clone, Debug)]
pub struct Secret {
    pub type_: Option<String>,
    pub data: Option<Vec<(String, Vec<u8>)>>,
}

/// An observed secret as a mathematical value.
pub struct SecretView {
    pub type_: Option<Seq<char>>,
    pub data: Option<Seq<(Seq<char>, Seq<u8>)>>,
}

impl View for Secret {
    type V = SecretView;

    open spec fn view(&self) -> SecretView {
        SecretView {
            type_: self.type_.deep_view(),
            data: self.data.deep_view(),
        }
    }
}

impl DeepView for Secret {
    type V = SecretView;

    open spec fn deep_view(&self) -> SecretView {
        self@
    }
}

} // verus!
