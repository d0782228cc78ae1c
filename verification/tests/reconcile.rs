use kubit::controller::{watches_config_map, Action, AppInstanceLike, Context};
use kubit::docker_config::{DockerConfig, DockerCredentials};
use kubit::objects::{
    ContainerState, ContainerStatus, Job, JobCondition, JobState, Pod, Secret,
};
use kubit::oci::{KubecfgPackageMetadata, PackageConfig, RegistryAuth};
use kubit::reconcile_apply::{after_delete_job, ApplyStep};
use kubit::reconcile_delete::{after_delete_config_map, DeleteStep};
use kubit::resources::{
    AppInstance, AppInstanceSpec, AppInstanceStatus, ConfigMap, LocalObjectReference, ObjectMeta,
    Package, PackageSpec, Time,
};
use kubit::{Error, KubeError};

fn demo(pull_secrets: Option<Vec<&str>>) -> AppInstance {
    AppInstance {
        metadata: ObjectMeta {
            name: Some("demo".to_string()),
            generate_name: None,
            namespace: Some("ns1".to_string()),
            uid: Some("uid-demo".to_string()),
        },
        spec: AppInstanceSpec {
            package: Package {
                image: "ghcr.io/kubecfg/kubit/package-demo:v1".to_string(),
                api_version: "v1alpha1".to_string(),
                spec: PackageSpec { arbitrary: "{}".to_string() },
            },
            image_pull_secrets: pull_secrets.map(|names| {
                names
                    .into_iter()
                    .map(|n| LocalObjectReference { name: Some(n.to_string()) })
                    .collect()
            }),
            pause: false,
        },
        status: None,
    }
}

fn ctx() -> Context {
    Context {
        kubecfg_image: "ghcr.io/kubecfg/kubecfg/kubecfg".to_string(),
        kubit_image: "ghcr.io/kubecfg/kubit:v1".to_string(),
        kubectl_image_apply: "bitnami/kubectl:1.27.5".to_string(),
        kubectl_image_render: "registry.k8s.io/kubectl:v1.28.0".to_string(),
        config_map_name: Some("app-instance".to_string()),
        only_paused: false,
    }
}

fn job_state(conditions: &[(&str, &str)]) -> JobState {
    JobState {
        uid: Some("job-uid".to_string()),
        labels: vec![("controller-uid".to_string(), "c-42".to_string())],
        conditions: conditions
            .iter()
            .map(|(t, s)| JobCondition { type_: t.to_string(), status: s.to_string() })
            .collect(),
    }
}

fn package_config() -> PackageConfig {
    PackageConfig {
        entrypoint: "demo.jsonnet".to_string(),
        pack: Some(Ok(KubecfgPackageMetadata { version: "v0.34.2".to_string() })),
        kubit_schema: None,
        image_list: None,
    }
}

fn api_error(code: u16) -> KubeError {
    KubeError { code: Some(code), message: format!("status {code}") }
}

/// A cluster that answers from what it holds and notes what it was asked.
struct Cluster {
    apply_job: Option<JobState>,
    pods: Vec<Pod>,
    logs: Vec<(String, String, String)>,
    secret: Option<Secret>,
    docker_config: Result<DockerConfig, String>,
    package_config: Result<PackageConfig, String>,
    status: AppInstanceStatus,
    create_answer: Result<(), KubeError>,
    roles_fail: bool,
    apply_job_goes: bool,
    cleanup_job_completes: bool,
    config_map_answer: Result<(), KubeError>,
    now: i64,
    asked: Vec<String>,
    created: Vec<Job>,
    fetched_with: Vec<RegistryAuth>,
}

impl Cluster {
    fn new() -> Self {
        Cluster {
            apply_job: None,
            pods: vec![],
            logs: vec![],
            secret: None,
            docker_config: Ok(DockerConfig::new()),
            package_config: Ok(package_config()),
            status: AppInstanceStatus::default(),
            create_answer: Ok(()),
            roles_fail: false,
            apply_job_goes: true,
            cleanup_job_completes: true,
            config_map_answer: Ok(()),
            now: 100,
            asked: vec![],
            created: vec![],
            fetched_with: vec![],
        }
    }

    fn apply(&mut self, like: &AppInstanceLike, ctx: &Context) -> Result<Action, Error> {
        let mut step = like.reconcile_apply();
        loop {
            step = match step {
                ApplyStep::Done(result) => return result,
                ApplyStep::GetJob { namespace, name } => {
                    self.asked.push(format!("get job {namespace}/{name}"));
                    like.after_get_job(Ok(self.apply_job.clone()))
                }
                ApplyStep::ApplyRoles { namespace, namespaced, cluster } => {
                    self.asked.push(format!(
                        "apply roles {namespace}/{} {}",
                        namespaced.role.metadata.name, cluster.role.metadata.name
                    ));
                    if self.roles_fail {
                        like.after_apply_roles(Err(Error::KubeError(api_error(403))))
                    } else {
                        like.after_apply_roles(Ok(()))
                    }
                }
                ApplyStep::GetSecret { namespace, name } => {
                    self.asked.push(format!("get secret {namespace}/{name}"));
                    match self.secret.clone() {
                        Some(secret) => like.after_get_secret(Ok(secret)),
                        None => like.after_get_secret(Err(Error::KubeError(api_error(404)))),
                    }
                }
                ApplyStep::DecodeDockerConfig { bytes } => {
                    self.asked.push(format!("decode {}", String::from_utf8_lossy(&bytes)));
                    like.after_decode_docker_config(self.docker_config.clone())
                }
                ApplyStep::FetchPackageConfig { image, auth } => {
                    self.asked.push(format!("fetch {image}"));
                    self.fetched_with.push(auth);
                    match self.package_config.clone() {
                        Ok(config) => like.after_fetch_package_config(ctx, Ok(config)),
                        Err(e) => like.after_fetch_package_config(
                            ctx,
                            Err(Error::OCI(kubit::oci::Error::Oci(e))),
                        ),
                    }
                }
                ApplyStep::CreateJob { namespace, job } => {
                    self.asked.push(format!("create job {namespace}/{}", job.metadata.name));
                    self.created.push(job);
                    like.after_create_job(self.create_answer.clone())
                }
                ApplyStep::ListPods { namespace, label_selector, outcome } => {
                    self.asked.push(format!("list pods {namespace} {label_selector}"));
                    like.after_list_pods(outcome, Ok(self.pods.clone()))
                }
                ApplyStep::GetLogs { namespace, sources, outcome } => {
                    let mut logs = vec![];
                    for source in &sources {
                        self.asked.push(format!(
                            "logs {namespace}/{}/{}",
                            source.pod, source.container
                        ));
                        let found = self
                            .logs
                            .iter()
                            .find(|(p, c, _)| *p == source.pod && *c == source.container)
                            .map(|(_, _, l)| l.clone())
                            .unwrap_or_default();
                        logs.push(found);
                    }
                    like.after_get_logs(outcome, sources, Ok(logs))
                }
                ApplyStep::GetStatus { namespace, name, change, agenda } => {
                    self.asked.push(format!("get status {namespace}/{name}"));
                    self.now += 1;
                    like.after_get_status_at(
                        change,
                        agenda,
                        Ok(self.status.clone()),
                        Time { seconds: self.now, nanos: 0 },
                    )
                }
                ApplyStep::UpdateStatus { namespace, name, status, agenda } => {
                    self.asked.push(format!("update status {namespace}/{name}"));
                    self.status = status;
                    like.after_update_status(agenda, Ok(()))
                }
                ApplyStep::DeleteJob { namespace, name, action } => {
                    self.asked.push(format!("delete job {namespace}/{name}"));
                    self.apply_job = None;
                    after_delete_job(action, Ok(()))
                }
            }
        }
    }

    fn delete(&mut self, like: &AppInstanceLike, ctx: &Context) -> Result<Action, Error> {
        let mut step = like.reconcile_delete();
        loop {
            step = match step {
                DeleteStep::Done(result) => return result,
                DeleteStep::GetApplyJob { namespace, name } => {
                    self.asked.push(format!("get job {namespace}/{name}"));
                    like.after_get_apply_job(Ok(self.apply_job.clone()))
                }
                DeleteStep::DeleteApplyJob { namespace, name, uid } => {
                    self.asked.push(format!("delete job {namespace}/{name}"));
                    like.after_delete_apply_job(uid, Ok(()))
                }
                DeleteStep::AwaitApplyJobDeleted { namespace, name, uid, timeout_seconds } => {
                    self.asked.push(format!(
                        "await deletion {namespace}/{name} {uid} {timeout_seconds}s"
                    ));
                    like.after_await_apply_job_deleted(self.apply_job_goes)
                }
                DeleteStep::ApplyRoles { namespace, namespaced } => {
                    self.asked
                        .push(format!("apply roles {namespace}/{}", namespaced.role.metadata.name));
                    like.after_apply_cleanup_roles(ctx, Ok(()))
                }
                DeleteStep::CreateCleanupJob { namespace, job } => {
                    self.asked.push(format!("create job {namespace}/{}", job.metadata.name));
                    self.created.push(job);
                    like.after_create_cleanup_job(self.create_answer.clone())
                }
                DeleteStep::AwaitCleanupJobCompleted { namespace, name, timeout_seconds } => {
                    self.asked
                        .push(format!("await completion {namespace}/{name} {timeout_seconds}s"));
                    like.after_await_cleanup_job(self.cleanup_job_completes)
                }
                DeleteStep::DeleteConfigMap { namespace, name } => {
                    self.asked.push(format!("delete config map {namespace}/{name}"));
                    after_delete_config_map(self.config_map_answer.clone())
                }
            }
        }
    }

    fn condition(&self, type_: &str) -> (String, String, String) {
        let c = self.status.conditions.iter().find(|c| c.type_ == type_).unwrap();
        (c.status.clone(), c.reason.clone(), c.message.clone())
    }
}

#[test]
fn an_idle_instance_gets_its_job() {
    let like = AppInstanceLike::from(demo(None));
    let mut cluster = Cluster::new();
    let action = cluster.apply(&like, &ctx()).unwrap();
    assert_eq!(action, Action::AwaitChange);
    assert_eq!(cluster.created.len(), 1);
    assert_eq!(cluster.created[0].metadata.name, "kubit-apply-demo");
    assert_eq!(
        cluster.created[0].init_containers[1].image,
        "ghcr.io/kubecfg/kubecfg/kubecfg:v0.34.2"
    );
    assert_eq!(
        cluster.condition("Reconcilier"),
        ("False".to_string(), "ExpandingTemplate".to_string(), String::new())
    );
    assert_eq!(cluster.status.conditions.len(), 1);
    assert!(matches!(cluster.fetched_with[..], [RegistryAuth::Anonymous]));
    assert_eq!(
        cluster.asked,
        [
            "get job ns1/kubit-apply-demo",
            "apply roles ns1/kubit-applier kubit-applier-crd",
            "fetch ghcr.io/kubecfg/kubit/package-demo:v1",
            "create job ns1/kubit-apply-demo",
            "get status ns1/demo",
            "update status ns1/demo",
        ]
    );
}

#[test]
fn a_job_that_exists_already_counts_as_created() {
    let like = AppInstanceLike::from(demo(None));
    let mut cluster = Cluster::new();
    cluster.create_answer = Err(api_error(409));
    assert_eq!(cluster.apply(&like, &ctx()).unwrap(), Action::AwaitChange);
    assert_eq!(cluster.condition("Reconcilier").1, "ExpandingTemplate");
}

#[test]
fn a_running_job_is_left_alone() {
    let like = AppInstanceLike::from(demo(None));
    let mut cluster = Cluster::new();
    cluster.apply_job = Some(job_state(&[]));
    assert_eq!(cluster.apply(&like, &ctx()).unwrap(), Action::AwaitChange);
    assert_eq!(cluster.asked, ["get job ns1/kubit-apply-demo"]);
    assert!(cluster.status.conditions.is_empty());
}

fn ended_pod(exit_code: i32) -> Pod {
    Pod {
        name: "kubit-apply-demo-abcde".to_string(),
        init_container_statuses: Some(vec![ContainerStatus {
            name: "render-manifests".to_string(),
            state: Some(ContainerState { waiting: false, terminated_exit_code: Some(exit_code) }),
        }]),
        container_statuses: Some(vec![ContainerStatus {
            name: "apply-manifests".to_string(),
            state: Some(ContainerState { waiting: true, terminated_exit_code: None }),
        }]),
    }
}

#[test]
fn a_complete_job_is_reported_and_deleted() {
    let like = AppInstanceLike::from(demo(None));
    let mut cluster = Cluster::new();
    cluster.apply_job = Some(job_state(&[("Complete", "True")]));
    cluster.pods = vec![ended_pod(0)];
    cluster.logs = vec![(
        "kubit-apply-demo-abcde".to_string(),
        "render-manifests".to_string(),
        "rendered\n".to_string(),
    )];
    let action = cluster.apply(&like, &ctx()).unwrap();
    assert_eq!(action, Action::AwaitChange);
    assert_eq!(
        cluster.condition("Reconcilier"),
        ("True".to_string(), "Succeeded".to_string(), String::new())
    );
    assert_eq!(
        cluster.condition("Ready"),
        ("True".to_string(), "JobCompletedSuccessfully".to_string(), String::new())
    );
    assert_eq!(
        cluster.status.last_logs,
        Some(vec![("render-manifests".to_string(), "rendered\n".to_string())])
    );
    assert!(cluster.apply_job.is_none());
    assert!(cluster.created.is_empty());
    assert_eq!(
        cluster.asked,
        [
            "get job ns1/kubit-apply-demo",
            "list pods ns1 job-name=kubit-apply-demo,controller-uid=c-42",
            "logs ns1/kubit-apply-demo-abcde/render-manifests",
            "get status ns1/demo",
            "update status ns1/demo",
            "get status ns1/demo",
            "update status ns1/demo",
            "get status ns1/demo",
            "update status ns1/demo",
            "delete job ns1/kubit-apply-demo",
        ]
    );
}

#[test]
fn a_failed_job_is_summed_up_and_retried_later() {
    let like = AppInstanceLike::from(demo(None));
    let mut cluster = Cluster::new();
    cluster.apply_job = Some(job_state(&[("Failed", "True")]));
    cluster.pods = vec![ended_pod(1)];
    cluster.logs = vec![(
        "kubit-apply-demo-abcde".to_string(),
        "render-manifests".to_string(),
        "line1\nline2\nline3\n".to_string(),
    )];
    let action = cluster.apply(&like, &ctx()).unwrap();
    assert_eq!(action, Action::Requeue(60));
    assert_eq!(
        cluster.condition("Reconcilier"),
        ("True".to_string(), "Failed".to_string(), String::new())
    );
    assert_eq!(
        cluster.condition("Ready"),
        ("False".to_string(), "JobFailed".to_string(), "line1\n...\nline3".to_string())
    );
    assert_eq!(
        cluster.status.last_logs,
        Some(vec![("render-manifests".to_string(), "line1\nline2\nline3\n".to_string())])
    );
    assert!(cluster.apply_job.is_none());
    // The two conditions were written one after the other.
    let times: Vec<i64> =
        cluster.status.conditions.iter().map(|c| c.last_transition_time.seconds).collect();
    assert_eq!(times, [102, 103]);
}

#[test]
fn reconciling_twice_creates_one_job() {
    let like = AppInstanceLike::from(demo(None));
    let mut cluster = Cluster::new();
    cluster.apply(&like, &ctx()).unwrap();
    // The job that was created is now there and running.
    cluster.apply_job = Some(job_state(&[]));
    let transition = cluster.status.conditions[0].last_transition_time;
    assert_eq!(cluster.apply(&like, &ctx()).unwrap(), Action::AwaitChange);
    assert_eq!(cluster.created.len(), 1);
    assert_eq!(cluster.status.conditions.len(), 1);
    assert_eq!(cluster.status.conditions[0].last_transition_time, transition);
}

#[test]
fn a_failed_launch_is_reported_in_both_conditions() {
    let like = AppInstanceLike::from(demo(Some(vec!["a", "b"])));
    let mut cluster = Cluster::new();
    let err = cluster.apply(&like, &ctx()).unwrap_err();
    assert!(matches!(err, Error::UnsupportedMultipleImagePullSecrets));
    assert!(cluster.created.is_empty());
    assert!(cluster.fetched_with.is_empty());
    assert_eq!(
        cluster.condition("Reconcilier"),
        ("False".to_string(), "Failed".to_string(), String::new())
    );
    assert_eq!(
        cluster.condition("Ready"),
        (
            "False".to_string(),
            "Failed".to_string(),
            "Cannot launch installation job: .spec.imagePullSecret currently requires to have exactly one pull secret".to_string()
        )
    );
    let types: Vec<&str> = cluster.status.conditions.iter().map(|c| c.type_.as_str()).collect();
    assert_eq!(types, ["Reconcilier", "Ready"]);
}

#[test]
fn a_failure_of_the_cluster_at_launch_is_surfaced() {
    let like = AppInstanceLike::from(demo(None));
    let mut cluster = Cluster::new();
    cluster.roles_fail = true;
    let err = cluster.apply(&like, &ctx()).unwrap_err();
    assert!(matches!(err, Error::KubeError(KubeError { code: Some(403), .. })));
    assert_eq!(
        cluster.condition("Ready").2,
        "Cannot launch installation job: Kube Error: status 403"
    );

    let mut cluster = Cluster::new();
    cluster.create_answer = Err(api_error(500));
    let err = cluster.apply(&like, &ctx()).unwrap_err();
    assert!(matches!(err, Error::KubeError(KubeError { code: Some(500), .. })));
    assert_eq!(cluster.condition("Reconcilier").1, "Failed");

    let mut cluster = Cluster::new();
    cluster.package_config = Err("manifest unknown".to_string());
    let err = cluster.apply(&like, &ctx()).unwrap_err();
    assert_eq!(err.to_string(), "OCI error: manifest unknown");
    assert!(cluster.created.is_empty());

    let mut cluster = Cluster::new();
    cluster.package_config = Ok(PackageConfig { pack: None, ..package_config() });
    let err = cluster.apply(&like, &ctx()).unwrap_err();
    assert_eq!(err.to_string(), "Missing metadata key: pack.kubecfg.dev/v1alpha1");
}

fn pull_secret(type_: &str, key: &str) -> Secret {
    Secret {
        type_: Some(type_.to_string()),
        data: Some(vec![(key.to_string(), b"{\"auths\":{}}".to_vec())]),
    }
}

#[test]
fn a_pull_secret_gives_the_credentials_for_the_registry() {
    let like = AppInstanceLike::from(demo(Some(vec!["regcred"])));
    let mut cluster = Cluster::new();
    cluster.secret = Some(pull_secret("kubernetes.io/dockerconfigjson", ".dockerconfigjson"));
    let mut config = DockerConfig::new();
    config.insert(
        "ghcr.io".to_string(),
        DockerCredentials::Composite { auth: "Zm9vOmh1bnRlcjEy".to_string() },
    );
    cluster.docker_config = Ok(config);
    assert_eq!(cluster.apply(&like, &ctx()).unwrap(), Action::AwaitChange);
    assert!(
        matches!(&cluster.fetched_with[..], [RegistryAuth::Basic(u, p)] if u == "foo" && p == "hunter12")
    );
    assert_eq!(cluster.asked[2], "get secret ns1/regcred");
    assert_eq!(cluster.asked[3], "decode {\"auths\":{}}");
    assert_eq!(cluster.created[0].volumes.len(), 3);
}

#[test]
fn a_pull_secret_that_is_none_fails_the_launch() {
    let like = AppInstanceLike::from(demo(Some(vec!["regcred"])));

    let mut cluster = Cluster::new();
    cluster.secret = Some(pull_secret("Opaque", ".dockerconfigjson"));
    let err = cluster.apply(&like, &ctx()).unwrap_err();
    assert!(matches!(&err, Error::BadImagePullSecretType(Some(t)) if t == "Opaque"));
    assert_eq!(
        err.to_string(),
        "Unsupported image pull secret type: Some(\"Opaque\"), should be kubernetes.io/dockerconfigjson"
    );

    let mut cluster = Cluster::new();
    cluster.secret = Some(pull_secret("kubernetes.io/dockerconfigjson", "config.json"));
    let err = cluster.apply(&like, &ctx()).unwrap_err();
    assert!(matches!(err, Error::NoDockerConfigJsonInImagePullSecret));

    let mut cluster = Cluster::new();
    cluster.secret = Some(Secret { type_: None, data: None });
    let err = cluster.apply(&like, &ctx()).unwrap_err();
    assert!(matches!(err, Error::BadImagePullSecretType(None)));

    let mut cluster = Cluster::new();
    cluster.secret = Some(pull_secret("kubernetes.io/dockerconfigjson", ".dockerconfigjson"));
    cluster.docker_config = Err("expected value at line 1 column 1".to_string());
    let err = cluster.apply(&like, &ctx()).unwrap_err();
    assert_eq!(
        err.to_string(),
        "Error decoding docker config JSON: Error deserializing JSON: expected value at line 1 column 1"
    );
    assert!(cluster.created.is_empty());

    let mut cluster = Cluster::new();
    cluster.secret = Some(pull_secret("kubernetes.io/dockerconfigjson", ".dockerconfigjson"));
    let mut config = DockerConfig::new();
    config.insert("ghcr.io".to_string(), DockerCredentials::Composite { auth: "Zm9v".to_string() });
    cluster.docker_config = Ok(config);
    let err = cluster.apply(&like, &ctx()).unwrap_err();
    assert!(matches!(
        err,
        Error::DecodeDockerConfig(kubit::docker_config::Error::MissingColon)
    ));
}

#[test]
fn an_image_that_is_no_reference_fails_the_launch() {
    let mut instance = demo(Some(vec!["regcred"]));
    instance.spec.package.image = "UPPER CASE".to_string();
    let like = AppInstanceLike::from(instance);
    let mut cluster = Cluster::new();
    cluster.secret = Some(pull_secret("kubernetes.io/dockerconfigjson", ".dockerconfigjson"));
    let err = cluster.apply(&like, &ctx()).unwrap_err();
    assert!(matches!(err, Error::OCIParseError(_)));
    assert!(err.to_string().starts_with("OCI error: "));
}

#[test]
fn an_instance_without_namespace_cannot_report() {
    let mut instance = demo(None);
    instance.metadata.namespace = None;
    let like = AppInstanceLike::from(instance);
    let mut cluster = Cluster::new();
    let err = cluster.apply(&like, &ctx()).unwrap_err();
    assert!(matches!(err, Error::NamespaceRequired));
    assert!(cluster.created.is_empty());
    assert!(cluster.status.conditions.is_empty());
    assert_eq!(cluster.asked[0], "get job /kubit-apply-demo");
}

#[test]
fn removal_deletes_the_job_then_cleans_up() {
    let like = AppInstanceLike::from(demo(None));
    let mut cluster = Cluster::new();
    cluster.apply_job = Some(job_state(&[]));
    let action = cluster.delete(&like, &ctx()).unwrap();
    assert_eq!(action, Action::AwaitChange);
    assert_eq!(cluster.created.len(), 1);
    assert_eq!(cluster.created[0].metadata.name, "kubit-cleanup-demo");
    assert_eq!(
        cluster.asked,
        [
            "get job ns1/kubit-apply-demo",
            "delete job ns1/kubit-apply-demo",
            "await deletion ns1/kubit-apply-demo job-uid 120s",
            "apply roles ns1/kubit-applier",
            "create job ns1/kubit-cleanup-demo",
            "await completion ns1/kubit-cleanup-demo 120s",
            "delete config map ns1/demo-cleanup",
        ]
    );
}

#[test]
fn a_job_that_does_not_go_in_time_blocks_the_removal() {
    let like = AppInstanceLike::from(demo(None));
    let mut cluster = Cluster::new();
    cluster.apply_job = Some(job_state(&[]));
    cluster.apply_job_goes = false;
    let err = cluster.delete(&like, &ctx()).unwrap_err();
    assert!(matches!(err, Error::ResourceDeletionTimeout));
    assert!(cluster.created.is_empty());
    assert_eq!(cluster.asked.len(), 3);
    assert!(!cluster.asked.iter().any(|a| a.starts_with("delete config map")));
}

#[test]
fn a_cleanup_that_does_not_complete_in_time_blocks_the_removal() {
    let like = AppInstanceLike::from(demo(None));
    let mut cluster = Cluster::new();
    cluster.apply_job = Some(job_state(&[]));
    cluster.cleanup_job_completes = false;
    let err = cluster.delete(&like, &ctx()).unwrap_err();
    assert!(matches!(err, Error::ResourceDeletionTimeout));
    assert!(!cluster.asked.iter().any(|a| a.starts_with("delete config map")));
}

#[test]
fn removal_without_an_install_job_still_cleans_up() {
    let like = AppInstanceLike::from(demo(None));
    let mut cluster = Cluster::new();
    cluster.config_map_answer = Err(api_error(404));
    assert_eq!(cluster.delete(&like, &ctx()).unwrap(), Action::AwaitChange);
    assert_eq!(cluster.created.len(), 1);
    assert_eq!(cluster.created[0].metadata.name, "kubit-cleanup-demo");
    assert_eq!(
        cluster.asked,
        [
            "get job ns1/kubit-apply-demo",
            "apply roles ns1/kubit-applier",
            "create job ns1/kubit-cleanup-demo",
            "await completion ns1/kubit-cleanup-demo 120s",
            "delete config map ns1/demo-cleanup",
        ]
    );
    let mut cluster = Cluster::new();
    cluster.config_map_answer = Err(api_error(500));
    let err = cluster.delete(&like, &ctx()).unwrap_err();
    assert!(matches!(err, Error::KubeError(KubeError { code: Some(500), .. })));
}

#[test]
fn a_cleanup_that_was_begun_is_gone_through_again() {
    let like = AppInstanceLike::from(demo(Some(vec!["a", "b"])));
    let mut cluster = Cluster::new();
    let err = cluster.delete(&like, &ctx()).unwrap_err();
    assert!(matches!(err, Error::UnsupportedMultipleImagePullSecrets));
    assert!(cluster.created.is_empty());
    assert!(!cluster.asked.iter().any(|a| a.starts_with("delete config map")));

    // The cleanup job of an earlier try is there already.
    let like = AppInstanceLike::from(demo(None));
    let mut cluster = Cluster::new();
    cluster.create_answer = Err(api_error(409));
    assert_eq!(cluster.delete(&like, &ctx()).unwrap(), Action::AwaitChange);
    assert_eq!(cluster.asked[1], "apply roles ns1/kubit-applier");
    assert_eq!(cluster.asked[3], "await completion ns1/kubit-cleanup-demo 120s");

    let mut cluster = Cluster::new();
    cluster.create_answer = Err(api_error(500));
    let err = cluster.delete(&like, &ctx()).unwrap_err();
    assert!(matches!(err, Error::KubeError(KubeError { code: Some(500), .. })));
    assert!(!cluster.asked.iter().any(|a| a.starts_with("delete config map")));
}

#[test]
fn each_operator_handles_its_share_of_the_instances() {
    let mut paused = demo(None);
    paused.spec.pause = true;
    let paused = AppInstanceLike::from(paused);
    let running = AppInstanceLike::from(demo(None));
    let normal = ctx();
    let only_paused = Context { only_paused: true, ..ctx() };
    assert_eq!(paused.reconcile(&normal), Some(Action::AwaitChange));
    assert_eq!(paused.reconcile(&only_paused), None);
    assert_eq!(running.reconcile(&normal), None);
    assert_eq!(running.reconcile(&only_paused), Some(Action::AwaitChange));
}

#[test]
fn a_job_with_a_later_failed_condition_has_failed() {
    let like = AppInstanceLike::from(demo(None));
    let mut cluster = Cluster::new();
    cluster.apply_job = Some(job_state(&[("Failed", "False"), ("Failed", "True")]));
    cluster.pods = vec![ended_pod(-1)];
    cluster.logs = vec![(
        "kubit-apply-demo-abcde".to_string(),
        "render-manifests".to_string(),
        "line1\nline2\nline3\n".to_string(),
    )];
    assert_eq!(cluster.apply(&like, &ctx()).unwrap(), Action::Requeue(60));
    assert_eq!(
        cluster.condition("Reconcilier"),
        ("True".to_string(), "Failed".to_string(), String::new())
    );
    assert_eq!(
        cluster.condition("Ready"),
        ("False".to_string(), "JobFailed".to_string(), "line1\n...\nline3".to_string())
    );
    assert!(cluster.apply_job.is_none());
}

#[test]
fn only_the_named_config_map_is_watched() {
    let named = |name: &str| ConfigMap {
        metadata: ObjectMeta { name: Some(name.to_string()), ..ObjectMeta::default() },
        data: None,
    };
    assert!(watches_config_map(&ctx(), &named("app-instance")));
    assert!(!watches_config_map(&ctx(), &named("other")));
    let unnamed = Context { config_map_name: None, ..ctx() };
    assert!(!watches_config_map(&unnamed, &named("app-instance")));
}
