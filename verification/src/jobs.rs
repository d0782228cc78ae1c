//! The jobs that install an instance and that clean up after it.

use vstd::prelude::*;
use crate::apply::apply_commandline;
use crate::controller::{AppInstanceLike, Context, APPLIER_SERVICE_ACCOUNT};
use crate::delete::{cleanup_hack_name, deletion_setup_commandline, prune_commandline};
use crate::objects::{
    Container, ContainerView, EnvVar, EnvVarView, Job, JobView, KeyToPath, KeyToPathView,
    ObjectHeader, ObjectHeaderView, Volume, VolumeMount, VolumeMountView, VolumeSource,
    VolumeSourceView, VolumeView,
};
use crate::render::{fetch_commandline, render_commandline, DockerHost};
use crate::resources::{AppInstance, AppInstanceLikeResources};
use crate::text::{join_words, joined};
use crate::Error;

verus! {

/// Seconds after which a job is given up.
pub const JOB_DEADLINE_SECONDS: i64 = 180;

/// Where the containers of the install job find the instance.
pub const OVERLAY_FILE: &'static str = "/overlay/appinstance.json";

/// How many pull secrets the instance names.
pub open spec fn pull_secret_count(instance: AppInstance) -> nat {
    match instance.spec.image_pull_secrets {
        Some(refs) => refs@.len(),
        None => 0,
    }
}

/// A volume that starts empty.
pub open spec fn empty_dir_spec(name: Seq<char>) -> VolumeView {
    VolumeView { name: name, source: VolumeSourceView::EmptyDir }
}

/// The volume that holds the registry credentials of the named secret, as a
/// docker configuration file.
pub open spec fn docker_volume_spec(secret_name: Option<Seq<char>>) -> VolumeView {
    VolumeView {
        name: "docker"@,
        source: VolumeSourceView::Secret {
            secret_name: secret_name,
            items: seq![KeyToPathView { key: ".dockerconfigjson"@, path: "config.json"@ }],
        },
    }
}

/// The volumes of a job: `base`, and the credentials volume where the
/// instance names exactly one pull secret.
pub open spec fn with_pull_secret(base: Seq<VolumeView>, instance: AppInstance) -> Seq<VolumeView> {
    if pull_secret_count(instance) == 1 {
        base.push(docker_volume_spec(instance.spec.image_pull_secrets->0@[0].name.deep_view()))
    } else {
        base
    }
}

/// Every volume mounted under its own name at the root.
pub open spec fn mounts_spec(volumes: Seq<VolumeView>) -> Seq<VolumeMountView> {
    volumes.map_values(|v: VolumeView| VolumeMountView { name: v.name, mount_path: "/"@ + v.name })
}

/// The environment of every container of a job.
pub open spec fn job_env_spec() -> Seq<EnvVarView> {
    seq![
        EnvVarView { name: "DOCKER_CONFIG"@, value: "/docker"@ },
        EnvVarView { name: "KUBECTL_APPLYSET"@, value: "true"@ },
    ]
}

/// A container of a job: it sees every volume and the common environment.
pub open spec fn job_container(
    name: Seq<char>,
    image: Seq<char>,
    command: Seq<Seq<char>>,
    args: Option<Seq<Seq<char>>>,
    volumes: Seq<VolumeView>,
) -> ContainerView {
    ContainerView {
        name: name,
        image: image,
        command: command,
        args: args,
        volume_mounts: mounts_spec(volumes),
        env: job_env_spec(),
    }
}

/// True when `r` is what building a job for `instance` comes to, where the
/// job, if one is built, is `job`: an instance needs a namespace and may name
/// one pull secret at most.
pub open spec fn is_job_of(instance: AppInstance, job: JobView, r: Result<Job, Error>) -> bool {
    if instance.metadata.namespace is None {
        r matches Err(Error::NamespaceRequired)
    } else if pull_secret_count(instance) >= 2 {
        r matches Err(Error::UnsupportedMultipleImagePullSecrets)
    } else {
        r matches Ok(j) && j@ == job
    }
}

impl AppInstanceLike {
    /// The header of the instance's job of the given type.
    pub open spec fn job_header_spec(&self, job_type: Seq<char>) -> ObjectHeaderView {
        ObjectHeaderView {
            name: self.job_name_spec(job_type),
            namespace: self.instance_spec().metadata.namespace.deep_view(),
            owner_references: self.owned_by_spec(),
        }
    }

    /// The init containers of the install job: the first fetches the instance
    /// from its carrier into the overlay volume, the second renders the
    /// package into the manifests volume.
    pub open spec fn init_containers_spec(
        &self,
        ns: Seq<char>,
        kubecfg_image: Seq<char>,
        kubit_image: Seq<char>,
        volumes: Seq<VolumeView>,
    ) -> Seq<ContainerView> {
        seq![
            match self.carrier_spec() {
                AppInstanceLikeResources::AppInstance(_) => job_container(
                    "fetch-app-instance"@,
                    kubit_image,
                    fetch_commandline(
                        "fetch-app-instance"@,
                        ns,
                        self.name_any_spec(),
                        OVERLAY_FILE@,
                    ),
                    None,
                    volumes,
                ),
                AppInstanceLikeResources::ConfigMap(_) => job_container(
                    "fetch-config-map"@,
                    kubit_image,
                    fetch_commandline(
                        "fetch-app-instance-from-config-map"@,
                        ns,
                        self.name_any_spec(),
                        OVERLAY_FILE@,
                    ),
                    None,
                    volumes,
                ),
            },
            job_container(
                "render-manifests"@,
                kubecfg_image,
                render_commandline(
                    self.instance_spec().spec.package.image@,
                    OVERLAY_FILE@,
                    Some("/manifests"@),
                    false,
                    false,
                    Seq::empty(),
                    Seq::empty(),
                    Seq::empty(),
                    Seq::empty(),
                    Seq::empty(),
                ),
                None,
                volumes,
            ),
        ]
    }

    /// The job that installs the instance with `kubecfg_image`: fetch the
    /// instance, render the package, apply the manifests.
    pub open spec fn apply_job_spec(&self, ctx: &Context, kubecfg_image: Seq<char>) -> JobView {
        let instance = self.instance_spec();
        let volumes = with_pull_secret(
            seq![empty_dir_spec("overlay"@), empty_dir_spec("manifests"@)],
            instance,
        );
        JobView {
            metadata: self.job_header_spec("apply"@),
            backoff_limit: 0,
            service_account: APPLIER_SERVICE_ACCOUNT@,
            restart_policy: "Never"@,
            active_deadline_seconds: JOB_DEADLINE_SECONDS,
            volumes: volumes,
            init_containers: self.init_containers_spec(
                instance.metadata.namespace_any_spec(),
                kubecfg_image,
                ctx.kubit_image@,
                volumes,
            ),
            containers: seq![
                job_container(
                    "apply-manifests"@,
                    ctx.kubectl_image_apply@,
                    apply_commandline(
                        instance.metadata.namespace_any_spec(),
                        instance.metadata.name_any_spec(),
                        "/manifests"@,
                        None,
                        false,
                        ctx.kubectl_image_apply@,
                        Seq::empty(),
                    ),
                    None,
                    volumes,
                ),
            ],
        }
    }

    /// Where the cleanup job writes the placeholder config map.
    pub open spec fn cleanup_file_spec(&self) -> Seq<char> {
        "/manifests/cm-"@ + cleanup_hack_name(self.name_any_spec())
    }

    /// The job that removes what the instance installed: write the
    /// placeholder config map, then apply it alone, which prunes the rest.
    pub open spec fn cleanup_job_spec(&self, ctx: &Context) -> JobView {
        let instance = self.instance_spec();
        let volumes = with_pull_secret(seq![empty_dir_spec("manifests"@)], instance);
        JobView {
            metadata: self.job_header_spec("cleanup"@),
            backoff_limit: 0,
            service_account: APPLIER_SERVICE_ACCOUNT@,
            restart_policy: "Never"@,
            active_deadline_seconds: JOB_DEADLINE_SECONDS,
            volumes: volumes,
            init_containers: seq![
                job_container(
                    "setup-delete"@,
                    ctx.kubectl_image_apply@,
                    seq!["/bin/sh"@],
                    Some(
                        seq![
                            "-c"@,
                            joined(
                                deletion_setup_commandline(
                                    instance.metadata.namespace_any_spec(),
                                    self.name_any_spec(),
                                    self.cleanup_file_spec(),
                                    false,
                                    Seq::empty(),
                                ),
                                " "@,
                            ),
                        ],
                    ),
                    volumes,
                ),
            ],
            containers: seq![
                job_container(
                    "cleanup-manifests"@,
                    ctx.kubectl_image_render@,
                    prune_commandline(
                        instance.metadata.namespace_any_spec(),
                        instance.metadata.name_any_spec(),
                        self.cleanup_file_spec(),
                        false,
                        Seq::empty(),
                    ),
                    None,
                    volumes,
                ),
            ],
        }
    }
}

/// True when `volumes` hold a volume of registry credentials.
pub open spec fn has_docker_volume(volumes: Seq<VolumeView>) -> bool {
    exists|i: int| 0 <= i < volumes.len() && (#[trigger] volumes[i]).source is Secret
}

/// A job is built with the credentials volume exactly when the instance names
/// one pull secret, and then every container mounts it; where the instance
/// names more than one, no job is built at all. This holds for the install job
/// and for the cleanup job.
pub proof fn lemma_pull_secret_decides_volume(
    like: &AppInstanceLike,
    ctx: &Context,
    kubecfg_image: Seq<char>,
    apply: Result<Job, Error>,
    cleanup: Result<Job, Error>,
)
    requires
        is_job_of(like.instance_spec(), like.apply_job_spec(ctx, kubecfg_image), apply),
        is_job_of(like.instance_spec(), like.cleanup_job_spec(ctx), cleanup),
        like.instance_spec().metadata.namespace is Some,
    ensures
        pull_secret_count(like.instance_spec()) >= 2 ==> (apply matches Err(
            Error::UnsupportedMultipleImagePullSecrets,
        )) && (cleanup matches Err(Error::UnsupportedMultipleImagePullSecrets)),
        pull_secret_count(like.instance_spec()) <= 1 ==> apply is Ok && cleanup is Ok,
        apply matches Ok(job) ==> (has_docker_volume(job@.volumes) <==> pull_secret_count(
            like.instance_spec(),
        ) == 1) && job@.containers[0].volume_mounts.len() == job@.volumes.len()
            && job@.init_containers[0].volume_mounts.len() == job@.volumes.len()
            && job@.init_containers[1].volume_mounts.len() == job@.volumes.len(),
        cleanup matches Ok(job) ==> (has_docker_volume(job@.volumes) <==> pull_secret_count(
            like.instance_spec(),
        ) == 1) && job@.containers[0].volume_mounts.len() == job@.volumes.len()
            && job@.init_containers[0].volume_mounts.len() == job@.volumes.len(),
{
    let instance = like.instance_spec();
    let apply_volumes = like.apply_job_spec(ctx, kubecfg_image).volumes;
    let cleanup_volumes = like.cleanup_job_spec(ctx).volumes;
    if pull_secret_count(instance) == 1 {
        assert(apply_volumes[2].source is Secret);
        assert(cleanup_volumes[1].source is Secret);
    } else {
        assert(!has_docker_volume(apply_volumes)) by {
            assert forall|i: int| 0 <= i < apply_volumes.len() implies (
            #[trigger] apply_volumes[i]).source is EmptyDir by {}
        }
        assert(!has_docker_volume(cleanup_volumes)) by {
            assert forall|i: int| 0 <= i < cleanup_volumes.len() implies (
            #[trigger] cleanup_volumes[i]).source is EmptyDir by {}
        }
    }
}

/// A volume that starts empty.
pub fn empty_dir(name: &str) -> (r: Volume)
    ensures
        r@ == empty_dir_spec(name@),
{
    Volume { name: String::from_str(name), source: VolumeSource::EmptyDir }
}

/// The volume that holds the registry credentials of the named secret.
pub fn docker_volume(secret_name: Option<String>) -> (r: Volume)
    ensures
        r@ == docker_volume_spec(secret_name.deep_view()),
{
    let mut items: Vec<KeyToPath> = Vec::new();
    items.push(
        KeyToPath { key: String::from_str(".dockerconfigjson"), path: String::from_str("config.json") },
    );
    proof {
        assert(items.deep_view() =~= seq![
            KeyToPathView { key: ".dockerconfigjson"@, path: "config.json"@ },
        ]);
    }
    Volume {
        name: String::from_str("docker"),
        source: VolumeSource::Secret { secret_name: secret_name, items: items },
    }
}

/// Adds the credentials volume to `volumes` where the instance names exactly
/// one pull secret; fails where it names more.
pub fn add_pull_secret(volumes: &mut Vec<Volume>, instance: &AppInstance) -> (r: Result<(), Error>)
    ensures
        if pull_secret_count(*instance) >= 2 {
            r matches Err(Error::UnsupportedMultipleImagePullSecrets)
        } else {
            r is Ok && final(volumes).deep_view() == with_pull_secret(
                old(volumes).deep_view(),
                *instance,
            )
        },
{
    match &instance.spec.image_pull_secrets {
        Some(refs) => {
            if refs.len() >= 2 {
                return Err(Error::UnsupportedMultipleImagePullSecrets);
            }
            if refs.len() == 1 {
                let secret_name = match &refs[0].name {
                    Some(n) => Some(n.clone()),
                    None => None,
                };
                let volume = docker_volume(secret_name);
                volumes.push(volume);
                proof {
                    assert(volumes.deep_view() =~= old(volumes).deep_view().push(volume@));
                }
            }
            Ok(())
        },
        None => Ok(()),
    }
}

/// Every volume mounted under its own name at the root.
pub fn mounts_for(volumes: &Vec<Volume>) -> (r: Vec<VolumeMount>)
    ensures
        r.deep_view() == mounts_spec(volumes.deep_view()),
{
    let mut mounts: Vec<VolumeMount> = Vec::new();
    let mut i: usize = 0;
    while i < volumes.len()
        invariant
            i <= volumes.len(),
            mounts.deep_view() == mounts_spec(volumes.deep_view().take(i as int)),
        decreases volumes.len() - i,
    {
        let name = volumes[i].name.clone();
        let mount_path = String::from_str("/").concat(name.as_str());
        let ghost before = mounts.deep_view();
        let mount = VolumeMount { name: name, mount_path: mount_path };
        mounts.push(mount);
        proof {
            assert(volumes.deep_view()[i as int] == volumes@[i as int]@);
            assert(mounts.deep_view() =~= before.push(mount@));
            assert(volumes.deep_view().take(i + 1) =~= volumes.deep_view().take(i as int).push(
                volumes@[i as int]@,
            ));
            assert(mounts.deep_view() =~= mounts_spec(volumes.deep_view().take(i + 1)));
        }
        i += 1;
    }
    proof {
        assert(volumes.deep_view().take(volumes.len() as int) =~= volumes.deep_view());
    }
    mounts
}

/// The environment of every container of a job.
pub fn job_env() -> (r: Vec<EnvVar>)
    ensures
        r.deep_view() == job_env_spec(),
{
    let mut env: Vec<EnvVar> = Vec::new();
    env.push(EnvVar { name: String::from_str("DOCKER_CONFIG"), value: String::from_str("/docker") });
    env.push(
        EnvVar { name: String::from_str("KUBECTL_APPLYSET"), value: String::from_str("true") },
    );
    proof {
        assert(env.deep_view() =~= job_env_spec());
    }
    env
}

/// A container of a job.
pub fn container(
    name: &str,
    image: String,
    command: Vec<String>,
    args: Option<Vec<String>>,
    volumes: &Vec<Volume>,
) -> (r: Container)
    ensures
        r@ == job_container(
            name@,
            image@,
            command.deep_view(),
            args.deep_view(),
            volumes.deep_view(),
        ),
{
    Container {
        name: String::from_str(name),
        image: image,
        command: command,
        args: args,
        volume_mounts: mounts_for(volumes),
        env: job_env(),
    }
}

impl AppInstanceLike {
    /// The header of the instance's job of the given type.
    pub fn job_header(&self, job_type: &str) -> (r: ObjectHeader)
        ensures
            r@ == self.job_header_spec(job_type@),
    {
        ObjectHeader {
            name: self.job_name_for(job_type),
            namespace: self.instance().namespace(),
            owner_references: self.owned_by(),
        }
    }

    /// The init containers of the install job.
    pub fn init_containers(
        &self,
        ns: &str,
        kubecfg_image: &str,
        kubit_image: &str,
        volumes: &Vec<Volume>,
    ) -> (r: Vec<Container>)
        ensures
            r.deep_view() == self.init_containers_spec(
                ns@,
                kubecfg_image@,
                kubit_image@,
                volumes.deep_view(),
            ),
    {
        let name = self.name_any();
        let fetch_container = match self.carrier() {
            AppInstanceLikeResources::AppInstance(_) => container(
                "fetch-app-instance",
                String::from_str(kubit_image),
                crate::render::emit_fetch_app_instance_commandline(ns, name.as_str(), OVERLAY_FILE),
                None,
                volumes,
            ),
            AppInstanceLikeResources::ConfigMap(_) => container(
                "fetch-config-map",
                String::from_str(kubit_image),
                crate::render::emit_fetch_appinstance_from_config_map_commandline(
                    ns,
                    name.as_str(),
                    OVERLAY_FILE,
                ),
                None,
                volumes,
            ),
        };
        let host = DockerHost {
            kube_config: String::new(),
            docker_config: String::new(),
            overlay_path: String::new(),
            overlay_file_name: String::new(),
            kubecfg_image: String::new(),
        };
        let render_container = container(
            "render-manifests",
            String::from_str(kubecfg_image),
            crate::render::emit_commandline(
                self.instance(),
                OVERLAY_FILE,
                Some("/manifests"),
                false,
                false,
                &host,
            ),
            None,
            volumes,
        );
        let mut containers: Vec<Container> = Vec::new();
        containers.push(fetch_container);
        containers.push(render_container);
        proof {
            assert(containers.deep_view() =~= self.init_containers_spec(
                ns@,
                kubecfg_image@,
                kubit_image@,
                volumes.deep_view(),
            ));
        }
        containers
    }

    /// The job that installs the instance with `kubecfg_image`. The instance
    /// needs a namespace. It may name one pull secret, whose credentials the
    /// containers then see in a volume; with none there is no such volume, and
    /// with more no job is built.
    pub fn create_job(&self, kubecfg_image: String, ctx: &Context) -> (r: Result<Job, Error>)
        ensures
            is_job_of(self.instance_spec(), self.apply_job_spec(ctx, kubecfg_image@), r),
    {
        let instance = self.instance();
        let ns = match instance.namespace() {
            Some(ns) => ns,
            None => {
                return Err(Error::NamespaceRequired);
            },
        };
        let mut volumes: Vec<Volume> = Vec::new();
        volumes.push(empty_dir("overlay"));
        volumes.push(empty_dir("manifests"));
        proof {
            assert(volumes.deep_view() =~= seq![
                empty_dir_spec("overlay"@),
                empty_dir_spec("manifests"@),
            ]);
        }
        match add_pull_secret(&mut volumes, instance) {
            Err(e) => {
                return Err(e);
            },
            Ok(_) => {},
        }
        let init_containers = self.init_containers(
            ns.as_str(),
            kubecfg_image.as_str(),
            ctx.kubit_image.as_str(),
            &volumes,
        );
        let none: Option<String> = None;
        let apply_container = container(
            "apply-manifests",
            ctx.apply_step_image(),
            crate::apply::emit_commandline(
                instance,
                "/manifests",
                &none,
                false,
                ctx.apply_step_image().as_str(),
                "",
            ),
            None,
            &volumes,
        );
        let mut containers: Vec<Container> = Vec::new();
        containers.push(apply_container);
        proof {
            reveal_strlit("");
            assert(""@ =~= Seq::<char>::empty());
            assert(containers.deep_view() =~= seq![apply_container@]);
        }
        Ok(
            Job {
                metadata: self.job_header("apply"),
                backoff_limit: 0,
                service_account: String::from_str(APPLIER_SERVICE_ACCOUNT),
                restart_policy: String::from_str("Never"),
                active_deadline_seconds: JOB_DEADLINE_SECONDS,
                volumes: volumes,
                init_containers: init_containers,
                containers: containers,
            },
        )
    }

    /// The job that removes what the instance installed. The same rules on
    /// namespace and pull secrets hold as for the install job.
    pub fn launch_cleanup_job(&self, ctx: &Context) -> (r: Result<Job, Error>)
        ensures
            is_job_of(self.instance_spec(), self.cleanup_job_spec(ctx), r),
    {
        let instance = self.instance();
        if instance.namespace().is_none() {
            return Err(Error::NamespaceRequired);
        }
        let mut volumes: Vec<Volume> = Vec::new();
        volumes.push(empty_dir("manifests"));
        proof {
            assert(volumes.deep_view() =~= seq![empty_dir_spec("manifests"@)]);
        }
        match add_pull_secret(&mut volumes, instance) {
            Err(e) => {
                return Err(e);
            },
            Ok(_) => {},
        }
        let name = self.name_any();
        let cleanup_file = String::from_str("/manifests/cm-").concat(
            crate::delete::cleanup_hack_resource_name(name.as_str()).as_str(),
        );
        let setup = crate::delete::emit_deletion_setup(
            instance,
            name.as_str(),
            cleanup_file.as_str(),
            false,
            "",
        );
        let mut command: Vec<String> = Vec::new();
        command.push(String::from_str("/bin/sh"));
        let mut args: Vec<String> = Vec::new();
        args.push(String::from_str("-c"));
        args.push(join_words(&setup, " "));
        proof {
            reveal_strlit("");
            assert(""@ =~= Seq::<char>::empty());
            assert(command.deep_view() =~= seq!["/bin/sh"@]);
            assert(args.deep_view() =~= seq!["-c"@, joined(setup.deep_view(), " "@)]);
        }
        // The setup step needs an image with a shell in it, for the
        // redirection into a file.
        let setup_container = container(
            "setup-delete",
            ctx.apply_step_image(),
            command,
            Some(args),
            &volumes,
        );
        let cleanup_container = container(
            "cleanup-manifests",
            ctx.render_step_image(),
            crate::delete::emit_commandline(instance, cleanup_file.as_str(), false, ""),
            None,
            &volumes,
        );
        let mut init_containers: Vec<Container> = Vec::new();
        init_containers.push(setup_container);
        let mut containers: Vec<Container> = Vec::new();
        containers.push(cleanup_container);
        proof {
            assert(init_containers.deep_view() =~= seq![setup_container@]);
            assert(containers.deep_view() =~= seq![cleanup_container@]);
        }
        Ok(
            Job {
                metadata: self.job_header("cleanup"),
                backoff_limit: 0,
                service_account: String::from_str(APPLIER_SERVICE_ACCOUNT),
                restart_policy: String::from_str("Never"),
                active_deadline_seconds: JOB_DEADLINE_SECONDS,
                volumes: volumes,
                init_containers: init_containers,
                containers: containers,
            },
        )
    }
}

} // verus!
