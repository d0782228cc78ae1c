use kubit::controller::{
    error_policy_app_instance, error_policy_config_map, handle_resource_exists, Action, Context,
};
use kubit::credentials::{
    auth_for_registry, docker_config_json, has_named_pull_secret, pull_secret_name, registry_auth,
};
use kubit::docker_config::{DockerConfig, DockerCredentials};
use kubit::helpers::app_instance_payload;
use kubit::objects::Secret;
use kubit::oci::{image_registry, KubecfgPackageMetadata, PackageConfig, RegistryAuth};
use kubit::resources::{
    AppInstance, AppInstanceSpec, ConfigMap, LocalObjectReference, ObjectMeta, Package,
};
use kubit::{Error, KubeError};

fn config() -> PackageConfig {
    PackageConfig {
        entrypoint: "demo.jsonnet".to_string(),
        pack: Some(Ok(KubecfgPackageMetadata { version: "v0.34.2".to_string() })),
        kubit_schema: Some(Some(Ok("{\n  \"type\": \"object\"\n}".to_string()))),
        image_list: Some(Some(Ok(vec!["a:1".to_string(), "b:2".to_string()]))),
    }
}

#[test]
fn the_kubecfg_image_takes_the_version_of_the_package() {
    assert_eq!(
        config().versioned_kubecfg_image("ghcr.io/kubecfg/kubecfg/kubecfg").unwrap(),
        "ghcr.io/kubecfg/kubecfg/kubecfg:v0.34.2"
    );
    assert_eq!(config().kubecfg_package_metadata().unwrap().version, "v0.34.2");
    assert_eq!(config().schema().unwrap(), "{\n  \"type\": \"object\"\n}");
    assert_eq!(config().images().unwrap(), ["a:1", "b:2"]);
}

#[test]
fn missing_or_unreadable_metadata_are_told_apart() {
    let missing = PackageConfig { pack: None, kubit_schema: None, image_list: None, ..config() };
    assert!(matches!(missing.kubecfg_package_metadata(), Err(kubit::oci::Error::MissingMetadataKeyPack)));
    assert!(matches!(missing.versioned_kubecfg_image("k"), Err(kubit::oci::Error::MissingMetadataKeyPack)));
    assert!(matches!(missing.schema(), Err(kubit::oci::Error::MissingMetadataKeyKubit)));
    assert!(matches!(missing.images(), Err(kubit::oci::Error::MissingMetadataKeyImageList)));
    let partial = PackageConfig {
        pack: Some(Err("missing field `version`".to_string())),
        kubit_schema: Some(None),
        image_list: Some(None),
        ..config()
    };
    assert!(
        matches!(partial.versioned_kubecfg_image("k"), Err(kubit::oci::Error::DecodeKubecfgPackageMetadata(m)) if m == "missing field `version`")
    );
    assert!(matches!(partial.schema(), Err(kubit::oci::Error::MissingMetadataKeyKubitSchema)));
    assert!(matches!(partial.images(), Err(kubit::oci::Error::MissingMetadataKeyImageListImages)));
    let broken = PackageConfig {
        kubit_schema: Some(Some(Err("x".to_string()))),
        image_list: Some(Some(Err("y".to_string()))),
        ..config()
    };
    assert!(matches!(broken.schema(), Err(kubit::oci::Error::SerializeJSONSchema(m)) if m == "x"));
    assert!(matches!(broken.images(), Err(kubit::oci::Error::SerializeImageList(m)) if m == "y"));
}

#[test]
fn the_registry_is_the_domain_of_the_reference() {
    assert_eq!(image_registry("ghcr.io/kubecfg/kubit/package-demo:v1").unwrap(), "ghcr.io");
    assert_eq!(image_registry("busybox").unwrap(), "docker.io");
    assert_eq!(image_registry("localhost/repo").unwrap(), "localhost");
    assert_eq!(image_registry("test:5000/repo:tag").unwrap(), "test:5000");
    assert_eq!(image_registry("index.docker.io/library/busybox").unwrap(), "docker.io");
    assert!(matches!(image_registry(""), Err(kubit::oci::Error::OciParse(_))));
    assert!(matches!(image_registry("Not A Reference"), Err(kubit::oci::Error::OciParse(_))));
    let e = image_registry("").unwrap_err();
    assert_eq!(e.to_string(), "OCI error: repository name must have at least one component");
}

fn instance(image: &str, pull_secrets: Option<Vec<Option<&str>>>, namespace: Option<&str>) -> AppInstance {
    AppInstance {
        metadata: ObjectMeta {
            name: Some("demo".to_string()),
            generate_name: None,
            namespace: namespace.map(|n| n.to_string()),
            uid: None,
        },
        spec: AppInstanceSpec {
            package: Package { image: image.to_string(), ..Package::default() },
            image_pull_secrets: pull_secrets.map(|names| {
                names
                    .into_iter()
                    .map(|n| LocalObjectReference { name: n.map(|n| n.to_string()) })
                    .collect()
            }),
            pause: false,
        },
        status: None,
    }
}

#[test]
fn the_pull_secret_is_named_once_or_not_at_all() {
    assert_eq!(pull_secret_name(&instance("i", None, None)).unwrap(), None);
    assert_eq!(pull_secret_name(&instance("i", Some(vec![]), None)).unwrap(), None);
    assert_eq!(
        pull_secret_name(&instance("i", Some(vec![Some("regcred")]), Some("ns1"))).unwrap(),
        Some("regcred".to_string())
    );
    assert!(matches!(
        pull_secret_name(&instance("i", Some(vec![Some("regcred")]), None)),
        Err(Error::NamespaceRequired)
    ));
    assert!(matches!(
        pull_secret_name(&instance("i", Some(vec![Some("a"), None]), Some("ns1"))),
        Err(Error::UnsupportedMultipleImagePullSecrets)
    ));
    assert!(has_named_pull_secret(&instance("i", Some(vec![None, None]), None)));
    assert!(has_named_pull_secret(&instance("i", Some(vec![Some("a")]), None)));
    assert!(!has_named_pull_secret(&instance("i", Some(vec![None]), None)));
    assert!(has_named_pull_secret(&instance("i", None, None)));
}

#[test]
fn the_docker_configuration_is_read_out_of_the_secret() {
    let secret = Secret {
        type_: Some("kubernetes.io/dockerconfigjson".to_string()),
        data: Some(vec![
            ("other".to_string(), vec![1]),
            (".dockerconfigjson".to_string(), vec![2, 3]),
            (".dockerconfigjson".to_string(), vec![4]),
        ]),
    };
    assert_eq!(docker_config_json(&secret).unwrap(), [2, 3]);
    let empty = Secret { data: None, ..secret.clone() };
    assert!(matches!(
        docker_config_json(&empty),
        Err(Error::NoDockerConfigJsonInImagePullSecret)
    ));
    let wrong = Secret { type_: Some("kubernetes.io/dockercfg".to_string()), ..secret };
    assert!(
        matches!(docker_config_json(&wrong), Err(Error::BadImagePullSecretType(Some(t))) if t == "kubernetes.io/dockercfg")
    );
}

#[test]
fn credentials_are_looked_up_by_the_registry_of_the_image() {
    let mut docker_config = DockerConfig::new();
    docker_config.insert(
        "ghcr.io".to_string(),
        DockerCredentials::Split { username: "u".to_string(), password: "p".to_string() },
    );
    let auth =
        registry_auth(&instance("ghcr.io/kubecfg/kubit/package-demo:v1", None, None), &docker_config);
    assert!(matches!(auth, Ok(RegistryAuth::Basic(u, p)) if u == "u" && p == "p"));
    let auth = registry_auth(&instance("quay.io/some/image", None, None), &docker_config);
    assert!(matches!(auth, Ok(RegistryAuth::Anonymous)));
    let auth = registry_auth(&instance("", None, None), &docker_config);
    assert!(matches!(auth, Err(Error::OCIParseError(_))));
    // The registry as the reference names it, not as the image spells it.
    let auth = auth_for_registry(Ok("ghcr.io".to_string()), &docker_config);
    assert!(matches!(auth, Ok(RegistryAuth::Basic(_, _))));
    let auth = auth_for_registry(Err(kubit::oci::Error::OciParse("bad".to_string())), &docker_config);
    assert!(matches!(auth, Err(Error::OCIParseError(m)) if m == "bad"));
    let auth = auth_for_registry(Err(kubit::oci::Error::UnsupportedManifestIndex), &docker_config);
    assert!(matches!(auth, Err(Error::OCI(kubit::oci::Error::UnsupportedManifestIndex))));
}

#[test]
fn an_object_that_exists_already_is_no_failure() {
    assert!(handle_resource_exists(Ok(())).is_ok());
    let conflict = KubeError { code: Some(409), message: "exists".to_string() };
    assert!(handle_resource_exists(Err(conflict)).is_ok());
    let forbidden = KubeError { code: Some(403), message: "forbidden".to_string() };
    assert!(matches!(
        handle_resource_exists(Err(forbidden)),
        Err(Error::KubeError(KubeError { code: Some(403), .. }))
    ));
    let broken = KubeError { code: None, message: "connection reset".to_string() };
    assert!(matches!(
        handle_resource_exists(Err(broken)),
        Err(Error::KubeError(KubeError { code: None, .. }))
    ));
}

#[test]
fn every_failure_is_retried_after_five_seconds() {
    let ctx = Context {
        kubecfg_image: String::new(),
        kubit_image: String::new(),
        kubectl_image_apply: "apply".to_string(),
        kubectl_image_render: "render".to_string(),
        config_map_name: None,
        only_paused: false,
    };
    assert_eq!(ctx.apply_step_image(), "apply");
    assert_eq!(ctx.render_step_image(), "render");
    assert_eq!(
        error_policy_app_instance(&AppInstance::default(), &Error::NamespaceRequired, &ctx),
        Action::Requeue(5)
    );
    assert_eq!(
        error_policy_config_map(&ConfigMap::default(), &Error::ResourceDeletionTimeout, &ctx),
        Action::Requeue(5)
    );
}

#[test]
fn a_config_map_holds_its_instance_under_one_key() {
    let full = ConfigMap {
        metadata: ObjectMeta::default(),
        data: Some(vec![
            ("status".to_string(), "{}".to_string()),
            ("app-instance".to_string(), "spec: {}".to_string()),
        ]),
    };
    assert_eq!(app_instance_payload(&full, "cm").unwrap(), "spec: {}");
    assert_eq!(full.value_of("status").as_deref(), Some("{}"));
    assert_eq!(full.value_of("other"), None);
    let other = ConfigMap { data: Some(vec![]), ..full.clone() };
    assert_eq!(
        app_instance_payload(&other, "cm").unwrap_err(),
        "ConfigMap cm data did not have an app-instance field"
    );
    let empty = ConfigMap { data: None, ..full };
    assert_eq!(
        app_instance_payload(&empty, "cm").unwrap_err(),
        "ConfigMap cm did not have a data field"
    );
}

#[test]
fn errors_in_words() {
    let cases: Vec<(Error, &str)> = vec![
        (
            Error::KubeError(KubeError { code: Some(500), message: "boom".to_string() }),
            "Kube Error: boom",
        ),
        (Error::OCI(kubit::oci::Error::MissingMetadataKeyKubit), "Missing metadata key: kubit.kubecfg.dev/v1alpha1"),
        (Error::OCIParseError("bad".to_string()), "OCI error: bad"),
        (Error::UnsupportedManifestIndex, "Unsupported manifest type: Index"),
        (Error::DecodePackageConfig("e".to_string()), "Error decoding package config JSON: e"),
        (
            Error::DecodeKubecfgPackageMetadata("e".to_string()),
            "Error decoding kubecfg pack metadata JSON: e",
        ),
        (Error::RenderOverlay("e".to_string()), "Error rendering spec back as JSON: e"),
        (Error::IOError("e".to_string()), "IO Error: e"),
        (Error::TempfilePersistError("e".to_string()), "Internal error: e"),
        (Error::NamespaceRequired, "Namespace is required"),
        (
            Error::UnsupportedMultipleImagePullSecrets,
            ".spec.imagePullSecret currently requires to have exactly one pull secret",
        ),
        (
            Error::NoDockerConfigJsonInImagePullSecret,
            "Image pull secret doesn't contain .dockerconfigjson",
        ),
        (
            Error::DecodeDockerConfig(kubit::docker_config::Error::MissingColon),
            "Error decoding docker config JSON: Missing colon in auth field",
        ),
        (
            Error::BadImagePullSecretType(None),
            "Unsupported image pull secret type: None, should be kubernetes.io/dockerconfigjson",
        ),
        (
            Error::BadImagePullSecretType(Some("a\"b".to_string())),
            "Unsupported image pull secret type: Some(\"a\\\"b\"), should be kubernetes.io/dockerconfigjson",
        ),
        (Error::InvalidConfigMap("e".to_string()), "Invalid ConfigMap: e"),
        (Error::InvalidConfigMapStatus("e".to_string()), "Invalid ConfigMap status: e"),
        (Error::FinalizerError("e".to_string()), "Finalizer Error: e"),
        (Error::ResourceDeletionTimeout, "Timed out waiting for a resource to be deleted"),
    ];
    for (error, words) in cases {
        assert_eq!(error.to_string(), words);
    }
    let oci: Vec<(kubit::oci::Error, &str)> = vec![
        (kubit::oci::Error::UnsupportedManifestIndex, "Unsupported manifest type: Index"),
        (kubit::oci::Error::DecodePackageConfig("e".to_string()), "Error decoding package config JSON: e"),
        (
            kubit::oci::Error::DecodeKubecfgPackageMetadata("e".to_string()),
            "Error decoding kubecfg pack metadata JSON: e",
        ),
        (kubit::oci::Error::OciParse("e".to_string()), "OCI error: e"),
        (kubit::oci::Error::Oci("e".to_string()), "OCI error: e"),
        (kubit::oci::Error::MissingMetadataKeyPack, "Missing metadata key: pack.kubecfg.dev/v1alpha1"),
        (kubit::oci::Error::MissingMetadataKeyKubit, "Missing metadata key: kubit.kubecfg.dev/v1alpha1"),
        (
            kubit::oci::Error::MissingMetadataKeyKubitSchema,
            "Missing metadata key: schema under kubit.kubecfg.dev/v1alpha1",
        ),
        (kubit::oci::Error::MissingMetadataKeyImageList, "Missing metadata key: oci.image.list"),
        (
            kubit::oci::Error::MissingMetadataKeyImageListImages,
            "Missing metadata key: images under oci.image.list",
        ),
        (kubit::oci::Error::SerializeJSONSchema("e".to_string()), "Error serializing JSON schema: e"),
        (kubit::oci::Error::SerializeImageList("e".to_string()), "Error serializing image list: e"),
    ];
    for (error, words) in oci {
        assert_eq!(error.to_string(), words);
    }
}

#[test]
fn a_token_of_the_local_store_is_of_no_use() {
    let auth = kubit::metadata::fetch_package_config_local_auth(
        kubit::metadata::DockerCredential::UsernamePassword("u".to_string(), "p".to_string()),
    );
    assert!(matches!(auth, Ok(RegistryAuth::Basic(u, p)) if u == "u" && p == "p"));
    let auth = kubit::metadata::fetch_package_config_local_auth(
        kubit::metadata::DockerCredential::IdentityToken("t".to_string()),
    );
    assert_eq!(auth.unwrap_err(), "unsupported docker credentials");
}
