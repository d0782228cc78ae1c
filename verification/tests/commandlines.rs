use kubit::apply::{
    self, DEFAULT_APPLY_KUBECTL_IMAGE, KUBECTL_APPLYSET_ENABLED, KUBIT_APPLIER_FIELD_MANAGER,
};
use kubit::render::{self, DockerHost};
use kubit::resources::{AppInstance, AppInstanceSpec, ObjectMeta, Package, PackageSpec};
use kubit::{cleanup, delete};

const TEST_PACKAGE_FILE: &str = "tests/fixtures/fake-package.yml";

fn arrange_app_instance() -> AppInstance {
    AppInstance {
        metadata: ObjectMeta {
            name: Some("test".to_string()),
            generate_name: None,
            namespace: Some("test".to_string()),
            uid: None,
        },
        spec: AppInstanceSpec {
            package: Package {
                image: "ghcr.io/kubecfg/kubit/package-demo:v1".to_string(),
                api_version: "v1alpha1".to_string(),
                spec: PackageSpec { arbitrary: "{}".to_string() },
            },
            image_pull_secrets: None,
            pause: false,
        },
        status: None,
    }
}

fn host() -> DockerHost {
    DockerHost {
        kube_config: "/home/me/.kube/config".to_string(),
        docker_config: "/home/me/.docker".to_string(),
        overlay_path: "/work/fake-package.yml".to_string(),
        overlay_file_name: "fake-package.yml".to_string(),
        kubecfg_image: "ghcr.io/kubecfg/kubecfg/kubecfg:v0.34.2".to_string(),
    }
}

#[test]
fn apply_emit_commandline() {
    let app_instance = arrange_app_instance();
    let docker = false;
    let fake_manifest_dir = "/tmp/test";

    let expected = vec![
        "kubectl",
        "apply",
        "-n",
        "test",
        "--server-side",
        "--prune",
        "--applyset",
        "test",
        "--field-manager",
        KUBIT_APPLIER_FIELD_MANAGER,
        "--force-conflicts",
        "-v=2",
        "-f",
        fake_manifest_dir,
    ];

    let output = apply::emit_commandline(
        &app_instance,
        fake_manifest_dir,
        &None,
        docker,
        DEFAULT_APPLY_KUBECTL_IMAGE,
        "/home/me/.kube/config",
    );

    assert_eq!(output, expected);
}

#[test]
fn render_emit_commandline() {
    let app_instance = arrange_app_instance();
    let docker = false;
    let skip_auth = false;

    let test_overlay_file = &format!("appInstance_={}", TEST_PACKAGE_FILE);
    let expected = vec![
        "kubecfg",
        "show",
        "oci://ghcr.io/kubecfg/kubit/package-demo:v1",
        "--alpha",
        "--reorder=server",
        "--overlay-code-file",
        test_overlay_file,
    ];

    let output = render::emit_commandline(
        &app_instance,
        TEST_PACKAGE_FILE,
        None,
        docker,
        skip_auth,
        &DockerHost::default(),
    );

    assert_eq!(output, expected);
}

#[test]
fn apply_in_docker_mounts_the_kubeconfig_and_impersonates() {
    let output = apply::emit_commandline(
        &arrange_app_instance(),
        "-",
        &Some("alice".to_string()),
        true,
        DEFAULT_APPLY_KUBECTL_IMAGE,
        "/home/me/.kube/config",
    );
    let expected = vec![
        "docker",
        "run",
        "--interactive",
        "--rm",
        "--network",
        "host",
        "-v",
        "/home/me/.kube/config:/.kube/config",
        "--env",
        KUBECTL_APPLYSET_ENABLED,
        "--env",
        "KUBECONFIG=/.kube/config",
        "bitnami/kubectl:1.27.5",
        "apply",
        "-n",
        "test",
        "--server-side",
        "--prune",
        "--applyset",
        "test",
        "--field-manager",
        "kubit-applier",
        "--force-conflicts",
        "-v=2",
        "-f",
        "-",
        "--as=alice",
    ];
    assert_eq!(output, expected);
}

#[test]
fn apply_script_is_written_for_tmp_manifests() {
    let text = apply::emit_script(&arrange_app_instance(), false, "img", "cfg").unwrap();
    assert_eq!(
        text,
        "#!/bin/bash\nset -euo pipefail\n\nkubectl \\\n    apply \\\n    -n \\\n    test \\\n    --server-side \\\n    --prune \\\n    --applyset \\\n    test \\\n    --field-manager \\\n    kubit-applier \\\n    --force-conflicts \\\n    '-v=2' \\\n    -f \\\n    /tmp/manifests"
    );
}

#[test]
fn kube_config_comes_from_the_environment_or_the_home_directory() {
    assert_eq!(apply::kube_config_path(Some("/etc/kube".to_string()), "/home/me"), "/etc/kube");
    assert_eq!(apply::kube_config_path(None, "/home/me"), "/home/me/.kube/config");
    assert_eq!(render::docker_config_path(Some("/etc/docker".to_string()), "/home/me"), "/etc/docker");
    assert_eq!(render::docker_config_path(None, "/home/me"), "/home/me/.docker");
}

#[test]
fn render_in_docker_mounts_credentials_unless_auth_is_skipped() {
    let with_auth = render::emit_commandline(
        &arrange_app_instance(),
        TEST_PACKAGE_FILE,
        Some("/tmp/manifests"),
        true,
        false,
        &host(),
    );
    let expected = vec![
        "docker",
        "run",
        "--rm",
        "--network",
        "host",
        "-v",
        "/home/me/.kube/config:/.kube/config",
        "-v",
        "/work/fake-package.yml:/overlay/fake-package.yml",
        "--env",
        "KUBECONFIG=/.kube/config",
        "-v",
        "/home/me/.docker:/.docker",
        "--env",
        "DOCKER_CONFIG=/.docker",
        "ghcr.io/kubecfg/kubecfg/kubecfg:v0.34.2",
        "show",
        "oci://ghcr.io/kubecfg/kubit/package-demo:v1",
        "--alpha",
        "--reorder=server",
        "--overlay-code-file",
        "appInstance_=/overlay/fake-package.yml",
        "--export-dir",
        "/tmp/manifests",
        "--export-filename-format",
        "{{printf \"%03d\" (resourceIndex .)}}-{{.apiVersion}}.{{.kind}}-{{default \"default\" .metadata.namespace}}.{{.metadata.name}}",
    ];
    assert_eq!(with_auth, expected);

    let without_auth = render::emit_commandline(
        &arrange_app_instance(),
        TEST_PACKAGE_FILE,
        None,
        true,
        true,
        &host(),
    );
    assert!(!without_auth.iter().any(|w| w.contains("DOCKER_CONFIG")));
    assert_eq!(without_auth[11], "ghcr.io/kubecfg/kubecfg/kubecfg:v0.34.2");
    assert_eq!(without_auth.len(), 18);
}

#[test]
fn a_local_file_is_rendered_as_it_is_named() {
    let mut app_instance = arrange_app_instance();
    app_instance.spec.package.image = "file:///tmp/package.jsonnet".to_string();
    let output = render::emit_commandline(
        &app_instance,
        "overlay.json",
        None,
        false,
        false,
        &DockerHost::default(),
    );
    assert_eq!(output[2], "file:///tmp/package.jsonnet");
}

#[test]
fn render_script_ends_with_a_line_end() {
    let text = render::emit_script(
        &arrange_app_instance(),
        "/tmp/overlay.json",
        false,
        false,
        &DockerHost::default(),
    )
    .unwrap();
    assert!(text.starts_with("#!/bin/bash\nset -euo pipefail\n\nkubecfg \\\n    show \\\n"));
    assert!(text.ends_with("    --export-filename-format \\\n    '{{printf \"%03d\" (resourceIndex .)}}-{{.apiVersion}}.{{.kind}}-{{default \"default\" .metadata.namespace}}.{{.metadata.name}}'\n"));
    assert!(text.contains("    'appInstance_=/tmp/overlay.json' \\\n    --export-dir \\\n    /tmp/manifests \\\n"));
}

#[test]
fn fetch_commandlines_name_the_helper() {
    assert_eq!(
        render::emit_fetch_app_instance_commandline("ns1", "demo", "/overlay/appinstance.json"),
        vec![
            "kubit",
            "helper",
            "fetch-app-instance",
            "--namespace",
            "ns1",
            "--output",
            "/overlay/appinstance.json",
            "demo"
        ]
    );
    assert_eq!(
        render::emit_fetch_appinstance_from_config_map_commandline("ns1", "demo", "/o.json"),
        vec![
            "kubit",
            "helper",
            "fetch-app-instance-from-config-map",
            "--namespace",
            "ns1",
            "--output",
            "/o.json",
            "demo"
        ]
    );
}

#[test]
fn delete_commandlines() {
    let app_instance = arrange_app_instance();
    assert_eq!(delete::cleanup_hack_resource_name("demo"), "demo-cleanup");
    assert_eq!(
        delete::emit_commandline(&app_instance, "/tmp/d", false, ""),
        vec![
            "kubectl",
            "apply",
            "-n",
            "test",
            "--server-side",
            "--prune",
            "--applyset",
            "test",
            "--field-manager",
            "kubit-applier",
            "--force-conflicts",
            "-v=2",
            "-f",
            "/tmp/d"
        ]
    );
    assert_eq!(
        delete::emit_commandline(&app_instance, "/tmp/d", true, "/k")[..15],
        [
            "docker",
            "run",
            "--interactive",
            "--rm",
            "--network",
            "host",
            "-v",
            "/k:/.kube/config",
            "-v",
            "/tmp/d:/tmp/d",
            "--env",
            "KUBECTL_APPLYSET=true",
            "--env",
            "KUBECONFIG=/.kube/config",
            "registry.k8s.io/kubectl:v1.28.0"
        ]
    );
    assert_eq!(
        delete::emit_post_deletion_commandline(&app_instance, "demo", false, ""),
        vec!["kubectl", "delete", "configmap", "demo-cleanup", "--namespace", "test"]
    );
    assert_eq!(
        delete::emit_post_deletion_commandline(&app_instance, "demo", true, "/k"),
        vec![
            "docker",
            "run",
            "--interactive",
            "--rm",
            "--network",
            "host",
            "-v",
            "/k:/.kube/config",
            "--env",
            "KUBECONFIG=/.kube/config",
            "registry.k8s.io/kubectl:v1.28.0",
            "delete",
            "configmap",
            "demo-cleanup",
            "--namespace",
            "test"
        ]
    );
    assert_eq!(
        delete::emit_deletion_setup(&app_instance, "demo", "/tmp/d/cm", false, ""),
        vec![
            "kubectl",
            "create",
            "configmap",
            "demo-cleanup",
            "--namespace",
            "test",
            "--dry-run=client",
            "-o=yaml",
            ">",
            "/tmp/d/cm"
        ]
    );
}

#[test]
fn delete_scripts_keep_the_redirection_unquoted() {
    let app_instance = arrange_app_instance();
    let setup = delete::setup_script(&app_instance, "demo", "/tmp/d/cm", false, "").unwrap();
    assert_eq!(
        setup.body(),
        "kubectl \\\n    create \\\n    configmap \\\n    demo-cleanup \\\n    --namespace \\\n    test \\\n    '--dry-run=client' \\\n    '-o=yaml' \\\n    > \\\n    /tmp/d/cm"
    );
    let prune = delete::script(&app_instance, "/tmp/d/cm", false, "").unwrap();
    assert!(prune.body().starts_with("kubectl \\\n    apply \\\n"));
    let post = delete::post_pruning_script(&app_instance, "demo", false, "").unwrap();
    assert_eq!(
        post.body(),
        "kubectl \\\n    delete \\\n    configmap \\\n    demo-cleanup \\\n    --namespace \\\n    test"
    );
}

#[test]
fn cleanup_commandlines() {
    let app_instance = arrange_app_instance();
    assert_eq!(cleanup::configmap_name_for("demo".to_string()), "demo-cleanup");
    assert_eq!(
        cleanup::emit_deletion_setup("ns1", "/manifests/cm"),
        vec!["kubit", "helper", "cleanup", "--namespace", "ns1", "--output", "/manifests/cm"]
    );
    assert_eq!(
        cleanup::emit_post_deletion_commandline(&app_instance, false, ""),
        vec!["kubectl", "delete", "configmap", "test-cleanup", "--namespace", "test"]
    );
    assert_eq!(
        cleanup::emit_commandline(&app_instance, "/tmp/d", false, ""),
        delete::emit_commandline(&app_instance, "/tmp/d", false, "")
    );
    assert_eq!(
        cleanup::setup_script(&app_instance, "/manifests/cm").unwrap().body(),
        "kubit \\\n    helper \\\n    cleanup \\\n    --namespace \\\n    test \\\n    --output \\\n    /manifests/cm"
    );
    assert_eq!(
        cleanup::script(&app_instance, "/tmp/d", false, "").unwrap().body(),
        delete::script(&app_instance, "/tmp/d", false, "").unwrap().body()
    );
    assert_eq!(
        cleanup::post_pruning_script(&app_instance, false, "").unwrap().body(),
        "kubectl \\\n    delete \\\n    configmap \\\n    test-cleanup \\\n    --namespace \\\n    test"
    );
}

#[test]
fn an_instance_without_namespace_or_name_gives_empty_words() {
    let app_instance = AppInstance::default();
    assert_eq!(app_instance.namespace_any(), "");
    assert_eq!(app_instance.name_any(), "");
    let named = AppInstance {
        metadata: ObjectMeta {
            name: None,
            generate_name: Some("gen-".to_string()),
            namespace: None,
            uid: None,
        },
        ..AppInstance::default()
    };
    assert_eq!(named.name_any(), "gen-");
    assert_eq!(named.namespace(), None);
}
