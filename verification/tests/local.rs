use kubit::local::{
    self, apply_label_workaround, confirm_continue, diff, get_applyset_id, runs_script,
    write_apply_script, write_delete_script, DryRun,
};
use kubit::render::DockerHost;
use kubit::resources::{AppInstance, AppInstanceSpec, ObjectMeta, Package, PackageSpec};
use kubit::Error;

fn app_instance() -> AppInstance {
    AppInstance {
        metadata: ObjectMeta {
            name: Some("test".to_string()),
            generate_name: None,
            namespace: Some("test".to_string()),
            uid: None,
        },
        spec: AppInstanceSpec {
            package: Package {
                image: "ghcr.io/kubecfg/kubit/package-demo:v1".to_string(),
                api_version: "v1alpha1".to_string(),
                spec: PackageSpec { arbitrary: "{}".to_string() },
            },
            image_pull_secrets: None,
            pause: false,
        },
        status: None,
    }
}

fn host() -> DockerHost {
    DockerHost {
        kube_config: "/home/me/.kube/config".to_string(),
        docker_config: "/home/me/.docker".to_string(),
        overlay_path: "/work/fake-package.yml".to_string(),
        overlay_file_name: "fake-package.yml".to_string(),
        kubecfg_image: "ghcr.io/kubecfg/kubecfg/kubecfg:v0.34.2".to_string(),
    }
}

const RENDER: &str = "kubecfg \\\n    show \\\n    oci://ghcr.io/kubecfg/kubit/package-demo:v1 \\\n    --alpha \\\n    '--reorder=server' \\\n    --overlay-code-file \\\n    'appInstance_=overlay.yml'";

#[test]
fn dry_run_names() {
    assert_eq!(DryRun::Diff.to_string(), "diff");
    assert_eq!(DryRun::Script.to_string(), "script");
    assert_eq!(DryRun::Render.to_string(), "render");
}

#[test]
fn a_dry_run_for_the_script_prints_it() {
    assert!(!runs_script(&Some(DryRun::Script)));
    assert!(runs_script(&Some(DryRun::Render)));
    assert!(runs_script(&Some(DryRun::Diff)));
    assert!(runs_script(&None));
}

#[test]
fn rendering_is_piped_into_cat_for_a_dry_run() {
    let script = write_apply_script(
        &app_instance(),
        "overlay.yml",
        &Some(DryRun::Render),
        &None,
        false,
        false,
        "bitnami/kubectl:1.27.5",
        &DockerHost::default(),
        "",
    )
    .unwrap();
    assert_eq!(
        script.to_string(),
        format!("#!/bin/bash\nset -euo pipefail\n\nexport KUBECTL_APPLYSET=true\n{RENDER} \\\n| cat")
    );
}

#[test]
fn rendering_is_piped_into_the_apply() {
    for dry_run in [None, Some(DryRun::Script)] {
        let script = write_apply_script(
            &app_instance(),
            "overlay.yml",
            &dry_run,
            &Some("alice".to_string()),
            false,
            false,
            "bitnami/kubectl:1.27.5",
            &DockerHost::default(),
            "",
        )
        .unwrap();
        assert_eq!(
            script.body(),
            format!("export KUBECTL_APPLYSET=true\n{RENDER} \\\n| kubectl \\\n    apply \\\n    -n \\\n    test \\\n    --server-side \\\n    --prune \\\n    --applyset \\\n    test \\\n    --field-manager \\\n    kubit-applier \\\n    --force-conflicts \\\n    '-v=2' \\\n    -f \\\n    - \\\n    '--as=alice'")
        );
    }
}

#[test]
fn in_docker_the_applyset_switch_is_in_the_environment() {
    let script = write_apply_script(
        &app_instance(),
        "overlay.yml",
        &Some(DryRun::Script),
        &None,
        true,
        true,
        "bitnami/kubectl:1.27.5",
        &host(),
        "",
    )
    .unwrap();
    let body = script.body();
    assert!(body.starts_with("docker \\\n    run \\\n    --rm \\\n"));
    assert!(!body.contains("export KUBECTL_APPLYSET"));
    assert!(body.contains("'KUBECTL_APPLYSET=true'"));
    assert!(body.contains("'appInstance_=/overlay/fake-package.yml'"));
    assert!(body.contains("bitnami/kubectl:1.27.5"));
    assert!(body.contains("ghcr.io/kubecfg/kubecfg/kubecfg:v0.34.2"));
    assert!(!body.contains("DOCKER_CONFIG"));
    assert!(body.contains(" \\\n| docker \\\n    run \\\n    --interactive \\\n"));
}

#[test]
fn the_difference_is_shown_for_labelled_manifests() {
    let expected_diff = "(apply_label() {\n        kubectl label --local -f - -o json \"$1\" \\\n        | jq -c . \\\n        | while read -r line; do echo '---'; echo \"$line\" | yq eval -P; done\n      }\napply_label applyset.kubernetes.io/part-of=applyset-abc \\\n| kubectl diff -f - --server-side --force-conflicts --field-manager=kubit-applier)";
    assert_eq!(diff("applyset-abc").unwrap().body(), expected_diff);
    assert!(apply_label_workaround().body().starts_with("apply_label() {\n"));
    let script = write_apply_script(
        &app_instance(),
        "overlay.yml",
        &Some(DryRun::Diff),
        &None,
        false,
        false,
        "bitnami/kubectl:1.27.5",
        &DockerHost::default(),
        "applyset-abc",
    )
    .unwrap();
    assert_eq!(
        script.body(),
        format!("export KUBECTL_APPLYSET=true\n{RENDER} \\\n| {expected_diff}")
    );
}

#[test]
fn the_applyset_id_is_a_label_of_a_secret() {
    assert_eq!(
        get_applyset_id(&app_instance()),
        [
            "kubectl",
            "get",
            "secret",
            "-n",
            "test",
            "test",
            "-o",
            "jsonpath={.metadata.labels.applyset\\.kubernetes\\.io/id}"
        ]
    );
}

#[test]
fn a_local_delete_sets_up_prunes_and_tidies() {
    let script = write_delete_script(&app_instance(), "/tmp/x", false, "").unwrap();
    let body = script.body();
    let steps: Vec<&str> = body.split("\nkubectl").collect();
    assert_eq!(steps.len(), 4);
    assert_eq!(steps[0], "export KUBECTL_APPLYSET=true");
    assert!(steps[1].starts_with(" \\\n    create \\\n    configmap \\\n    test-cleanup \\\n"));
    assert!(steps[1].ends_with("    > \\\n    /tmp/x/test-cleanup"));
    assert!(steps[2].starts_with(" \\\n    apply \\\n"));
    assert!(steps[2].ends_with("    -f \\\n    /tmp/x/test-cleanup"));
    assert_eq!(
        steps[3],
        " \\\n    delete \\\n    configmap \\\n    test-cleanup \\\n    --namespace \\\n    test"
    );
    let in_docker = write_delete_script(&app_instance(), "/tmp/x", true, "/k").unwrap().body();
    assert!(in_docker.starts_with("docker \\\n    run \\\n"));
    assert!(in_docker.contains("/tmp/x/test-cleanup:/tmp/x/test-cleanup"));
}

#[test]
fn diff_and_dry_run_exclude_each_other() {
    assert_eq!(
        local::apply(&Some(DryRun::Script), true).unwrap_err(),
        "--diff and --dry-run are mutually exclusive"
    );
    assert!(local::apply(&None, true).is_ok());
    assert!(local::apply(&Some(DryRun::Render), false).is_ok());
    assert!(local::apply(&None, false).is_ok());
}

#[test]
fn a_delete_has_nothing_to_render_or_compare() {
    assert!(matches!(
        local::delete(&Some(DryRun::Render)),
        Err(Error::UnsupportedDryRunOption(DryRun::Render))
    ));
    assert!(matches!(
        local::delete(&Some(DryRun::Diff)),
        Err(Error::UnsupportedDryRunOption(DryRun::Diff))
    ));
    assert!(local::delete(&Some(DryRun::Script)).is_ok());
    assert!(local::delete(&None).is_ok());
    assert_eq!(
        local::delete(&Some(DryRun::Diff)).unwrap_err().to_string(),
        "Unsupported dry-run option: diff"
    );
}

#[test]
fn only_y_is_a_yes() {
    assert!(confirm_continue(b'y'));
    assert!(confirm_continue(b'Y'));
    assert!(!confirm_continue(b'n'));
    assert!(!confirm_continue(b'\n'));
    assert!(!confirm_continue(0));
}
