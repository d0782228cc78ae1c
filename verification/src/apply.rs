//! The command line that applies rendered manifests to the cluster.

use vstd::prelude::*;
use crate::resources::AppInstance;
use crate::scripting::{command_body, rendered, Script};
use crate::text::{no_words, push_str, push_string};
use crate::Error;

verus! {

pub const KUBIT_APPLIER_FIELD_MANAGER: &'static str = "kubit-applier";

/// Image used within the "apply" step.
pub const DEFAULT_APPLY_KUBECTL_IMAGE: &'static str = "bitnami/kubectl:1.27.5";

pub const KUBECTL_APPLYSET_ENABLED: &'static str = "KUBECTL_APPLYSET=true";

/// The kubeconfig file to use: the one the environment names, else the
/// default one under the user's home directory.
pub open spec fn kube_config_path_spec(from_env: Option<Seq<char>>, user_home: Seq<char>) -> Seq<
    char,
> {
    match from_env {
        Some(path) => path,
        None => user_home + "/.kube/config"@,
    }
}

/// The kubeconfig file to use, given the value of `KUBECONFIG`, if set, and
/// the user's home directory.
pub fn kube_config_path(from_env: Option<String>, user_home: &str) -> (r: String)
    ensures
        r@ == kube_config_path_spec(from_env.deep_view(), user_home@),
{
    match from_env {
        Some(path) => path,
        None => String::from_str(user_home).concat("/.kube/config"),
    }
}

/// The words that run `kubectl` from `kubectl_image` in a container on the
/// host network, with the kubeconfig mounted and applysets switched on.
pub open spec fn docker_kubectl_applyset(kube_config: Seq<char>, kubectl_image: Seq<char>) -> Seq<
    Seq<char>,
> {
    seq![
        "docker"@,
        "run"@,
        "--interactive"@,
        "--rm"@,
        "--network"@,
        "host"@,
        "-v"@,
        kube_config + ":/.kube/config"@,
        "--env"@,
        KUBECTL_APPLYSET_ENABLED@,
        "--env"@,
        "KUBECONFIG=/.kube/config"@,
        kubectl_image,
    ]
}

/// The arguments of a pruning server-side apply of `target` under the
/// applyset `name` in namespace `ns`.
pub open spec fn prune_apply_args(ns: Seq<char>, name: Seq<char>, target: Seq<char>) -> Seq<
    Seq<char>,
> {
    seq![
        "apply"@,
        "-n"@,
        ns,
        "--server-side"@,
        "--prune"@,
        "--applyset"@,
        name,
        "--field-manager"@,
        KUBIT_APPLIER_FIELD_MANAGER@,
        "--force-conflicts"@,
        "-v=2"@,
        "-f"@,
        target,
    ]
}

/// The whole apply command line.
pub open spec fn apply_commandline(
    ns: Seq<char>,
    name: Seq<char>,
    manifests_dir: Seq<char>,
    impersonate_user: Option<Seq<char>>,
    docker: bool,
    kubectl_image: Seq<char>,
    kube_config: Seq<char>,
) -> Seq<Seq<char>> {
    (if docker {
        docker_kubectl_applyset(kube_config, kubectl_image)
    } else {
        seq!["kubectl"@]
    }) + prune_apply_args(ns, name, manifests_dir) + (match impersonate_user {
        Some(user) => seq!["--as="@ + user],
        None => Seq::empty(),
    })
}

/// Appends the arguments of a pruning server-side apply to `cli`.
pub fn push_prune_apply_args(cli: &mut Vec<String>, ns: String, name: String, target: &str)
    ensures
        final(cli).deep_view() == old(cli).deep_view() + prune_apply_args(ns@, name@, target@),
{
    push_str(cli, "apply");
    push_str(cli, "-n");
    push_string(cli, ns);
    push_str(cli, "--server-side");
    push_str(cli, "--prune");
    push_str(cli, "--applyset");
    push_string(cli, name);
    push_str(cli, "--field-manager");
    push_str(cli, KUBIT_APPLIER_FIELD_MANAGER);
    push_str(cli, "--force-conflicts");
    push_str(cli, "-v=2");
    push_str(cli, "-f");
    push_str(cli, target);
    proof {
        assert(cli.deep_view() =~= old(cli).deep_view() + prune_apply_args(ns@, name@, target@));
    }
}

/// The command line that applies the manifests under `manifests_dir`: with
/// `kubectl` directly, or, if `docker` is set, with `kubectl_image` run in a
/// container that mounts `kube_config`.
pub fn emit_commandline(
    app_instance: &AppInstance,
    manifests_dir: &str,
    impersonate_user: &Option<String>,
    docker: bool,
    kubectl_image: &str,
    kube_config: &str,
) -> (cli: Vec<String>)
    ensures
        cli.deep_view() == apply_commandline(
            app_instance.metadata.namespace_any_spec(),
            app_instance.metadata.name_any_spec(),
            manifests_dir@,
            impersonate_user.deep_view(),
            docker,
            kubectl_image@,
            kube_config@,
        ),
{
    let mut cli = no_words();
    if docker {
        push_str(&mut cli, "docker");
        push_str(&mut cli, "run");
        push_str(&mut cli, "--interactive");
        push_str(&mut cli, "--rm");
        push_str(&mut cli, "--network");
        push_str(&mut cli, "host");
        push_str(&mut cli, "-v");
        push_string(&mut cli, String::from_str(kube_config).concat(":/.kube/config"));
        push_str(&mut cli, "--env");
        push_str(&mut cli, KUBECTL_APPLYSET_ENABLED);
        push_str(&mut cli, "--env");
        push_str(&mut cli, "KUBECONFIG=/.kube/config");
        push_str(&mut cli, kubectl_image);
        proof {
            assert(cli.deep_view() =~= docker_kubectl_applyset(kube_config@, kubectl_image@));
        }
    } else {
        push_str(&mut cli, "kubectl");
        proof {
            assert(cli.deep_view() =~= seq!["kubectl"@]);
        }
    }
    push_prune_apply_args(
        &mut cli,
        app_instance.namespace_any(),
        app_instance.name_any(),
        manifests_dir,
    );
    match impersonate_user {
        Some(as_user) => {
            push_string(&mut cli, String::from_str("--as=").concat(as_user.as_str()));
        },
        None => {},
    }
    proof {
        assert(cli.deep_view() =~= apply_commandline(
            app_instance.metadata.namespace_any_spec(),
            app_instance.metadata.name_any_spec(),
            manifests_dir@,
            impersonate_user.deep_view(),
            docker,
            kubectl_image@,
            kube_config@,
        ));
    }
    cli
}

/// The script that applies the manifests under `manifests_dir`.
pub fn script(
    app_instance: &AppInstance,
    manifests_dir: &str,
    impersonate_user: &Option<String>,
    docker: bool,
    kubectl_image: &str,
    kube_config: &str,
) -> (r: Result<Script, Error>)
    ensures
        r matches Ok(s) && s@ == command_body(
            apply_commandline(
                app_instance.metadata.namespace_any_spec(),
                app_instance.metadata.name_any_spec(),
                manifests_dir@,
                impersonate_user.deep_view(),
                docker,
                kubectl_image@,
                kube_config@,
            ),
        ),
{
    let tokens = emit_commandline(
        app_instance,
        manifests_dir,
        impersonate_user,
        docker,
        kubectl_image,
        kube_config,
    );
    Ok(Script::from_vec(tokens))
}

/// The text of the script that applies the manifests under `/tmp/manifests`,
/// as it is to be written out.
pub fn emit_script(app_instance: &AppInstance, docker: bool, kubectl_image: &str, kube_config: &str) -> (r:
    Result<String, Error>)
    ensures
        r matches Ok(text) && text@ == rendered(
            command_body(
                apply_commandline(
                    app_instance.metadata.namespace_any_spec(),
                    app_instance.metadata.name_any_spec(),
                    "/tmp/manifests"@,
                    None,
                    docker,
                    kubectl_image@,
                    kube_config@,
                ),
            ),
        ),
{
    let none: Option<String> = None;
    match script(app_instance, "/tmp/manifests", &none, docker, kubectl_image, kube_config) {
        Ok(script) => Ok(script.to_string()),
        Err(e) => Err(e),
    }
}

} // verus!
