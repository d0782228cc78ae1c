//! The command lines that remove what an instance installed: an apply of an
//! empty applyset, which prunes everything else, around a placeholder config
//! map that is created before and deleted after.

use vstd::prelude::*;
use crate::apply::{
    prune_apply_args, push_prune_apply_args, KUBECTL_APPLYSET_ENABLED,
};
use crate::controller::KUBECTL_IMAGE;
use crate::resources::AppInstance;
use crate::scripting::{command_body, Script};
use crate::text::{no_words, push_str, push_string};
use crate::Error;

verus! {

/// The words that run `kubectl` from the stock image in a container on the
/// host network, with the kubeconfig mounted.
pub open spec fn docker_kubectl(kube_config: Seq<char>) -> Seq<Seq<char>> {
    seq![
        "docker"@,
        "run"@,
        "--interactive"@,
        "--rm"@,
        "--network"@,
        "host"@,
        "-v"@,
        kube_config + ":/.kube/config"@,
        "--env"@,
        "KUBECONFIG=/.kube/config"@,
        KUBECTL_IMAGE@,
    ]
}

/// As `docker_kubectl`, with `deletion_dir` mounted too, so that the container
/// sees the empty applyset, and with applysets switched on.
pub open spec fn docker_kubectl_pruning(kube_config: Seq<char>, deletion_dir: Seq<char>) -> Seq<
    Seq<char>,
> {
    seq![
        "docker"@,
        "run"@,
        "--interactive"@,
        "--rm"@,
        "--network"@,
        "host"@,
        "-v"@,
        kube_config + ":/.kube/config"@,
        "-v"@,
        deletion_dir + ":"@ + deletion_dir,
        "--env"@,
        KUBECTL_APPLYSET_ENABLED@,
        "--env"@,
        "KUBECONFIG=/.kube/config"@,
        KUBECTL_IMAGE@,
    ]
}

/// `kubectl` itself, or the words that run it in a container.
pub open spec fn kubectl(docker: bool, kube_config: Seq<char>) -> Seq<Seq<char>> {
    if docker {
        docker_kubectl(kube_config)
    } else {
        seq!["kubectl"@]
    }
}

/// The name of the placeholder config map of the instance called `name`.
pub open spec fn cleanup_hack_name(name: Seq<char>) -> Seq<char> {
    name + "-cleanup"@
}

/// The pruning command line: an apply of what lies under `deletion_dir`.
pub open spec fn prune_commandline(
    ns: Seq<char>,
    name: Seq<char>,
    deletion_dir: Seq<char>,
    docker: bool,
    kube_config: Seq<char>,
) -> Seq<Seq<char>> {
    (if docker {
        docker_kubectl_pruning(kube_config, deletion_dir)
    } else {
        seq!["kubectl"@]
    }) + prune_apply_args(ns, name, deletion_dir)
}

/// The command line that deletes the placeholder config map.
pub open spec fn post_deletion_commandline(
    ns: Seq<char>,
    name: Seq<char>,
    docker: bool,
    kube_config: Seq<char>,
) -> Seq<Seq<char>> {
    kubectl(docker, kube_config) + seq![
        "delete"@,
        "configmap"@,
        cleanup_hack_name(name),
        "--namespace"@,
        ns,
    ]
}

/// The command line that writes the placeholder config map to `output_path`.
pub open spec fn deletion_setup_commandline(
    ns: Seq<char>,
    name: Seq<char>,
    output_path: Seq<char>,
    docker: bool,
    kube_config: Seq<char>,
) -> Seq<Seq<char>> {
    kubectl(docker, kube_config) + seq![
        "create"@,
        "configmap"@,
        cleanup_hack_name(name),
        "--namespace"@,
        ns,
        "--dry-run=client"@,
        "-o=yaml"@,
        ">"@,
        output_path,
    ]
}

/// `kubectl` itself, or the words that run it in a container.
pub fn kubectl_words(docker: bool, kube_config: &str) -> (cli: Vec<String>)
    ensures
        cli.deep_view() == kubectl(docker, kube_config@),
{
    let mut cli = no_words();
    if docker {
        push_str(&mut cli, "docker");
        push_str(&mut cli, "run");
        push_str(&mut cli, "--interactive");
        push_str(&mut cli, "--rm");
        push_str(&mut cli, "--network");
        push_str(&mut cli, "host");
        push_str(&mut cli, "-v");
        push_string(&mut cli, String::from_str(kube_config).concat(":/.kube/config"));
        push_str(&mut cli, "--env");
        push_str(&mut cli, "KUBECONFIG=/.kube/config");
        push_str(&mut cli, KUBECTL_IMAGE);
    } else {
        push_str(&mut cli, "kubectl");
    }
    proof {
        assert(cli.deep_view() =~= kubectl(docker, kube_config@));
    }
    cli
}

/// The command line that prunes what the instance installed, by applying what
/// lies under `deletion_dir`: with `kubectl` directly, or, if `docker` is set,
/// in a container that mounts `kube_config` and `deletion_dir`.
pub fn emit_commandline(
    app_instance: &AppInstance,
    deletion_dir: &str,
    docker: bool,
    kube_config: &str,
) -> (cli: Vec<String>)
    ensures
        cli.deep_view() == prune_commandline(
            app_instance.metadata.namespace_any_spec(),
            app_instance.metadata.name_any_spec(),
            deletion_dir@,
            docker,
            kube_config@,
        ),
{
    let mut cli = no_words();
    if docker {
        push_str(&mut cli, "docker");
        push_str(&mut cli, "run");
        push_str(&mut cli, "--interactive");
        push_str(&mut cli, "--rm");
        push_str(&mut cli, "--network");
        push_str(&mut cli, "host");
        push_str(&mut cli, "-v");
        push_string(&mut cli, String::from_str(kube_config).concat(":/.kube/config"));
        push_str(&mut cli, "-v");
        push_string(&mut cli, String::from_str(deletion_dir).concat(":").concat(deletion_dir));
        push_str(&mut cli, "--env");
        push_str(&mut cli, KUBECTL_APPLYSET_ENABLED);
        push_str(&mut cli, "--env");
        push_str(&mut cli, "KUBECONFIG=/.kube/config");
        push_str(&mut cli, KUBECTL_IMAGE);
        proof {
            assert(cli.deep_view() =~= docker_kubectl_pruning(kube_config@, deletion_dir@));
        }
    } else {
        push_str(&mut cli, "kubectl");
        proof {
            assert(cli.deep_view() =~= seq!["kubectl"@]);
        }
    }
    push_prune_apply_args(
        &mut cli,
        app_instance.namespace_any(),
        app_instance.name_any(),
        deletion_dir,
    );
    cli
}

/// The command line that deletes the placeholder config map of the instance
/// called `name`.
pub fn emit_post_deletion_commandline(
    app_instance: &AppInstance,
    name: &str,
    docker: bool,
    kube_config: &str,
) -> (cli: Vec<String>)
    ensures
        cli.deep_view() == post_deletion_commandline(
            app_instance.metadata.namespace_any_spec(),
            name@,
            docker,
            kube_config@,
        ),
{
    let mut cli = kubectl_words(docker, kube_config);
    push_str(&mut cli, "delete");
    push_str(&mut cli, "configmap");
    push_string(&mut cli, cleanup_hack_resource_name(name));
    push_str(&mut cli, "--namespace");
    push_string(&mut cli, app_instance.namespace_any());
    proof {
        assert(cli.deep_view() =~= post_deletion_commandline(
            app_instance.metadata.namespace_any_spec(),
            name@,
            docker,
            kube_config@,
        ));
    }
    cli
}

/// The command line that writes a blank config map to `output_path`. The
/// applyset needs at least one object to prune against, so an empty list
/// would not do.
pub fn emit_deletion_setup(
    app_instance: &AppInstance,
    name: &str,
    output_path: &str,
    docker: bool,
    kube_config: &str,
) -> (cli: Vec<String>)
    ensures
        cli.deep_view() == deletion_setup_commandline(
            app_instance.metadata.namespace_any_spec(),
            name@,
            output_path@,
            docker,
            kube_config@,
        ),
{
    let mut cli = kubectl_words(docker, kube_config);
    push_str(&mut cli, "create");
    push_str(&mut cli, "configmap");
    push_string(&mut cli, cleanup_hack_resource_name(name));
    push_str(&mut cli, "--namespace");
    push_string(&mut cli, app_instance.namespace_any());
    push_str(&mut cli, "--dry-run=client");
    push_str(&mut cli, "-o=yaml");
    push_str(&mut cli, ">");
    push_str(&mut cli, output_path);
    proof {
        assert(cli.deep_view() =~= deletion_setup_commandline(
            app_instance.metadata.namespace_any_spec(),
            name@,
            output_path@,
            docker,
            kube_config@,
        ));
    }
    cli
}

/// The name of the placeholder config map of the instance called `name`.
pub fn cleanup_hack_resource_name(name: &str) -> (r: String)
    ensures
        r@ == cleanup_hack_name(name@),
{
    String::from_str(name).concat("-cleanup")
}

/// The script that prunes what the instance installed.
pub fn script(app_instance: &AppInstance, deletion_dir: &str, docker: bool, kube_config: &str) -> (r:
    Result<Script, Error>)
    ensures
        r matches Ok(s) && s@ == command_body(
            prune_commandline(
                app_instance.metadata.namespace_any_spec(),
                app_instance.metadata.name_any_spec(),
                deletion_dir@,
                docker,
                kube_config@,
            ),
        ),
{
    let tokens = emit_commandline(app_instance, deletion_dir, docker, kube_config);
    Ok(Script::from_vec(tokens))
}

/// The script that runs after the pruning and deletes the blank config map
/// that stood for the empty applyset.
pub fn post_pruning_script(app_instance: &AppInstance, name: &str, docker: bool, kube_config: &str) -> (r:
    Result<Script, Error>)
    ensures
        r matches Ok(s) && s@ == command_body(
            post_deletion_commandline(
                app_instance.metadata.namespace_any_spec(),
                name@,
                docker,
                kube_config@,
            ),
        ),
{
    let configmap_deletion = emit_post_deletion_commandline(app_instance, name, docker, kube_config);
    Ok(Script::from_vec(configmap_deletion))
}

/// The script that prepares the pruning by writing the blank config map.
pub fn setup_script(
    app_instance: &AppInstance,
    name: &str,
    output_path: &str,
    docker: bool,
    kube_config: &str,
) -> (r: Result<Script, Error>)
    ensures
        r matches Ok(s) && s@ == command_body(
            deletion_setup_commandline(
                app_instance.metadata.namespace_any_spec(),
                name@,
                output_path@,
                docker,
                kube_config@,
            ),
        ),
{
    let cleanup_helper = emit_deletion_setup(app_instance, name, output_path, docker, kube_config);
    Ok(Script::from_vec(cleanup_helper))
}

} // verus!
