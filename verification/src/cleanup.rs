//! The cleanup command lines in the form that runs a helper of the operator's
//! own image to write the placeholder config map.

use vstd::prelude::*;
use crate::delete::{
    cleanup_hack_name, kubectl_words, post_deletion_commandline, prune_commandline,
};
use crate::resources::AppInstance;
use crate::scripting::{command_body, Script};
use crate::text::{no_words, push_str, push_string};
use crate::Error;

verus! {

/// The command line of the helper that writes the placeholder config map of
/// namespace `ns` to `output_file`.
pub open spec fn helper_cleanup_commandline(ns: Seq<char>, output_file: Seq<char>) -> Seq<
    Seq<char>,
> {
    seq![
        "kubit"@,
        "helper"@,
        "cleanup"@,
        "--namespace"@,
        ns,
        "--output"@,
        output_file,
    ]
}

/// The command line that prunes what the instance installed, by applying what
/// lies under `deletion_dir`: with `kubectl` directly, or, if `is_local` is
/// set, in a container that mounts `kube_config` and `deletion_dir`.
pub fn emit_commandline(
    app_instance: &AppInstance,
    deletion_dir: &str,
    is_local: bool,
    kube_config: &str,
) -> (cli: Vec<String>)
    ensures
        cli.deep_view() == prune_commandline(
            app_instance.metadata.namespace_any_spec(),
            app_instance.metadata.name_any_spec(),
            deletion_dir@,
            is_local,
            kube_config@,
        ),
{
    crate::delete::emit_commandline(app_instance, deletion_dir, is_local, kube_config)
}

/// The command line that deletes the instance's placeholder config map.
pub fn emit_post_deletion_commandline(
    app_instance: &AppInstance,
    is_local: bool,
    kube_config: &str,
) -> (cli: Vec<String>)
    ensures
        cli.deep_view() == post_deletion_commandline(
            app_instance.metadata.namespace_any_spec(),
            app_instance.metadata.name_any_spec(),
            is_local,
            kube_config@,
        ),
{
    let mut cli = kubectl_words(is_local, kube_config);
    push_str(&mut cli, "delete");
    push_str(&mut cli, "configmap");
    push_string(&mut cli, configmap_name_for(app_instance.name_any()));
    push_str(&mut cli, "--namespace");
    push_string(&mut cli, app_instance.namespace_any());
    proof {
        assert(cli.deep_view() =~= post_deletion_commandline(
            app_instance.metadata.namespace_any_spec(),
            app_instance.metadata.name_any_spec(),
            is_local,
            kube_config@,
        ));
    }
    cli
}

/// The command line of the helper that writes the placeholder config map of
/// namespace `ns` to `output_file`.
pub fn emit_deletion_setup(ns: &str, output_file: &str) -> (cli: Vec<String>)
    ensures
        cli.deep_view() == helper_cleanup_commandline(ns@, output_file@),
{
    let mut cli = no_words();
    push_str(&mut cli, "kubit");
    push_str(&mut cli, "helper");
    push_str(&mut cli, "cleanup");
    push_str(&mut cli, "--namespace");
    push_str(&mut cli, ns);
    push_str(&mut cli, "--output");
    push_str(&mut cli, output_file);
    proof {
        assert(cli.deep_view() =~= helper_cleanup_commandline(ns@, output_file@));
    }
    cli
}

/// The name of the cleanup config map of the instance called `name`.
pub fn configmap_name_for(name: String) -> (r: String)
    ensures
        r@ == cleanup_hack_name(name@),
{
    name.concat("-cleanup")
}

/// The script that prunes what the instance installed.
pub fn script(app_instance: &AppInstance, deletion_dir: &str, is_local: bool, kube_config: &str) -> (r:
    Result<Script, Error>)
    ensures
        r matches Ok(s) && s@ == command_body(
            prune_commandline(
                app_instance.metadata.namespace_any_spec(),
                app_instance.metadata.name_any_spec(),
                deletion_dir@,
                is_local,
                kube_config@,
            ),
        ),
{
    let tokens = emit_commandline(app_instance, deletion_dir, is_local, kube_config);
    Ok(Script::from_vec(tokens))
}

/// The script that runs after the pruning and deletes the blank config map
/// that stood for the empty applyset.
pub fn post_pruning_script(app_instance: &AppInstance, is_local: bool, kube_config: &str) -> (r:
    Result<Script, Error>)
    ensures
        r matches Ok(s) && s@ == command_body(
            post_deletion_commandline(
                app_instance.metadata.namespace_any_spec(),
                app_instance.metadata.name_any_spec(),
                is_local,
                kube_config@,
            ),
        ),
{
    let configmap_deletion = emit_post_deletion_commandline(app_instance, is_local, kube_config);
    Ok(Script::from_vec(configmap_deletion))
}

/// The script that runs the helper which writes the placeholder config map
/// under `deletion_dir`.
pub fn setup_script(app_instance: &AppInstance, deletion_dir: &str) -> (r: Result<Script, Error>)
    ensures
        r matches Ok(s) && s@ == command_body(
            helper_cleanup_commandline(app_instance.metadata.namespace_any_spec(), deletion_dir@),
        ),
{
    let ns = app_instance.namespace_any();
    let cleanup_helper = emit_deletion_setup(ns.as_str(), deletion_dir);
    Ok(Script::from_vec(cleanup_helper))
}

} // verus!
