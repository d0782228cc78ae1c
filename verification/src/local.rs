//! Running the operator's steps from the command line: which scripts are put
//! together for an apply and for a delete.

use vstd::prelude::*;
use crate::apply::{apply_commandline, KUBIT_APPLIER_FIELD_MANAGER};
use crate::delete::{
    cleanup_hack_name, deletion_setup_commandline, post_deletion_commandline, prune_commandline,
};
use crate::render::{render_commandline_of, DockerHost};
use crate::resources::AppInstance;
use crate::scripting::{command_body, piped, sequenced, Script};
use crate::text::{no_words, push_str, push_string};
use crate::Error;

verus! {

/// What to do locally.
#[derive(Clone, Debug)]
pub enum Local {
    /// Applies the template locally.
    Apply {
        /// Path to the file containing a (YAML) AppInstance manifest.
        app_instance: String,
        /// Dry run.
        dry_run: Option<DryRun>,
        /// Show diff before applying. If in tty, interactively ask if you want
        /// to continue.
        pre_diff: bool,
        /// Allow anonymous authentication to an OCI registry, e.g. to public
        /// registries.
        skip_auth: bool,
        /// Use Docker containers for dependencies, rather than relying on
        /// locally installed versions.
        docker: bool,
        /// Override the package image field in the spec.
        package_image: Option<String>,
        /// Override the kubectl image.
        apply_step_image: String,
        /// Override the image for kubecfg.
        kubecfg_image: String,
    },
    /// Delete the resources created by a packaged AppInstance. This removes
    /// all created resources, except the containing namespace, which is
    /// created outside of an applyset.
    Delete {
        /// Path to the file containing a (YAML) AppInstance manifest.
        app_instance: String,
        /// Dry run.
        dry_run: Option<DryRun>,
        /// Use Docker containers for dependencies, rather than relying on
        /// locally installed versions.
        docker: bool,
    },
}

/// How far a local run goes: it stops after rendering, after showing the
/// difference to the cluster, or after printing the script.
#[derive(Clone, Copy, Debug, PartialEq, Eq, Structural)]
pub enum DryRun {
    Render,
    Diff,
    Script,
}

impl DryRun {
    /// The option's name on the command line.
    pub open spec fn name_spec(&self) -> Seq<char> {
        match self {
            DryRun::Diff => "diff"@,
            DryRun::Script => "script"@,
            DryRun::Render => "render"@,
        }
    }

    /// The option's name on the command line.
    pub fn to_string(&self) -> (r: String)
        ensures
            r@ == self.name_spec(),
    {
        match self {
            DryRun::Diff => String::from_str("diff"),
            DryRun::Script => String::from_str("script"),
            DryRun::Render => String::from_str("render"),
        }
    }
}

/// The shell function that labels every manifest it reads and prints the
/// manifests again as YAML documents, which `kubectl label` alone does not.
pub const APPLY_LABEL_FUNCTION: &'static str =
    "apply_label() {\n        kubectl label --local -f - -o json \"$1\" \\\n        | jq -c . \\\n        | while read -r line; do echo '---'; echo \"$line\" | yq eval -P; done\n      }";

/// The script that defines the labelling function.
pub fn apply_label_workaround() -> (r: Script)
    ensures
        r@ == APPLY_LABEL_FUNCTION@,
{
    Script::from_str(APPLY_LABEL_FUNCTION)
}

/// The body of the script that shows how the manifests on its input differ
/// from the cluster, once they are labelled as parts of the applyset.
pub open spec fn diff_body(applyset_id: Seq<char>) -> Seq<char> {
    "("@ + sequenced(
        APPLY_LABEL_FUNCTION@,
        piped(
            "apply_label applyset.kubernetes.io/part-of="@ + applyset_id,
            "kubectl diff -f - --server-side --force-conflicts --field-manager="@
                + KUBIT_APPLIER_FIELD_MANAGER@,
        ),
    ) + ")"@
}

/// The script that shows how the manifests on its input differ from the
/// cluster, given the id of the instance's applyset.
pub fn diff(applyset_id: &str) -> (r: Result<Script, Error>)
    ensures
        r matches Ok(s) && s@ == diff_body(applyset_id@),
{
    let remove_labels = Script::from_str(
        String::from_str("apply_label applyset.kubernetes.io/part-of=").concat(
            applyset_id,
        ).as_str(),
    );
    let diff = Script::from_str(
        String::from_str(
            "kubectl diff -f - --server-side --force-conflicts --field-manager=",
        ).concat(KUBIT_APPLIER_FIELD_MANAGER).as_str(),
    );
    let script = apply_label_workaround().then_run(remove_labels.pipe_into(diff)).subshell();
    Ok(script)
}

/// The command line that asks the cluster for the id of the instance's
/// applyset, which is a label of the secret that stands for the applyset.
pub open spec fn applyset_id_commandline(ns: Seq<char>, name: Seq<char>) -> Seq<Seq<char>> {
    seq![
        "kubectl"@,
        "get"@,
        "secret"@,
        "-n"@,
        ns,
        name,
        "-o"@,
        "jsonpath={.metadata.labels.applyset\\.kubernetes\\.io/id}"@,
    ]
}

/// The command line that asks the cluster for the id of the instance's
/// applyset.
pub fn get_applyset_id(app_instance: &AppInstance) -> (cli: Vec<String>)
    ensures
        cli.deep_view() == applyset_id_commandline(
            app_instance.metadata.namespace_any_spec(),
            app_instance.metadata.name_any_spec(),
        ),
{
    let mut cli = no_words();
    push_str(&mut cli, "kubectl");
    push_str(&mut cli, "get");
    push_str(&mut cli, "secret");
    push_str(&mut cli, "-n");
    push_string(&mut cli, app_instance.namespace_any());
    push_string(&mut cli, app_instance.name_any());
    push_str(&mut cli, "-o");
    push_str(&mut cli, "jsonpath={.metadata.labels.applyset\\.kubernetes\\.io/id}");
    proof {
        assert(cli.deep_view() =~= applyset_id_commandline(
            app_instance.metadata.namespace_any_spec(),
            app_instance.metadata.name_any_spec(),
        ));
    }
    cli
}

/// Tells whether the script is run once it is written. A dry run that asks
/// for the script prints it instead.
pub fn runs_script(dry_run: &Option<DryRun>) -> (r: bool)
    ensures
        r == !(dry_run matches Some(DryRun::Script)),
{
    match dry_run {
        Some(DryRun::Script) => false,
        _ => true,
    }
}

/// The body of the script that takes the rendered manifests on its input:
/// for a dry run it prints or compares them, otherwise it applies them.
pub open spec fn sink_body(
    app_instance: &AppInstance,
    dry_run: Option<DryRun>,
    impersonate_user: Option<Seq<char>>,
    docker: bool,
    kubectl_image: Seq<char>,
    kube_config: Seq<char>,
    applyset_id: Seq<char>,
) -> Seq<char> {
    match dry_run {
        Some(DryRun::Render) => "cat"@,
        Some(DryRun::Diff) => diff_body(applyset_id),
        _ => command_body(
            apply_commandline(
                app_instance.metadata.namespace_any_spec(),
                app_instance.metadata.name_any_spec(),
                "-"@,
                impersonate_user,
                docker,
                kubectl_image,
                kube_config,
            ),
        ),
    }
}

/// The body of the script of a local apply: the rendering piped into what
/// takes the manifests, after a line that switches applysets on unless the
/// tools run in containers, which have it in their environment.
pub open spec fn apply_script_body(
    app_instance: &AppInstance,
    overlay_file_name: Seq<char>,
    dry_run: Option<DryRun>,
    impersonate_user: Option<Seq<char>>,
    docker: bool,
    skip_auth: bool,
    kubectl_image: Seq<char>,
    host: &DockerHost,
    applyset_id: Seq<char>,
) -> Seq<char> {
    let commands = piped(
        command_body(
            render_commandline_of(app_instance, overlay_file_name, None, docker, skip_auth, host),
        ),
        sink_body(
            app_instance,
            dry_run,
            impersonate_user,
            docker,
            kubectl_image,
            host.kube_config@,
            applyset_id,
        ),
    );
    if docker {
        commands
    } else {
        sequenced("export KUBECTL_APPLYSET=true"@, commands)
    }
}

/// The script of a local apply. The id of the instance's applyset is read
/// for the dry run that shows the difference only.
pub fn write_apply_script(
    app_instance: &AppInstance,
    overlay_file_name: &str,
    dry_run: &Option<DryRun>,
    impersonate_user: &Option<String>,
    docker: bool,
    skip_auth: bool,
    kubectl_image: &str,
    host: &DockerHost,
    applyset_id: &str,
) -> (r: Result<Script, Error>)
    ensures
        r matches Ok(s) && s@ == apply_script_body(
            app_instance,
            overlay_file_name@,
            *dry_run,
            impersonate_user.deep_view(),
            docker,
            skip_auth,
            kubectl_image@,
            host,
            applyset_id@,
        ),
{
    let render = match crate::render::script(
        app_instance,
        overlay_file_name,
        None,
        docker,
        skip_auth,
        host,
    ) {
        Ok(s) => s,
        Err(e) => {
            return Err(e);
        },
    };
    let sink = match dry_run {
        Some(DryRun::Render) => Script::from_str("cat"),
        Some(DryRun::Diff) => match diff(applyset_id) {
            Ok(s) => s,
            Err(e) => {
                return Err(e);
            },
        },
        _ => match crate::apply::script(
            app_instance,
            "-",
            impersonate_user,
            docker,
            kubectl_image,
            host.kube_config.as_str(),
        ) {
            Ok(s) => s,
            Err(e) => {
                return Err(e);
            },
        },
    };
    let commands = render.pipe_into(sink);
    if docker {
        Ok(commands)
    } else {
        Ok(Script::from_str("export KUBECTL_APPLYSET=true").then_run(commands))
    }
}

/// The body of the script of a local delete: write the placeholder config
/// map under `tmp_dir`, apply it alone, which prunes the rest, and delete it.
pub open spec fn delete_script_body(
    app_instance: &AppInstance,
    tmp_dir: Seq<char>,
    docker: bool,
    kube_config: Seq<char>,
) -> Seq<char> {
    let ns = app_instance.metadata.namespace_any_spec();
    let name = app_instance.metadata.name_any_spec();
    let output_path = tmp_dir + "/"@ + cleanup_hack_name(name);
    let steps = sequenced(
        sequenced(
            command_body(deletion_setup_commandline(ns, name, output_path, docker, kube_config)),
            command_body(prune_commandline(ns, name, output_path, docker, kube_config)),
        ),
        command_body(post_deletion_commandline(ns, name, docker, kube_config)),
    );
    if docker {
        steps
    } else {
        sequenced("export KUBECTL_APPLYSET=true"@, steps)
    }
}

/// The script of a local delete, with its placeholder under `tmp_dir`.
pub fn write_delete_script(
    app_instance: &AppInstance,
    tmp_dir: &str,
    docker: bool,
    kube_config: &str,
) -> (r: Result<Script, Error>)
    ensures
        r matches Ok(s) && s@ == delete_script_body(app_instance, tmp_dir@, docker, kube_config@),
{
    let name = app_instance.name_any();
    let output_path = String::from_str(tmp_dir).concat("/").concat(
        crate::delete::cleanup_hack_resource_name(name.as_str()).as_str(),
    );
    let setup = match crate::delete::setup_script(
        app_instance,
        name.as_str(),
        output_path.as_str(),
        docker,
        kube_config,
    ) {
        Ok(s) => s,
        Err(e) => {
            return Err(e);
        },
    };
    let prune = match crate::delete::script(app_instance, output_path.as_str(), docker, kube_config) {
        Ok(s) => s,
        Err(e) => {
            return Err(e);
        },
    };
    let post = match crate::delete::post_pruning_script(
        app_instance,
        name.as_str(),
        docker,
        kube_config,
    ) {
        Ok(s) => s,
        Err(e) => {
            return Err(e);
        },
    };
    let steps = setup.then_run(prune).then_run(post);
    if docker {
        Ok(steps)
    } else {
        Ok(Script::from_str("export KUBECTL_APPLYSET=true").then_run(steps))
    }
}

/// Why an apply cannot both show the difference first and be a dry run.
pub const DIFF_AND_DRY_RUN: &'static str = "--diff and --dry-run are mutually exclusive";

/// Checks the options of a local apply: showing the difference first and a
/// dry run exclude each other.
pub fn apply(dry_run: &Option<DryRun>, pre_diff: bool) -> (r: Result<(), String>)
    ensures
        if pre_diff && dry_run is Some {
            r matches Err(m) && m@ == DIFF_AND_DRY_RUN@
        } else {
            r is Ok
        },
{
    if pre_diff && dry_run.is_some() {
        return Err(String::from_str(DIFF_AND_DRY_RUN));
    }
    Ok(())
}

/// Checks the options of a local delete: it has no rendering and no
/// difference to stop after.
pub fn delete(dry_run: &Option<DryRun>) -> (r: Result<(), Error>)
    ensures
        match *dry_run {
            Some(DryRun::Render) => r matches Err(Error::UnsupportedDryRunOption(DryRun::Render)),
            Some(DryRun::Diff) => r matches Err(Error::UnsupportedDryRunOption(DryRun::Diff)),
            _ => r is Ok,
        },
{
    match dry_run {
        Some(DryRun::Render) => Err(Error::UnsupportedDryRunOption(DryRun::Render)),
        Some(DryRun::Diff) => Err(Error::UnsupportedDryRunOption(DryRun::Diff)),
        _ => Ok(()),
    }
}

/// Tells whether the answer to the question whether to go on, of which
/// `answer` is the first byte, is a yes.
pub fn confirm_continue(answer: u8) -> (r: bool)
    ensures
        r == (answer == 121 || answer == 89),
{
    answer == 121 || answer == 89
}

} // verus!
