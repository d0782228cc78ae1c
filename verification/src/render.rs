//! The command lines that fetch an instance's payload and render its package
//! into manifests.

use vstd::prelude::*;
use crate::resources::AppInstance;
use crate::scripting::{command_body, rendered, Script};
use crate::text::{has_prefix, no_words, push_str, push_string, starts_with};
use crate::Error;

verus! {

/// Registry that holds the `kubecfg` image.
pub const DEFAULT_KUBECFG_IMAGE: &'static str = "ghcr.io/kubecfg/kubecfg/kubecfg";

/// How the rendered manifests are named in the export directory.
pub const EXPORT_FILENAME_FORMAT: &'static str =
    "{{printf \"%03d\" (resourceIndex .)}}-{{.apiVersion}}.{{.kind}}-{{default \"default\" .metadata.namespace}}.{{.metadata.name}}";

/// What a rendering in a container needs to know of the host: the kubeconfig
/// and docker configuration to mount, the overlay file by its full path and by
/// its file name, and the `kubecfg` image that the package asks for.
#[derive(Clone, Debug, Default)]
pub struct DockerHost {
    pub kube_config: String,
    pub docker_config: String,
    pub overlay_path: String,
    pub overlay_file_name: String,
    pub kubecfg_image: String,
}

/// The docker configuration directory to use: the one the environment names,
/// else the default one under the user's home directory.
pub open spec fn docker_config_path_spec(from_env: Option<Seq<char>>, user_home: Seq<char>) -> Seq<
    char,
> {
    match from_env {
        Some(path) => path,
        None => user_home + "/.docker"@,
    }
}

/// The docker configuration directory to use, given the value of
/// `DOCKER_CONFIG`, if set, and the user's home directory.
pub fn docker_config_path(from_env: Option<String>, user_home: &str) -> (r: String)
    ensures
        r@ == docker_config_path_spec(from_env.deep_view(), user_home@),
{
    match from_env {
        Some(path) => path,
        None => String::from_str(user_home).concat("/.docker"),
    }
}

/// Where `kubecfg` finds the package: a local file as it is named, anything
/// else as an OCI reference.
pub open spec fn package_entrypoint(image: Seq<char>) -> Seq<char> {
    if has_prefix(image, "file://"@) {
        image
    } else {
        "oci://"@ + image
    }
}

/// The words that run `kubecfg` in a container: the kubeconfig and the overlay
/// mounted, the docker credentials too unless `skip_auth` is set, and the
/// image last, so that what follows is read as its arguments.
pub open spec fn docker_kubecfg(
    kube_config: Seq<char>,
    docker_config: Seq<char>,
    overlay_path: Seq<char>,
    overlay_file_name: Seq<char>,
    kubecfg_image: Seq<char>,
    skip_auth: bool,
) -> Seq<Seq<char>> {
    seq![
        "docker"@,
        "run"@,
        "--rm"@,
        "--network"@,
        "host"@,
        "-v"@,
        kube_config + ":/.kube/config"@,
        "-v"@,
        overlay_path + ":/overlay/"@ + overlay_file_name,
        "--env"@,
        "KUBECONFIG=/.kube/config"@,
    ] + (if skip_auth {
        Seq::empty()
    } else {
        seq!["-v"@, docker_config + ":/.docker"@, "--env"@, "DOCKER_CONFIG=/.docker"@]
    }) + seq![kubecfg_image]
}

/// The whole render command line.
pub open spec fn render_commandline(
    image: Seq<char>,
    overlay_file: Seq<char>,
    output_dir: Option<Seq<char>>,
    docker: bool,
    skip_auth: bool,
    kube_config: Seq<char>,
    docker_config: Seq<char>,
    overlay_path: Seq<char>,
    overlay_file_name: Seq<char>,
    kubecfg_image: Seq<char>,
) -> Seq<Seq<char>> {
    (if docker {
        docker_kubecfg(
            kube_config,
            docker_config,
            overlay_path,
            overlay_file_name,
            kubecfg_image,
            skip_auth,
        )
    } else {
        seq!["kubecfg"@]
    }) + seq!["show"@, package_entrypoint(image), "--alpha"@, "--reorder=server"@] + seq![
        "--overlay-code-file"@,
        if docker {
            "appInstance_=/overlay/"@ + overlay_file_name
        } else {
            "appInstance_="@ + overlay_file
        },
    ] + (match output_dir {
        Some(dir) => seq![
            "--export-dir"@,
            dir,
            "--export-filename-format"@,
            EXPORT_FILENAME_FORMAT@,
        ],
        None => Seq::empty(),
    })
}

/// The render command line of `app_instance` with its overlay in
/// `overlay_file`, over the values of `host`.
pub open spec fn render_commandline_of(
    app_instance: &AppInstance,
    overlay_file: Seq<char>,
    output_dir: Option<Seq<char>>,
    docker: bool,
    skip_auth: bool,
    host: &DockerHost,
) -> Seq<Seq<char>> {
    render_commandline(
        app_instance.spec.package.image@,
        overlay_file,
        output_dir,
        docker,
        skip_auth,
        host.kube_config@,
        host.docker_config@,
        host.overlay_path@,
        host.overlay_file_name@,
        host.kubecfg_image@,
    )
}

/// The command line that renders the package of `app_instance` with the
/// overlay in `overlay_file`, into `output_dir` if one is given, else to
/// standard output: with `kubecfg` directly, or, if `docker` is set, in a
/// container described by `host`. Without `docker`, `host` is not read.
pub fn emit_commandline(
    app_instance: &AppInstance,
    overlay_file: &str,
    output_dir: Option<&str>,
    docker: bool,
    skip_auth: bool,
    host: &DockerHost,
) -> (cli: Vec<String>)
    ensures
        cli.deep_view() == render_commandline_of(
            app_instance,
            overlay_file@,
            output_dir.deep_view(),
            docker,
            skip_auth,
            host,
        ),
{
    let image = &app_instance.spec.package.image;
    let entrypoint = if starts_with(image.as_str(), "file://") {
        image.clone()
    } else {
        String::from_str("oci://").concat(image.as_str())
    };
    let mut cli = no_words();
    if docker {
        push_str(&mut cli, "docker");
        push_str(&mut cli, "run");
        push_str(&mut cli, "--rm");
        push_str(&mut cli, "--network");
        push_str(&mut cli, "host");
        push_str(&mut cli, "-v");
        push_string(&mut cli, host.kube_config.clone().concat(":/.kube/config"));
        push_str(&mut cli, "-v");
        push_string(
            &mut cli,
            host.overlay_path.clone().concat(":/overlay/").concat(host.overlay_file_name.as_str()),
        );
        push_str(&mut cli, "--env");
        push_str(&mut cli, "KUBECONFIG=/.kube/config");
        // Unless authentication is skipped, the docker credentials are mounted,
        // so that image manifests can be pulled.
        if !skip_auth {
            push_str(&mut cli, "-v");
            push_string(&mut cli, host.docker_config.clone().concat(":/.docker"));
            push_str(&mut cli, "--env");
            push_str(&mut cli, "DOCKER_CONFIG=/.docker");
        }
        push_str(&mut cli, host.kubecfg_image.as_str());
        proof {
            assert(cli.deep_view() =~= docker_kubecfg(
                host.kube_config@,
                host.docker_config@,
                host.overlay_path@,
                host.overlay_file_name@,
                host.kubecfg_image@,
                skip_auth,
            ));
        }
    } else {
        push_str(&mut cli, "kubecfg");
        proof {
            assert(cli.deep_view() =~= seq!["kubecfg"@]);
        }
    }
    push_str(&mut cli, "show");
    push_string(&mut cli, entrypoint);
    push_str(&mut cli, "--alpha");
    push_str(&mut cli, "--reorder=server");
    push_str(&mut cli, "--overlay-code-file");
    // In a container the overlay is read where it is mounted.
    if docker {
        push_string(
            &mut cli,
            String::from_str("appInstance_=/overlay/").concat(host.overlay_file_name.as_str()),
        );
    } else {
        push_string(&mut cli, String::from_str("appInstance_=").concat(overlay_file));
    }
    match output_dir {
        Some(dir) => {
            push_str(&mut cli, "--export-dir");
            push_str(&mut cli, dir);
            push_str(&mut cli, "--export-filename-format");
            push_str(&mut cli, EXPORT_FILENAME_FORMAT);
        },
        None => {},
    }
    proof {
        assert(cli.deep_view() =~= render_commandline_of(
            app_instance,
            overlay_file@,
            output_dir.deep_view(),
            docker,
            skip_auth,
            host,
        ));
    }
    cli
}

/// The script that renders the package of `app_instance`.
pub fn script(
    app_instance: &AppInstance,
    overlay_file_name: &str,
    output_dir: Option<&str>,
    docker: bool,
    skip_auth: bool,
    host: &DockerHost,
) -> (r: Result<Script, Error>)
    ensures
        r matches Ok(s) && s@ == command_body(
            render_commandline_of(
                app_instance,
                overlay_file_name@,
                output_dir.deep_view(),
                docker,
                skip_auth,
                host,
            ),
        ),
{
    let tokens = emit_commandline(
        app_instance,
        overlay_file_name,
        output_dir,
        docker,
        skip_auth,
        host,
    );
    Ok(Script::from_vec(tokens))
}

/// The text of the script that renders the package of `app_instance` into
/// `/tmp/manifests`, with the overlay that was written to `overlay_path`, as
/// it is to be written out: the script and a line end.
pub fn emit_script(
    app_instance: &AppInstance,
    overlay_path: &str,
    docker: bool,
    skip_auth: bool,
    host: &DockerHost,
) -> (r: Result<String, Error>)
    ensures
        r matches Ok(text) && text@ == rendered(
            command_body(
                render_commandline_of(
                    app_instance,
                    overlay_path@,
                    Some("/tmp/manifests"@),
                    docker,
                    skip_auth,
                    host,
                ),
            ),
        ) + "\n"@,
{
    match script(app_instance, overlay_path, Some("/tmp/manifests"), docker, skip_auth, host) {
        Ok(script) => Ok(script.to_string().concat("\n")),
        Err(e) => Err(e),
    }
}

/// The command line of the helper that fetches an instance and writes it to a
/// file.
pub open spec fn fetch_commandline(
    helper: Seq<char>,
    ns: Seq<char>,
    name: Seq<char>,
    output_file: Seq<char>,
) -> Seq<Seq<char>> {
    seq!["kubit"@, "helper"@, helper, "--namespace"@, ns, "--output"@, output_file, name]
}

/// The command line that fetches the instance `name` of namespace `ns` and
/// writes it to `output_file`.
pub fn emit_fetch_app_instance_commandline(ns: &str, name: &str, output_file: &str) -> (cli: Vec<
    String,
>)
    ensures
        cli.deep_view() == fetch_commandline("fetch-app-instance"@, ns@, name@, output_file@),
{
    let mut cli = no_words();
    push_str(&mut cli, "kubit");
    push_str(&mut cli, "helper");
    push_str(&mut cli, "fetch-app-instance");
    push_str(&mut cli, "--namespace");
    push_str(&mut cli, ns);
    push_str(&mut cli, "--output");
    push_str(&mut cli, output_file);
    push_str(&mut cli, name);
    proof {
        assert(cli.deep_view() =~= fetch_commandline(
            "fetch-app-instance"@,
            ns@,
            name@,
            output_file@,
        ));
    }
    cli
}

/// The command line that fetches the instance held by the config map `name`
/// of namespace `ns` and writes it to `output_file`.
pub fn emit_fetch_appinstance_from_config_map_commandline(
    ns: &str,
    name: &str,
    output_file: &str,
) -> (cli: Vec<String>)
    ensures
        cli.deep_view() == fetch_commandline(
            "fetch-app-instance-from-config-map"@,
            ns@,
            name@,
            output_file@,
        ),
{
    let mut cli = no_words();
    push_str(&mut cli, "kubit");
    push_str(&mut cli, "helper");
    push_str(&mut cli, "fetch-app-instance-from-config-map");
    push_str(&mut cli, "--namespace");
    push_str(&mut cli, ns);
    push_str(&mut cli, "--output");
    push_str(&mut cli, output_file);
    push_str(&mut cli, name);
    proof {
        assert(cli.deep_view() =~= fetch_commandline(
            "fetch-app-instance-from-config-map"@,
            ns@,
            name@,
            output_file@,
        ));
    }
    cli
}

} // verus!
