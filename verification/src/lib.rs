//! Rules of a Kubernetes operator that installs an application packaged as an
//! OCI artifact: the shell command lines it emits, the objects it asks the
//! cluster for, and the decisions of its reconciliation loop.

use vstd::prelude::*;

pub mod text;
pub mod scripting;
pub mod resources;
pub mod objects;
pub mod apply;
pub mod delete;
pub mod cleanup;
pub mod render;
pub mod docker_config;
pub mod oci;
pub mod local;
pub mod helpers;
pub mod metadata;
pub mod conditions;
pub mod credentials;
pub mod jobs;
pub mod logs;
pub mod rbac;
pub mod controller;
pub mod reconcile_apply;
pub mod reconcile_delete;

verus! {

/// Registry that holds the `kubecfg` image.
pub const KUBECFG_REGISTRY: &'static str = "ghcr.io/kubecfg/kubecfg/kubecfg";

/// How `Debug` writes an optional string: `None`, or `Some(..)` around the
/// string in double quotes with its special characters escaped.
pub uninterp spec fn debug_rendering(value: Option<Seq<char>>) -> Seq<char>;

/// The `Debug` form of an optional string.
///
/// Trusted: formats the value with `{:?}`; the text is a function of the
/// value alone and goes by the name `debug_rendering`.
#[verifier::external_body]
fn debug_text(value: &Option<String>) -> (r: String)
    ensures
        r@ == debug_rendering(value.deep_view()),
{
    format!("{value:?}")
}

/// What the cluster's API answered when a call failed: the HTTP status code,
/// where the failure is an answer of the server, and the failure in words.
#[derive(Clone, Debug)]
pub struct KubeError {
    pub code: Option<u16>,
    pub message: String,
}

/// What can go wrong in the operator. Where a failure comes from outside,
/// the variant holds it in words.
#[derive(Debug)]
pub enum Error {
    KubeError(KubeError),
    OCI(oci::Error),
    OCIParseError(String),
    UnsupportedManifestIndex,
    DecodePackageConfig(String),
    DecodeKubecfgPackageMetadata(String),
    RenderOverlay(String),
    IOError(String),
    TempfilePersistError(String),
    NamespaceRequired,
    UnsupportedMultipleImagePullSecrets,
    NoDockerConfigJsonInImagePullSecret,
    DecodeDockerConfig(docker_config::Error),
    BadImagePullSecretType(Option<String>),
    InvalidConfigMap(String),
    InvalidConfigMapStatus(String),
    FinalizerError(String),
    ResourceDeletionTimeout,
    UnsupportedDryRunOption(local::DryRun),
}

impl Error {
    /// The error in words.
    pub open spec fn message_spec(&self) -> Seq<char> {
        match self {
            Error::KubeError(e) => "Kube Error: "@ + e.message@,
            Error::OCI(e) => e.message_spec(),
            Error::OCIParseError(e) => "OCI error: "@ + e@,
            Error::UnsupportedManifestIndex => "Unsupported manifest type: Index"@,
            Error::DecodePackageConfig(e) => "Error decoding package config JSON: "@ + e@,
            Error::DecodeKubecfgPackageMetadata(e) => "Error decoding kubecfg pack metadata JSON: "@
                + e@,
            Error::RenderOverlay(e) => "Error rendering spec back as JSON: "@ + e@,
            Error::IOError(e) => "IO Error: "@ + e@,
            Error::TempfilePersistError(e) => "Internal error: "@ + e@,
            Error::NamespaceRequired => "Namespace is required"@,
            Error::UnsupportedMultipleImagePullSecrets => ".spec.imagePullSecret currently requires to have exactly one pull secret"@,
            Error::NoDockerConfigJsonInImagePullSecret => "Image pull secret doesn't contain .dockerconfigjson"@,
            Error::DecodeDockerConfig(e) => "Error decoding docker config JSON: "@
                + e.message_spec(),
            Error::BadImagePullSecretType(t) => "Unsupported image pull secret type: "@
                + debug_rendering(t.deep_view()) + ", should be kubernetes.io/dockerconfigjson"@,
            Error::InvalidConfigMap(e) => "Invalid ConfigMap: "@ + e@,
            Error::InvalidConfigMapStatus(e) => "Invalid ConfigMap status: "@ + e@,
            Error::FinalizerError(e) => "Finalizer Error: "@ + e@,
            Error::ResourceDeletionTimeout => "Timed out waiting for a resource to be deleted"@,
            Error::UnsupportedDryRunOption(d) => "Unsupported dry-run option: "@ + d.name_spec(),
        }
    }

    /// The error in words.
    pub fn to_string(&self) -> (r: String)
        ensures
            r@ == self.message_spec(),
    {
        match self {
            Error::KubeError(e) => String::from_str("Kube Error: ").concat(e.message.as_str()),
            Error::OCI(e) => e.to_string(),
            Error::OCIParseError(e) => String::from_str("OCI error: ").concat(e.as_str()),
            Error::UnsupportedManifestIndex => String::from_str("Unsupported manifest type: Index"),
            Error::DecodePackageConfig(e) => String::from_str(
                "Error decoding package config JSON: ",
            ).concat(e.as_str()),
            Error::DecodeKubecfgPackageMetadata(e) => String::from_str(
                "Error decoding kubecfg pack metadata JSON: ",
            ).concat(e.as_str()),
            Error::RenderOverlay(e) => String::from_str(
                "Error rendering spec back as JSON: ",
            ).concat(e.as_str()),
            Error::IOError(e) => String::from_str("IO Error: ").concat(e.as_str()),
            Error::TempfilePersistError(e) => String::from_str("Internal error: ").concat(
                e.as_str(),
            ),
            Error::NamespaceRequired => String::from_str("Namespace is required"),
            Error::UnsupportedMultipleImagePullSecrets => String::from_str(
                ".spec.imagePullSecret currently requires to have exactly one pull secret",
            ),
            Error::NoDockerConfigJsonInImagePullSecret => String::from_str(
                "Image pull secret doesn't contain .dockerconfigjson",
            ),
            Error::DecodeDockerConfig(e) => String::from_str(
                "Error decoding docker config JSON: ",
            ).concat(e.to_string().as_str()),
            Error::BadImagePullSecretType(t) => String::from_str(
                "Unsupported image pull secret type: ",
            ).concat(debug_text(t).as_str()).concat(", should be kubernetes.io/dockerconfigjson"),
            Error::InvalidConfigMap(e) => String::from_str("Invalid ConfigMap: ").concat(
                e.as_str(),
            ),
            Error::InvalidConfigMapStatus(e) => String::from_str(
                "Invalid ConfigMap status: ",
            ).concat(e.as_str()),
            Error::FinalizerError(e) => String::from_str("Finalizer Error: ").concat(e.as_str()),
            Error::ResourceDeletionTimeout => String::from_str(
                "Timed out waiting for a resource to be deleted",
            ),
            Error::UnsupportedDryRunOption(d) => String::from_str(
                "Unsupported dry-run option: ",
            ).concat(d.to_string().as_str()),
        }
    }
}

} // verus!
