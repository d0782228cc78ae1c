//! How the operator authenticates to the registry of an instance's package:
//! with the credentials of the instance's pull secret, if it names one.

use vstd::prelude::*;
use crate::docker_config::{authenticates, DockerConfig, Unpacked, unpacked};
use crate::jobs::pull_secret_count;
use crate::objects::Secret;
use crate::oci::{image_registry, reference_registry, RegistryAuth};
use crate::resources::AppInstance;
use crate::text::{index_of, lemma_index_of_absent, lemma_index_of_found, str_eq};
use crate::Error;

verus! {

/// The type of a secret that holds a docker configuration.
pub const DOCKER_CONFIG_SECRET_TYPE: &'static str = "kubernetes.io/dockerconfigjson";

/// The key under which such a secret holds it.
pub const DOCKER_CONFIG_KEY: &'static str = ".dockerconfigjson";

/// True when `r` names the secret to read the credentials of `instance` from:
/// none where the instance names no pull secret, the one it names where it
/// names one and has a namespace to look in.
pub open spec fn is_pull_secret_of(instance: AppInstance, r: Result<Option<String>, Error>) -> bool {
    if pull_secret_count(instance) == 0 {
        r matches Ok(None)
    } else if pull_secret_count(instance) >= 2 {
        r matches Err(Error::UnsupportedMultipleImagePullSecrets)
    } else if instance.metadata.namespace is None {
        r matches Err(Error::NamespaceRequired)
    } else {
        r matches Ok(Some(name)) && Some(name) == instance.spec.image_pull_secrets->0@[0].name
    }
}

/// True when the one pull secret that `instance` names, if it names one, has
/// a name. The schema of instances sees to that.
pub open spec fn pull_secret_is_named(instance: AppInstance) -> bool {
    pull_secret_count(instance) == 1 ==> instance.spec.image_pull_secrets->0@[0].name is Some
}

/// Tells whether the one pull secret that `instance` names, if it names one,
/// has a name.
pub fn has_named_pull_secret(instance: &AppInstance) -> (r: bool)
    ensures
        r == pull_secret_is_named(*instance),
{
    match &instance.spec.image_pull_secrets {
        Some(refs) => refs.len() != 1 || refs[0].name.is_some(),
        None => true,
    }
}

/// The secret to read the credentials of `instance` from, if any. Without a
/// pull secret the registry is used anonymously; more than one is not
/// supported.
pub fn pull_secret_name(instance: &AppInstance) -> (r: Result<Option<String>, Error>)
    requires
        pull_secret_is_named(*instance),
    ensures
        is_pull_secret_of(*instance, r),
{
    let refs = match &instance.spec.image_pull_secrets {
        Some(refs) => refs,
        None => {
            return Ok(None);
        },
    };
    if refs.len() == 0 {
        return Ok(None);
    }
    if refs.len() != 1 {
        return Err(Error::UnsupportedMultipleImagePullSecrets);
    }
    let name = match &refs[0].name {
        Some(name) => name.clone(),
        None => {
            proof {
                assert(false);
            }
            String::new()
        },
    };
    if instance.metadata.namespace.is_none() {
        return Err(Error::NamespaceRequired);
    }
    Ok(Some(name))
}

/// The keys of a secret's data, in order.
pub open spec fn data_keys(data: Seq<(Seq<char>, Seq<u8>)>) -> Seq<Seq<char>> {
    data.map_values(|e: (Seq<char>, Seq<u8>)| e.0)
}

/// The docker configuration that a secret holds, as bytes.
pub open spec fn docker_config_of(data: Option<Seq<(Seq<char>, Seq<u8>)>>) -> Option<Seq<u8>> {
    match data {
        Some(entries) => match index_of(data_keys(entries), DOCKER_CONFIG_KEY@) {
            Some(i) => Some(entries[i].1),
            None => None,
        },
        None => None,
    }
}

/// True when `r` is what reading the docker configuration out of `secret`
/// comes to: the secret must be of the type for docker configurations and
/// hold one.
pub open spec fn is_docker_config_of(secret: Secret, r: Result<Vec<u8>, Error>) -> bool {
    if secret.type_.deep_view() != Some(DOCKER_CONFIG_SECRET_TYPE@) {
        r matches Err(Error::BadImagePullSecretType(t)) && t == secret.type_
    } else {
        match docker_config_of(secret.data.deep_view()) {
            Some(bytes) => r matches Ok(b) && b@ == bytes,
            None => r matches Err(Error::NoDockerConfigJsonInImagePullSecret),
        }
    }
}

/// The docker configuration that a pull secret holds, still encoded.
pub fn docker_config_json(secret: &Secret) -> (r: Result<Vec<u8>, Error>)
    ensures
        is_docker_config_of(*secret, r),
{
    let type_ok = match &secret.type_ {
        Some(t) => str_eq(t.as_str(), DOCKER_CONFIG_SECRET_TYPE),
        None => false,
    };
    if !type_ok {
        let t = match &secret.type_ {
            Some(t) => Some(t.clone()),
            None => None,
        };
        return Err(Error::BadImagePullSecretType(t));
    }
    match &secret.data {
        None => Err(Error::NoDockerConfigJsonInImagePullSecret),
        Some(entries) => {
            let ghost keys = data_keys(entries.deep_view());
            let mut i: usize = 0;
            while i < entries.len()
                invariant
                    i <= entries.len(),
                    secret.data == Some(*entries),
                    secret.type_.deep_view() == Some(DOCKER_CONFIG_SECRET_TYPE@),
                    keys == data_keys(entries.deep_view()),
                    forall|j: int| 0 <= j < i ==> keys[j] != DOCKER_CONFIG_KEY@,
                decreases entries.len() - i,
            {
                assert(keys[i as int] == entries@[i as int].0@);
                if str_eq(entries[i].0.as_str(), DOCKER_CONFIG_KEY) {
                    let bytes = entries[i].1.clone();
                    proof {
                        lemma_index_of_found(keys, DOCKER_CONFIG_KEY@, i as int);
                        assert(entries.deep_view()[i as int].1 == entries@[i as int].1@);
                        assert(bytes@ =~= entries@[i as int].1@);
                    }
                    return Ok(bytes);
                }
                i += 1;
            }
            proof {
                lemma_index_of_absent(keys, DOCKER_CONFIG_KEY@);
            }
            Err(Error::NoDockerConfigJsonInImagePullSecret)
        },
    }
}

/// True when `r` is the way to authenticate to the registry of `image` with
/// `docker_config`: that of the credentials which the configuration holds for
/// the registry that the image reference names.
pub open spec fn is_registry_auth(
    image: Seq<char>,
    docker_config: DockerConfig,
    r: Result<RegistryAuth, Error>,
) -> bool {
    match reference_registry(image) {
        None => r matches Err(Error::OCIParseError(_)),
        Some(registry) => match docker_config.credentials(registry) {
            None => r matches Ok(RegistryAuth::Anonymous),
            Some(c) => match unpacked(c) {
                Unpacked::Pair(username, password) => r matches Ok(RegistryAuth::Basic(u, p))
                    && u@ == username && p@ == password,
                Unpacked::Base64Decode => r matches Err(
                    Error::DecodeDockerConfig(crate::docker_config::Error::Base64Decode(_)),
                ),
                Unpacked::FromUtf8 => r matches Err(
                    Error::DecodeDockerConfig(crate::docker_config::Error::FromUtf8(_)),
                ),
                Unpacked::MissingColon => r matches Err(
                    Error::DecodeDockerConfig(crate::docker_config::Error::MissingColon),
                ),
            },
        },
    }
}

/// What looking up the registry `registry` in `docker_config` came to, as the
/// operator reports it.
pub fn auth_for_registry(
    registry: Result<String, crate::oci::Error>,
    docker_config: &DockerConfig,
) -> (r: Result<RegistryAuth, Error>)
    ensures
        match registry {
            Err(crate::oci::Error::OciParse(e)) => r matches Err(Error::OCIParseError(m)) && m
                == e,
            Err(e) => r matches Err(Error::OCI(f)) && f == e,
            Ok(name) => match docker_config.credentials(name@) {
                None => r matches Ok(RegistryAuth::Anonymous),
                Some(c) => match unpacked(c) {
                    Unpacked::Pair(username, password) => r matches Ok(RegistryAuth::Basic(u, p))
                        && u@ == username && p@ == password,
                    Unpacked::Base64Decode => r matches Err(
                        Error::DecodeDockerConfig(crate::docker_config::Error::Base64Decode(_)),
                    ),
                    Unpacked::FromUtf8 => r matches Err(
                        Error::DecodeDockerConfig(crate::docker_config::Error::FromUtf8(_)),
                    ),
                    Unpacked::MissingColon => r matches Err(
                        Error::DecodeDockerConfig(crate::docker_config::Error::MissingColon),
                    ),
                },
            },
        },
{
    match registry {
        Err(crate::oci::Error::OciParse(e)) => Err(Error::OCIParseError(e)),
        Err(e) => Err(Error::OCI(e)),
        Ok(name) => match docker_config.get_auth(name.as_str()) {
            Ok(auth) => Ok(auth),
            Err(e) => Err(Error::DecodeDockerConfig(e)),
        },
    }
}

/// How to authenticate to the registry of the instance's package with the
/// docker configuration of its pull secret.
pub fn registry_auth(instance: &AppInstance, docker_config: &DockerConfig) -> (r: Result<
    RegistryAuth,
    Error,
>)
    ensures
        is_registry_auth(instance.spec.package.image@, *docker_config, r),
{
    auth_for_registry(image_registry(instance.spec.package.image.as_str()), docker_config)
}

} // verus!
