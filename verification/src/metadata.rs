//! What can be asked about the package of an instance.

use vstd::prelude::*;
use crate::oci::RegistryAuth;

verus! {

/// Questions about a package.
#[derive(Clone, Debug)]
pub enum Metadata {
    /// Retrieve the JSON schema for the package `spec`.
    Schema { app_instance: String, skip_auth: bool },
    /// Retrieve the list of OCI images referenced by the package. It can be
    /// useful when using a private mirror for air-gapped environments.
    Images { app_instance: String, skip_auth: bool },
}

/// What the local credential store holds for a registry.
#[derive(Clone)]
pub enum DockerCredential {
    IdentityToken(String),
    UsernamePassword(String, String),
}

/// Why a credential of another kind than user name and password is of no use.
pub const UNSUPPORTED_CREDENTIALS: &'static str = "unsupported docker credentials";

/// How to authenticate to a registry with what the local credential store
/// holds for it: with user name and password, and not at all with a token.
pub fn fetch_package_config_local_auth(credential: DockerCredential) -> (r: Result<
    RegistryAuth,
    String,
>)
    ensures
        match credential {
            DockerCredential::UsernamePassword(username, password) => r matches Ok(
                RegistryAuth::Basic(u, p),
            ) && u == username && p == password,
            DockerCredential::IdentityToken(_) => r matches Err(m) && m@
                == UNSUPPORTED_CREDENTIALS@,
        },
{
    match credential {
        DockerCredential::UsernamePassword(username, password) => Ok(
            RegistryAuth::Basic(username, password),
        ),
        DockerCredential::IdentityToken(_) => Err(String::from_str(UNSUPPORTED_CREDENTIALS)),
    }
}

} // verus!
