//! What the operator reads of a package: where it is stored and what its
//! configuration says.

use vstd::prelude::*;

verus! {

/// Why `oci_distribution` took a text for no image reference. Nothing is read
/// of it but its words.
#[verifier::external_type_specification]
#[verifier::external_body]
pub struct ExParseError(oci_distribution::ParseError);

/// How to authenticate to a registry.
#[derive(Clone, Debug)]
pub enum RegistryAuth {
    Anonymous,
    Basic(String, String),
}

/// Why a package's configuration could not be had. Failures that come from
/// outside are held in words.
#[derive(Debug)]
pub enum Error {
    UnsupportedManifestIndex,
    DecodePackageConfig(String),
    DecodeKubecfgPackageMetadata(String),
    OciParse(String),
    Oci(String),
    MissingMetadataKeyPack,
    MissingMetadataKeyKubit,
    MissingMetadataKeyKubitSchema,
    MissingMetadataKeyImageList,
    MissingMetadataKeyImageListImages,
    SerializeJSONSchema(String),
    SerializeImageList(String),
}

impl Error {
    /// The error in words.
    pub open spec fn message_spec(&self) -> Seq<char> {
        match self {
            Error::UnsupportedManifestIndex => "Unsupported manifest type: Index"@,
            Error::DecodePackageConfig(e) => "Error decoding package config JSON: "@ + e@,
            Error::DecodeKubecfgPackageMetadata(e) => "Error decoding kubecfg pack metadata JSON: "@
                + e@,
            Error::OciParse(e) => "OCI error: "@ + e@,
            Error::Oci(e) => "OCI error: "@ + e@,
            Error::MissingMetadataKeyPack => "Missing metadata key: pack.kubecfg.dev/v1alpha1"@,
            Error::MissingMetadataKeyKubit => "Missing metadata key: kubit.kubecfg.dev/v1alpha1"@,
            Error::MissingMetadataKeyKubitSchema => "Missing metadata key: schema under kubit.kubecfg.dev/v1alpha1"@,
            Error::MissingMetadataKeyImageList => "Missing metadata key: oci.image.list"@,
            Error::MissingMetadataKeyImageListImages => "Missing metadata key: images under oci.image.list"@,
            Error::SerializeJSONSchema(e) => "Error serializing JSON schema: "@ + e@,
            Error::SerializeImageList(e) => "Error serializing image list: "@ + e@,
        }
    }

    /// The error in words.
    pub fn to_string(&self) -> (r: String)
        ensures
            r@ == self.message_spec(),
    {
        match self {
            Error::UnsupportedManifestIndex => String::from_str("Unsupported manifest type: Index"),
            Error::DecodePackageConfig(e) => String::from_str(
                "Error decoding package config JSON: ",
            ).concat(e.as_str()),
            Error::DecodeKubecfgPackageMetadata(e) => String::from_str(
                "Error decoding kubecfg pack metadata JSON: ",
            ).concat(e.as_str()),
            Error::OciParse(e) => String::from_str("OCI error: ").concat(e.as_str()),
            Error::Oci(e) => String::from_str("OCI error: ").concat(e.as_str()),
            Error::MissingMetadataKeyPack => String::from_str(
                "Missing metadata key: pack.kubecfg.dev/v1alpha1",
            ),
            Error::MissingMetadataKeyKubit => String::from_str(
                "Missing metadata key: kubit.kubecfg.dev/v1alpha1",
            ),
            Error::MissingMetadataKeyKubitSchema => String::from_str(
                "Missing metadata key: schema under kubit.kubecfg.dev/v1alpha1",
            ),
            Error::MissingMetadataKeyImageList => String::from_str(
                "Missing metadata key: oci.image.list",
            ),
            Error::MissingMetadataKeyImageListImages => String::from_str(
                "Missing metadata key: images under oci.image.list",
            ),
            Error::SerializeJSONSchema(e) => String::from_str(
                "Error serializing JSON schema: ",
            ).concat(e.as_str()),
            Error::SerializeImageList(e) => String::from_str(
                "Error serializing image list: ",
            ).concat(e.as_str()),
        }
    }
}

/// The registry that an image reference names, where the text is an image
/// reference: what stands before the first slash, where that holds a dot or a
/// colon or is `localhost`, and `docker.io` otherwise; `index.docker.io` is
/// read as `docker.io`.
pub uninterp spec fn reference_registry(image: Seq<char>) -> Option<Seq<char>>;

/// The registry of an image reference.
///
/// Trusted: parses the text as an `oci_distribution::Reference` and returns
/// what `registry` gives, or the parser's error. The outcome is a function of
/// the text alone and goes by the name `reference_registry`.
#[verifier::external_body]
fn parse_registry(image: &str) -> (r: Result<String, oci_distribution::ParseError>)
    ensures
        match reference_registry(image@) {
            Some(registry) => r matches Ok(s) && s@ == registry,
            None => r is Err,
        },
{
    let reference: oci_distribution::Reference = image.parse()?;
    Ok(reference.registry().to_string())
}

/// A parsing failure in words.
///
/// Trusted: calls `to_string` of `oci_distribution::ParseError`.
#[verifier::external_body]
fn parse_error_text(e: &oci_distribution::ParseError) -> String {
    e.to_string()
}

/// The registry that `image` names, or why `image` is no image reference.
pub fn image_registry(image: &str) -> (r: Result<String, Error>)
    ensures
        match reference_registry(image@) {
            Some(registry) => r matches Ok(s) && s@ == registry,
            None => r matches Err(Error::OciParse(_)),
        },
{
    match parse_registry(image) {
        Ok(registry) => Ok(registry),
        Err(e) => Err(Error::OciParse(parse_error_text(&e))),
    }
}

pub const PACK_KEY: &'static str = "pack.kubecfg.dev/v1alpha1";

pub const KUBIT_KEY: &'static str = "kubit.kubecfg.dev/v1alpha1";

pub const IMAGE_LIST_KEY: &'static str = "oci.image.list";

/// What a package says of the `kubecfg` it was made for.
#[derive(Clone, Debug)]
pub struct KubecfgPackageMetadata {
    pub version: String,
}

/// The configuration of a package, as far as the operator reads it. Each
/// piece of metadata is held as reading it came out: absent, unreadable (with
/// the reason in words), or read.
#[derive(Clone, Debug)]
pub struct PackageConfig {
    pub entrypoint: String,
    /// What stands under `PACK_KEY`.
    pub pack: Option<Result<KubecfgPackageMetadata, String>>,
    /// What stands under `KUBIT_KEY`, and under `schema` there, as indented
    /// JSON text.
    pub kubit_schema: Option<Option<Result<String, String>>>,
    /// What stands under `IMAGE_LIST_KEY`, and under `images` there.
    pub image_list: Option<Option<Result<Vec<String>, String>>>,
}

impl PackageConfig {
    /// The `kubecfg` version that the package asks for, where its metadata
    /// give one.
    pub open spec fn kubecfg_version(&self) -> Option<Seq<char>> {
        match self.pack {
            Some(Ok(metadata)) => Some(metadata.version@),
            _ => None,
        }
    }

    /// What the package says of the `kubecfg` it was made for.
    pub fn kubecfg_package_metadata(&self) -> (r: Result<KubecfgPackageMetadata, Error>)
        ensures
            match self.pack {
                None => r matches Err(Error::MissingMetadataKeyPack),
                Some(Err(e)) => r matches Err(Error::DecodeKubecfgPackageMetadata(m)) && m@ == e@,
                Some(Ok(metadata)) => r matches Ok(m) && m.version@ == metadata.version@,
            },
    {
        match &self.pack {
            None => Err(Error::MissingMetadataKeyPack),
            Some(Err(e)) => Err(Error::DecodeKubecfgPackageMetadata(e.clone())),
            Some(Ok(metadata)) => Ok(KubecfgPackageMetadata { version: metadata.version.clone() }),
        }
    }

    /// The `kubecfg` image to render the package with: `kubecfg_image` in the
    /// version that the package asks for.
    pub fn versioned_kubecfg_image(&self, kubecfg_image: &str) -> (r: Result<String, Error>)
        ensures
            match self.pack {
                None => r matches Err(Error::MissingMetadataKeyPack),
                Some(Err(e)) => r matches Err(Error::DecodeKubecfgPackageMetadata(m)) && m@ == e@,
                Some(Ok(metadata)) => r matches Ok(image) && image@ == kubecfg_image@ + ":"@
                    + metadata.version@,
            },
    {
        match self.kubecfg_package_metadata() {
            Ok(metadata) => Ok(
                String::from_str(kubecfg_image).concat(":").concat(metadata.version.as_str()),
            ),
            Err(e) => Err(e),
        }
    }

    /// The JSON schema of the package's overlay, as indented text.
    pub fn schema(&self) -> (r: Result<String, Error>)
        ensures
            match self.kubit_schema {
                None => r matches Err(Error::MissingMetadataKeyKubit),
                Some(None) => r matches Err(Error::MissingMetadataKeyKubitSchema),
                Some(Some(Err(e))) => r matches Err(Error::SerializeJSONSchema(m)) && m@ == e@,
                Some(Some(Ok(text))) => r matches Ok(t) && t@ == text@,
            },
    {
        match &self.kubit_schema {
            None => Err(Error::MissingMetadataKeyKubit),
            Some(None) => Err(Error::MissingMetadataKeyKubitSchema),
            Some(Some(Err(e))) => Err(Error::SerializeJSONSchema(e.clone())),
            Some(Some(Ok(text))) => Ok(text.clone()),
        }
    }

    /// The images that the package refers to.
    pub fn images(&self) -> (r: Result<Vec<String>, Error>)
        ensures
            match self.image_list {
                None => r matches Err(Error::MissingMetadataKeyImageList),
                Some(None) => r matches Err(Error::MissingMetadataKeyImageListImages),
                Some(Some(Err(e))) => r matches Err(Error::SerializeImageList(m)) && m@ == e@,
                Some(Some(Ok(images))) => r matches Ok(list) && list.deep_view()
                    == images.deep_view(),
            },
    {
        match &self.image_list {
            None => Err(Error::MissingMetadataKeyImageList),
            Some(None) => Err(Error::MissingMetadataKeyImageListImages),
            Some(Some(Err(e))) => Err(Error::SerializeImageList(e.clone())),
            Some(Some(Ok(images))) => {
                let mut list: Vec<String> = Vec::new();
                let mut i: usize = 0;
                while i < images.len()
                    invariant
                        i <= images.len(),
                        self.image_list == Some(Some(Ok::<Vec<String>, String>(*images))),
                        list.deep_view() == images.deep_view().take(i as int),
                    decreases images.len() - i,
                {
                    let ghost before = list.deep_view();
                    list.push(images[i].clone());
                    proof {
                        assert(list.deep_view() =~= before.push(images@[i as int]@));
                        assert(images.deep_view().take(i + 1) =~= images.deep_view().take(
                            i as int,
                        ).push(images@[i as int]@));
                    }
                    i += 1;
                }
                proof {
                    assert(images.deep_view().take(images.len() as int) =~= images.deep_view());
                }
                Ok(list)
            },
        }
    }
}

} // verus!
