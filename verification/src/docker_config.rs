//! Registry credentials as a docker configuration file holds them, which is
//! also the content of a `kubernetes.io/dockerconfigjson` secret.

use vstd::prelude::*;
use vstd::utf8::{decode_utf8, valid_utf8};
use crate::oci::RegistryAuth;
use crate::text::{
    find_char, index_of, is_absent, is_first_at, lemma_index_of_absent, lemma_index_of_found,
    lemma_index_of_sound, str_eq,
};

verus! {

/// Why `base64` could not decode a text. Nothing is read of it but its
/// words.
#[verifier::external_type_specification]
#[verifier::external_body]
pub struct ExBase64DecodeError(base64::DecodeError);

/// Why std took bytes for no UTF-8 text. Nothing is read of it but its words.
#[verifier::external_type_specification]
#[verifier::external_body]
pub struct ExFromUtf8Error(std::string::FromUtf8Error);

/// Why a docker configuration could not be read. Failures that come from
/// outside are held in words.
#[derive(Debug)]
pub enum Error {
    Deserializing(String),
    Base64Decode(String),
    FromUtf8(String),
    MissingColon,
}

impl Error {
    /// The error in words.
    pub open spec fn message_spec(&self) -> Seq<char> {
        match self {
            Error::Deserializing(e) => "Error deserializing JSON: "@ + e@,
            Error::Base64Decode(e) => "Error decoding base64 field inside docker config auth section: "@
                + e@,
            Error::FromUtf8(e) => "Error decoding content of base64 field inside docker config auth section: "@
                + e@,
            Error::MissingColon => "Missing colon in auth field"@,
        }
    }

    /// The error in words.
    pub fn to_string(&self) -> (r: String)
        ensures
            r@ == self.message_spec(),
    {
        match self {
            Error::Deserializing(e) => String::from_str("Error deserializing JSON: ").concat(
                e.as_str(),
            ),
            Error::Base64Decode(e) => String::from_str(
                "Error decoding base64 field inside docker config auth section: ",
            ).concat(e.as_str()),
            Error::FromUtf8(e) => String::from_str(
                "Error decoding content of base64 field inside docker config auth section: ",
            ).concat(e.as_str()),
            Error::MissingColon => String::from_str("Missing colon in auth field"),
        }
    }
}

/// The bytes that `text` stands for in standard base64 with padding, where it
/// is such an encoding.
pub uninterp spec fn base64_decoded(text: Seq<char>) -> Option<Seq<u8>>;

/// Decodes standard base64 with padding.
///
/// Trusted: calls `decode` of `base64::engine::general_purpose::STANDARD`,
/// which returns the decoded bytes or says why the text is no encoding. The
/// outcome is a function of the text alone and goes by the name
/// `base64_decoded`.
#[verifier::external_body]
fn base64_decode(text: &str) -> (r: Result<Vec<u8>, base64::DecodeError>)
    ensures
        match base64_decoded(text@) {
            Some(bytes) => r matches Ok(v) && v@ == bytes,
            None => r is Err,
        },
{
    base64::Engine::decode(&base64::engine::general_purpose::STANDARD, text)
}

/// A decoding failure in words.
///
/// Trusted: calls `to_string` of `base64::DecodeError`.
#[verifier::external_body]
fn base64_error_text(e: &base64::DecodeError) -> String {
    e.to_string()
}

/// Reads bytes as UTF-8 text.
///
/// Trusted: calls `String::from_utf8`, which std documents as returning the
/// string that the bytes encode, and an error exactly when they are not valid
/// UTF-8.
#[verifier::external_body]
fn string_from_utf8(bytes: Vec<u8>) -> (r: Result<String, std::string::FromUtf8Error>)
    ensures
        r is Ok <==> valid_utf8(bytes@),
        r matches Ok(s) ==> s@ == decode_utf8(bytes@),
{
    String::from_utf8(bytes)
}

/// An encoding failure in words.
///
/// Trusted: calls `to_string` of `std::string::FromUtf8Error`.
#[verifier::external_body]
fn utf8_error_text(e: &std::string::FromUtf8Error) -> String {
    e.to_string()
}

/// The credentials for one registry: user name and password apart, or both in
/// one base64 field, separated by a colon. They are not for printing.
#[derive(Clone)]
pub enum DockerCredentials {
    Split { username: String, password: String },
    Composite { auth: String },
}

/// Credentials as a mathematical value.
pub enum DockerCredentialsView {
    Split { username: Seq<char>, password: Seq<char> },
    Composite { auth: Seq<char> },
}

impl View for DockerCredentials {
    type V = DockerCredentialsView;

    open spec fn view(&self) -> DockerCredentialsView {
        match self {
            DockerCredentials::Split { username, password } => DockerCredentialsView::Split {
                username: username@,
                password: password@,
            },
            DockerCredentials::Composite { auth } => DockerCredentialsView::Composite {
                auth: auth@,
            },
        }
    }
}

impl DeepView for DockerCredentials {
    type V = DockerCredentialsView;

    open spec fn deep_view(&self) -> DockerCredentialsView {
        self@
    }
}

/// What unpacking credentials comes to: the user name and the password, or
/// the reason why there are none.
pub enum Unpacked {
    Pair(Seq<char>, Seq<char>),
    Base64Decode,
    FromUtf8,
    MissingColon,
}

/// What the decoded `auth` field `bytes` comes to: the text before the first
/// colon and the text after it.
pub open spec fn split_of(bytes: Seq<u8>) -> Unpacked {
    if !valid_utf8(bytes) {
        Unpacked::FromUtf8
    } else {
        match index_of(decode_utf8(bytes), ':') {
            Some(i) => Unpacked::Pair(decode_utf8(bytes).take(i), decode_utf8(bytes).skip(i + 1)),
            None => Unpacked::MissingColon,
        }
    }
}

/// What `credentials` come to.
pub open spec fn unpacked(credentials: DockerCredentialsView) -> Unpacked {
    match credentials {
        DockerCredentialsView::Split { username, password } => Unpacked::Pair(username, password),
        DockerCredentialsView::Composite { auth } => match base64_decoded(auth) {
            Some(bytes) => split_of(bytes),
            None => Unpacked::Base64Decode,
        },
    }
}

/// True when `r` tells `outcome`.
pub open spec fn tells(outcome: Unpacked, r: Result<(String, String), Error>) -> bool {
    match outcome {
        Unpacked::Pair(username, password) => r matches Ok(pair) && pair.0@ == username && pair.1@
            == password,
        Unpacked::Base64Decode => r matches Err(Error::Base64Decode(_)),
        Unpacked::FromUtf8 => r matches Err(Error::FromUtf8(_)),
        Unpacked::MissingColon => r matches Err(Error::MissingColon),
    }
}

/// True when `r` is the way to authenticate with `credentials`: anonymously
/// without any, else with what they come to.
pub open spec fn authenticates(
    credentials: Option<DockerCredentialsView>,
    r: Result<RegistryAuth, Error>,
) -> bool {
    match credentials {
        None => r matches Ok(RegistryAuth::Anonymous),
        Some(c) => match unpacked(c) {
            Unpacked::Pair(username, password) => r matches Ok(RegistryAuth::Basic(u, p)) && u@
                == username && p@ == password,
            Unpacked::Base64Decode => r matches Err(Error::Base64Decode(_)),
            Unpacked::FromUtf8 => r matches Err(Error::FromUtf8(_)),
            Unpacked::MissingColon => r matches Err(Error::MissingColon),
        },
    }
}

/// Splits the decoded content of an `auth` field into user name and
/// password at the first colon.
pub fn split_auth(bytes: Vec<u8>) -> (r: Result<(String, String), Error>)
    ensures
        tells(split_of(bytes@), r),
{
    match string_from_utf8(bytes) {
        Err(e) => Err(Error::FromUtf8(utf8_error_text(&e))),
        Ok(text) => {
            let n = text.as_str().unicode_len();
            match find_char(text.as_str(), ':') {
                None => Err(Error::MissingColon),
                Some(i) => {
                    proof {
                        lemma_index_of_sound(text@, ':');
                        assert(text@.subrange(0, i as int) =~= text@.take(i as int));
                        assert(text@.subrange(i + 1, n as int) =~= text@.skip(i + 1));
                    }
                    let user = String::from_str(text.as_str().substring_char(0, i));
                    let password = String::from_str(text.as_str().substring_char(i + 1, n));
                    Ok((user, password))
                },
            }
        },
    }
}

impl DockerCredentials {
    /// The user name and the password.
    pub fn unpack(&self) -> (r: Result<(String, String), Error>)
        ensures
            tells(unpacked(self@), r),
    {
        match self {
            DockerCredentials::Split { username, password } => Ok(
                (username.clone(), password.clone()),
            ),
            DockerCredentials::Composite { auth } => match base64_decode(auth.as_str()) {
                Ok(bytes) => split_auth(bytes),
                Err(e) => Err(Error::Base64Decode(base64_error_text(&e))),
            },
        }
    }
}

/// The content of a docker configuration file: credentials by registry. They
/// are not for printing.
#[derive(Clone)]
pub struct DockerConfig {
    auths: Vec<(String, DockerCredentials)>,
}

/// The registries of `entries`, in order.
pub open spec fn registries(entries: Seq<(Seq<char>, DockerCredentialsView)>) -> Seq<Seq<char>> {
    entries.map_values(|e: (Seq<char>, DockerCredentialsView)| e.0)
}

impl DockerConfig {
    /// The entries, one per registry.
    pub closed spec fn entries(&self) -> Seq<(Seq<char>, DockerCredentialsView)> {
        self.auths.deep_view()
    }

    /// No registry has two entries.
    pub open spec fn wf(&self) -> bool {
        forall|i: int, j: int|
            0 <= i < j < self.entries().len() ==> self.entries()[i].0 != self.entries()[j].0
    }

    /// The credentials held for `registry`, if any.
    pub open spec fn credentials(&self, registry: Seq<char>) -> Option<DockerCredentialsView> {
        match index_of(registries(self.entries()), registry) {
            Some(i) => Some(self.entries()[i].1),
            None => None,
        }
    }

    /// A configuration without credentials.
    pub fn new() -> (r: Self)
        ensures
            r.wf(),
            r.entries().len() == 0,
            forall|registry: Seq<char>| r.credentials(registry) is None,
    {
        let r = DockerConfig { auths: Vec::new() };
        proof {
            assert forall|registry: Seq<char>| r.credentials(registry) is None by {
                lemma_index_of_absent(registries(r.entries()), registry);
            }
        }
        r
    }

    /// What to print of a configuration: that it is one, and nothing of what
    /// it holds.
    pub fn fmt(&self) -> (r: String)
        ensures
            r@ == "DockerConfig { auths: \"<redacted>\" }"@,
    {
        String::from_str("DockerConfig { auths: \"<redacted>\" }")
    }

    /// The position of the entry for `registry`, if there is one.
    fn position(&self, registry: &str) -> (r: Option<usize>)
        ensures
            match r {
                Some(i) => index_of(registries(self.entries()), registry@) == Some(i as int) && i
                    < self.auths.len(),
                None => index_of(registries(self.entries()), registry@) is None,
            },
    {
        let ghost keys = registries(self.entries());
        let mut i: usize = 0;
        while i < self.auths.len()
            invariant
                i <= self.auths.len(),
                keys == registries(self.entries()),
                forall|j: int| 0 <= j < i ==> keys[j] != registry@,
            decreases self.auths.len() - i,
        {
            assert(keys[i as int] == self.auths@[i as int].0@);
            if str_eq(self.auths[i].0.as_str(), registry) {
                proof {
                    lemma_index_of_found(keys, registry@, i as int);
                }
                return Some(i);
            }
            i += 1;
        }
        proof {
            lemma_index_of_absent(keys, registry@);
        }
        None
    }

    /// Sets the credentials for `registry`, in place of those it had.
    pub fn insert(&mut self, registry: String, credentials: DockerCredentials)
        requires
            old(self).wf(),
        ensures
            final(self).wf(),
            final(self).credentials(registry@) == Some(credentials@),
            forall|other: Seq<char>|
                other != registry@ ==> final(self).credentials(other) == old(self).credentials(
                    other,
                ),
    {
        let ghost before = self.entries();
        let ghost key = registry@;
        let ghost value = credentials@;
        match self.position(registry.as_str()) {
            Some(i) => {
                self.auths.set(i, (registry, credentials));
                proof {
                    assert(self.entries() =~= before.update(i as int, (key, value)));
                    assert(registries(self.entries()) =~= registries(before));
                    assert forall|other: Seq<char>| other != key implies self.credentials(other)
                        == old(self).credentials(other) by {
                        crate::text::lemma_index_of_sound(registries(before), other);
                    }
                }
            },
            None => {
                self.auths.push((registry, credentials));
                proof {
                    let after = self.entries();
                    assert(after =~= before.push((key, value)));
                    crate::text::lemma_index_of_sound(registries(before), key);
                    assert(registries(after) =~= registries(before).push(key));
                    assert(is_first_at(registries(after), key, before.len() as int));
                    lemma_index_of_found(registries(after), key, before.len() as int);
                    assert forall|i: int, j: int| 0 <= i < j < after.len() implies after[i].0
                        != after[j].0 by {
                        if j == before.len() {
                            assert(registries(before)[i] == before[i].0);
                        }
                    }
                    assert forall|other: Seq<char>| other != key implies self.credentials(other)
                        == old(self).credentials(other) by {
                        crate::text::lemma_index_of_sound(registries(before), other);
                        match index_of(registries(before), other) {
                            Some(p) => {
                                assert(is_first_at(registries(after), other, p)) by {
                                    assert forall|j: int| 0 <= j < p implies registries(after)[j]
                                        != other by {
                                        assert(registries(before)[j] != other);
                                    }
                                }
                                lemma_index_of_found(registries(after), other, p);
                            },
                            None => {
                                assert(is_absent(registries(after), other)) by {
                                    assert forall|j: int|
                                        0 <= j < registries(after).len() implies registries(
                                        after,
                                    )[j] != other by {
                                        if j < before.len() {
                                            assert(registries(before)[j] != other);
                                        }
                                    }
                                }
                                lemma_index_of_absent(registries(after), other);
                            },
                        }
                    }
                }
            },
        }
    }

    /// How to authenticate to `registry`: with the user name and password held
    /// for it, or anonymously where the configuration does not mention it, which
    /// suits public images and is what the docker client does.
    pub fn get_auth(&self, registry: &str) -> (r: Result<RegistryAuth, Error>)
        ensures
            authenticates(self.credentials(registry@), r),
    {
        match self.position(registry) {
            None => Ok(RegistryAuth::Anonymous),
            Some(i) => {
                assert(self.entries()[i as int].1 == self.auths@[i as int].1@);
                let unpacked = self.auths[i].1.unpack();
                match unpacked {
                    Ok((username, password)) => Ok(RegistryAuth::Basic(username, password)),
                    Err(e) => Err(e),
                }
            },
        }
    }
}

} // verus!
