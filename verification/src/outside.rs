//! Declarations of what the crate uses from outside, and what it relies on.
use std::io;
use std::path::PathBuf;
use vstd::prelude::*;
use vstd::string::to_string_from_display_ensures;
use vstd::utf8::{decode_utf8, encode_utf8, valid_utf8};

verus! {

/// A signing key of the `nkeys` crate, carried and never looked into.
#[verifier::external_type_specification]
#[verifier::external_body]
pub struct ExKeyPair(nkeys::KeyPair);

/// The error type of the `nkeys` crate.
#[verifier::external_type_specification]
#[verifier::external_body]
pub struct ExNkeysError(nkeys::error::Error);

/// The error type of the `serde_json` crate.
#[verifier::external_type_specification]
#[verifier::external_body]
pub struct ExJsonError(serde_json::Error);

/// A JSON document of the `serde_json` crate, carried and never looked into.
#[verifier::external_type_specification]
#[verifier::external_body]
pub struct ExJsonValue(serde_json::Value);

/// The I/O error of the standard library.
#[verifier::external_type_specification]
#[verifier::external_body]
pub struct ExIoError(io::Error);

/// The owned path of the standard library, carried and never looked into.
#[verifier::external_type_specification]
#[verifier::external_body]
pub struct ExPathBuf(PathBuf);

/// The pre-release part of a `semver` version.
#[verifier::external_type_specification]
#[verifier::external_body]
pub struct ExPrerelease(semver::Prerelease);

/// The build metadata of a `semver` version.
#[verifier::external_type_specification]
#[verifier::external_body]
pub struct ExBuildMetadata(semver::BuildMetadata);

/// The version type of the `semver` crate, whose five fields are public.
#[verifier::external_type_specification]
pub struct ExVersion(semver::Version);

/// `text` is what the `Display` implementation of `value` may write.
///
/// The relation is the one that the specification of `ToString::to_string` gives. It is a relation
/// and no function, because the text of an error of the operating system is not fixed by its value.
pub open spec fn displays<T: core::fmt::Display>(value: &T, text: Seq<char>) -> bool {
    exists|s: String|
        #[trigger] to_string_from_display_ensures::<T>(value, s) && s@ == text
}

/// What `nkeys::KeyPair::from_seed` returns for a seed.
pub uninterp spec fn nkeys_key_pair(
    seed: Seq<char>,
) -> Result<nkeys::KeyPair, nkeys::error::Error>;

/// What `nkeys::KeyPair::sign` returns for a key pair and an input.
pub uninterp spec fn nkeys_signature(
    pair: nkeys::KeyPair,
    input: Seq<u8>,
) -> Result<Seq<u8>, nkeys::error::Error>;

/// What `String::from_utf8_lossy` makes of a sequence of bytes.
pub uninterp spec fn utf8_lossy(bytes: Seq<u8>) -> Seq<char>;

/// What `semver::Prerelease::as_str` returns for the pre-release part of a version.
pub uninterp spec fn prerelease_text(pre: semver::Prerelease) -> Seq<char>;

/// What `semver::BuildMetadata::as_str` returns for the build metadata of a version.
pub uninterp spec fn build_metadata_text(build: semver::BuildMetadata) -> Seq<char>;

/// Why `serde_json` does not decode an empty value.
pub open spec fn empty_value_refusal() -> Seq<char> {
    "EOF while parsing a value at line 1 column 0"@
}

/// `pair` holds a secret key, because a seed gave it.
pub open spec fn from_some_seed(pair: nkeys::KeyPair) -> bool {
    exists|seed: Seq<char>| #[trigger] nkeys_key_pair(seed) == Ok::<_, nkeys::error::Error>(pair)
}

/// A `Result` with its bytes taken by their view.
pub open spec fn bytes_result(
    r: Result<Vec<u8>, nkeys::error::Error>,
) -> Result<Seq<u8>, nkeys::error::Error> {
    match r {
        Ok(bytes) => Ok(bytes@),
        Err(e) => Err(e),
    }
}

/// `nkeys::KeyPair::from_seed` decodes an encoded seed. The result is fixed by the text of the
/// seed, and a text that does not take 58 bytes is refused.
pub assume_specification[ nkeys::KeyPair::from_seed ](source: &str) -> (r: Result<
    nkeys::KeyPair,
    nkeys::error::Error,
>)
    ensures
        r == nkeys_key_pair(source@),
        encode_utf8(source@).len() != 58 ==> r is Err,
;

/// `nkeys::KeyPair::sign` signs with the secret key of the pair. The signature is fixed by the
/// pair and the input, and a pair that came from a seed can always sign.
pub assume_specification[ nkeys::KeyPair::sign ](pair: &nkeys::KeyPair, input: &[u8]) -> (r: Result<
    Vec<u8>,
    nkeys::error::Error,
>)
    ensures
        bytes_result(r) == nkeys_signature(*pair, input@),
        from_some_seed(*pair) ==> r is Ok,
;

/// `semver::Version::new` makes the version of three numbers, with an empty pre-release part and
/// empty build metadata.
pub assume_specification[ semver::Version::new ](major: u64, minor: u64, patch: u64) -> (v:
    semver::Version)
    ensures
        v.major == major,
        v.minor == minor,
        v.patch == patch,
        prerelease_text(v.pre) == Seq::<char>::empty(),
        build_metadata_text(v.build) == Seq::<char>::empty(),
;

/// `semver::Prerelease::as_str` gives the text of a pre-release part.
pub assume_specification[ semver::Prerelease::as_str ](pre: &semver::Prerelease) -> (text: &str)
    ensures
        text@ == prerelease_text(*pre),
;

/// `semver::BuildMetadata::as_str` gives the text of build metadata.
pub assume_specification[ semver::BuildMetadata::as_str ](build: &semver::BuildMetadata) -> (text:
    &str)
    ensures
        text@ == build_metadata_text(*build),
;

/// `serde_json::from_slice`, decoding a JSON value from no bytes at all. It refuses them, and the
/// error says that the input ended where a value was expected, at its very beginning.
#[verifier::external_body]
pub(crate) fn decode_empty_value(value: &[u8]) -> (r: Result<serde_json::Value, serde_json::Error>)
    requires
        value@.len() == 0,
    ensures
        r is Err,
        forall|text: Seq<char>| #[trigger]
            displays(&r->Err_0, text) ==> text == empty_value_refusal(),
{
    serde_json::from_slice(value)
}

/// `String::from_utf8_lossy` turns bytes into text. The text is fixed by the bytes; bytes that are
/// UTF-8 are decoded, and others have their invalid sequences replaced.
#[verifier::external_body]
pub(crate) fn text_from_utf8_lossy(bytes: &[u8]) -> (text: String)
    ensures
        text@ == utf8_lossy(bytes@),
        valid_utf8(bytes@) ==> text@ == decode_utf8(bytes@),
{
    String::from_utf8_lossy(bytes).into_owned()
}

} // verus!
