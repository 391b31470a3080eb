//! How to log in to NATS.
use crate::config::NatsAuthConfig;
use crate::error::{StorageEngineError, StorageEngineErrorView};
use crate::outside::{
    bytes_result, displays, from_some_seed, nkeys_key_pair, nkeys_signature, text_from_utf8_lossy,
    utf8_lossy,
};
use std::path::PathBuf;
use vstd::prelude::*;
use vstd::utf8::{decode_utf8, encode_utf8, valid_utf8};

verus! {

/// A way to log in, with what it needs
#[derive(Debug)]
pub enum AuthMethod<'a> {
    /// A user JWT from a file, with nonces signed by the key of a seed
    Jwt { jwt_path: &'a PathBuf, seed: &'a str },
    /// A credentials file
    CredentialsFile { creds_file: &'a str },
    /// No credentials
    Anonymous,
}

/// An [`AuthMethod`] over sequences.
pub enum AuthMethodView {
    Jwt { jwt_path: PathBuf, seed: Seq<char> },
    CredentialsFile { creds_file: Seq<char> },
    Anonymous,
}

impl<'a> View for AuthMethod<'a> {
    type V = AuthMethodView;

    open spec fn view(&self) -> AuthMethodView {
        match *self {
            AuthMethod::Jwt { jwt_path, seed } => AuthMethodView::Jwt {
                jwt_path: *jwt_path,
                seed: seed@,
            },
            AuthMethod::CredentialsFile { creds_file } => AuthMethodView::CredentialsFile {
                creds_file: creds_file@,
            },
            AuthMethod::Anonymous => AuthMethodView::Anonymous,
        }
    }
}

/// The way to log in that a configuration asks for: a JWT file with a seed where both are given,
/// otherwise a credentials file where one is given, otherwise no credentials.
pub open spec fn auth_method(cfg: NatsAuthConfig) -> AuthMethodView {
    if cfg.jwt_path is Some && cfg.jwt_seed is Some {
        AuthMethodView::Jwt { jwt_path: cfg.jwt_path->0, seed: cfg.jwt_seed->0@ }
    } else if cfg.creds_file is Some {
        AuthMethodView::CredentialsFile { creds_file: cfg.creds_file->0@ }
    } else {
        AuthMethodView::Anonymous
    }
}

/// The way to log in of an engine that may have no authentication config at all.
pub open spec fn login_method(auth: Option<NatsAuthConfig>) -> AuthMethodView {
    match auth {
        Some(cfg) => auth_method(cfg),
        None => AuthMethodView::Anonymous,
    }
}

/// Chooses the way to log in that a configuration asks for
pub fn build_nats_options(cfg: &NatsAuthConfig) -> (method: AuthMethod<'_>)
    ensures
        method@ == auth_method(*cfg),
        match method {
            AuthMethod::Jwt { jwt_path, seed } => {
                &&& cfg.jwt_path == Some(*jwt_path)
                &&& cfg.jwt_seed is Some && cfg.jwt_seed->0@ == seed@
            },
            AuthMethod::CredentialsFile { creds_file } => {
                &&& cfg.jwt_path is None || cfg.jwt_seed is None
                &&& cfg.creds_file is Some && cfg.creds_file->0@ == creds_file@
            },
            AuthMethod::Anonymous => {
                &&& cfg.jwt_path is None || cfg.jwt_seed is None
                &&& cfg.creds_file is None
            },
        },
{
    // Use JWT + seed if present
    if let (Some(jwt_path), Some(seed)) = (&cfg.jwt_path, &cfg.jwt_seed) {
        return AuthMethod::Jwt { jwt_path, seed: seed.as_str() };
    }

    // Use creds file if present
    if let Some(creds_file) = &cfg.creds_file {
        return AuthMethod::CredentialsFile { creds_file: creds_file.as_str() };
    }

    AuthMethod::Anonymous
}

/// A user JWT and the key that signs the nonces of the server
#[derive(Debug)]
pub struct JwtCredentials {
    jwt: String,
    key_pair: nkeys::KeyPair,
}

/// A [`JwtCredentials`] over sequences.
pub struct JwtCredentialsView {
    pub jwt: Seq<char>,
    pub key_pair: nkeys::KeyPair,
}

impl View for JwtCredentials {
    type V = JwtCredentialsView;

    closed spec fn view(&self) -> JwtCredentialsView {
        JwtCredentialsView { jwt: self.jwt@, key_pair: self.key_pair }
    }
}

/// `result` is what comes of a JWT and of what a seed decodes to: the credentials with both, or
/// the error that says why the seed was refused.
pub open spec fn is_jwt_login(
    jwt: Seq<char>,
    key_pair: Result<nkeys::KeyPair, nkeys::error::Error>,
    result: Result<JwtCredentialsView, StorageEngineErrorView>,
) -> bool {
    match key_pair {
        Ok(key_pair) => result == Ok::<_, StorageEngineErrorView>(
            (JwtCredentialsView { jwt, key_pair }),
        ),
        Err(e) => exists|reason: Seq<char>| #[trigger]
            displays(&e, reason) && result == Err::<JwtCredentialsView, _>(
                StorageEngineErrorView::seed_refused(reason),
            ),
    }
}

/// The view of credentials or of the error in their place.
pub open spec fn jwt_result_view(
    result: Result<JwtCredentials, StorageEngineError>,
) -> Result<JwtCredentialsView, StorageEngineErrorView> {
    match result {
        Ok(credentials) => Ok(credentials@),
        Err(e) => Err(e@),
    }
}

impl JwtCredentials {
    /// Credentials from a JWT and from what a seed decodes to
    pub fn from_key_pair(
        jwt: String,
        key_pair: Result<nkeys::KeyPair, nkeys::error::Error>,
    ) -> (result: Result<JwtCredentials, StorageEngineError>)
        ensures
            is_jwt_login(jwt@, key_pair, jwt_result_view(result)),
            result is Ok <==> key_pair is Ok,
            result is Ok ==> result->Ok_0@.jwt == jwt@ && result->Ok_0@.key_pair == key_pair->Ok_0,
    {
        match key_pair {
            Ok(key_pair) => Ok(JwtCredentials { jwt, key_pair }),
            Err(e) => Err(StorageEngineError::from(e)),
        }
    }

    /// Credentials from the contents of a JWT file and from an encoded seed
    ///
    /// An encoded seed takes 58 bytes.
    pub fn from_file_contents(contents: &[u8], seed: &str) -> (result: Result<
        JwtCredentials,
        StorageEngineError,
    >)
        ensures
            is_jwt_login(utf8_lossy(contents@), nkeys_key_pair(seed@), jwt_result_view(result)),
            result is Ok <==> nkeys_key_pair(seed@) is Ok,
            result is Ok ==> result->Ok_0@.jwt == utf8_lossy(contents@),
            result is Ok && valid_utf8(contents@) ==> result->Ok_0@.jwt == decode_utf8(contents@),
            result is Ok ==> result->Ok_0@.key_pair == nkeys_key_pair(seed@)->Ok_0,
            encode_utf8(seed@).len() != 58 ==> result is Err,
    {
        let jwt: String = text_from_utf8_lossy(contents);
        JwtCredentials::from_key_pair(jwt, nkeys::KeyPair::from_seed(seed))
    }

    /// The user JWT
    pub fn jwt(&self) -> (jwt: &str)
        ensures
            jwt@ == self@.jwt,
    {
        self.jwt.as_str()
    }

    /// Signs a nonce of the server, which always succeeds with a key that came from a seed
    pub fn sign(&self, nonce: &[u8]) -> (signature: Result<Vec<u8>, nkeys::error::Error>)
        ensures
            bytes_result(signature) == nkeys_signature(self@.key_pair, nonce@),
            from_some_seed(self@.key_pair) ==> signature is Ok,
    {
        self.key_pair.sign(nonce)
    }
}

} // verus!
