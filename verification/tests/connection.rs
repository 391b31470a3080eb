use lattice_storage::{
    build_nats_options, AuthMethod, ConnectReply, ConnectRequest, Connecting, EngineMetadata,
    JwtCredentials, Login, NatsAuthConfig, NatsKvStorageConfig, NatsKvStorageEngine,
    StorageEngineError, STORAGE_ENGINE_NAME,
};
use std::io::{Error, ErrorKind};
use std::path::PathBuf;

fn auth(creds: Option<&str>, seed: Option<&str>, jwt: Option<&str>) -> NatsAuthConfig {
    NatsAuthConfig {
        creds_file: creds.map(|s| s.to_string()),
        jwt_seed: seed.map(|s| s.to_string()),
        jwt_path: jwt.map(PathBuf::from),
    }
}

fn connecting(auth: Option<NatsAuthConfig>) -> Connecting {
    NatsKvStorageEngine::new(NatsKvStorageConfig {
        nats_url: "nats://host".to_string(),
        lattice_bucket_prefix: Some("p".to_string()),
        auth,
    })
}

fn shown(request: Option<ConnectRequest<'_>>) -> String {
    match request {
        None => "nothing".to_string(),
        Some(ConnectRequest::ReadFile { path }) => format!("read {}", path.display()),
        Some(ConnectRequest::LoadCredentials { creds_file }) => format!("load {creds_file}"),
        Some(ConnectRequest::Connect { url, login }) => match login {
            Login::Jwt(credentials) => format!("connect {url} with {}", credentials.jwt()),
            Login::CredentialsFile => format!("connect {url} with credentials"),
            Login::Anonymous => format!("connect {url}"),
        },
    }
}

fn chosen(cfg: &NatsAuthConfig) -> String {
    match build_nats_options(cfg) {
        AuthMethod::Jwt { jwt_path, seed } => format!("jwt {} {seed}", jwt_path.display()),
        AuthMethod::CredentialsFile { creds_file } => format!("creds {creds_file}"),
        AuthMethod::Anonymous => "none".to_string(),
    }
}

fn user_seed() -> String {
    nkeys::KeyPair::new_user().seed().unwrap()
}

fn failure(connecting: Connecting) -> String {
    match connecting.into_result() {
        Some(Err(StorageEngineError::Engine(text))) => text,
        other => panic!("{other:?}"),
    }
}

#[test]
fn jwt_with_seed_comes_first() {
    assert_eq!(chosen(&auth(Some("c"), Some("s"), Some("j"))), "jwt j s");
    assert_eq!(chosen(&auth(None, Some("s"), Some("j"))), "jwt j s");
}

#[test]
fn creds_file_comes_second() {
    assert_eq!(chosen(&auth(Some("c"), None, None)), "creds c");
    assert_eq!(chosen(&auth(Some("c"), Some("s"), None)), "creds c");
    assert_eq!(chosen(&auth(Some("c"), None, Some("j"))), "creds c");
}

#[test]
fn half_a_jwt_login_is_not_used() {
    assert_eq!(chosen(&auth(None, Some("s"), None)), "none");
    assert_eq!(chosen(&auth(None, None, Some("j"))), "none");
    assert_eq!(chosen(&auth(None, None, None)), "none");
}

#[test]
fn auth_config_can_be_cloned() {
    assert_eq!(chosen(&auth(None, Some("s"), Some("j")).clone()), "jwt j s");
}

#[test]
fn connects_without_auth_config() {
    let connecting = connecting(None);
    assert_eq!(shown(connecting.request()), "connect nats://host");
    let connecting = connecting.next(ConnectReply::Connected(Ok(())));
    assert_eq!(shown(connecting.request()), "nothing");
    let engine = connecting.into_result().unwrap().unwrap();
    assert_eq!(engine.build_lattice_bucket_name("1".to_string()), "p_lattice_1");
}

#[test]
fn connects_without_credentials_if_none_are_configured() {
    let connecting = connecting(Some(auth(None, None, None)));
    assert_eq!(shown(connecting.request()), "connect nats://host");
}

#[test]
fn connects_with_credentials_file() {
    let connecting = connecting(Some(auth(Some("my.creds"), None, None)));
    assert_eq!(shown(connecting.request()), "load my.creds");
    let connecting = connecting.next(ConnectReply::credentials_loaded(Ok(())));
    assert_eq!(shown(connecting.request()), "connect nats://host with credentials");
    let connecting = connecting.next(ConnectReply::Connected(Ok(())));
    assert!(matches!(connecting.into_result(), Some(Ok(_))));
}

#[test]
fn reports_credentials_that_cannot_be_loaded() {
    let connecting = connecting(Some(auth(Some("my.creds"), None, None))).next(
        ConnectReply::credentials_loaded(Err(Error::new(ErrorKind::Other, "no such file"))),
    );
    assert_eq!(failure(connecting), "Failed to connect NATS: no such file");
}

#[test]
fn connects_with_jwt() {
    let seed = user_seed();
    let connecting = connecting(Some(auth(Some("c"), Some(&seed), Some("user.jwt"))));
    assert_eq!(shown(connecting.request()), "read user.jwt");
    let connecting = connecting.next(ConnectReply::file_read(Ok(b"eyJ0".to_vec())));
    assert_eq!(shown(connecting.request()), "connect nats://host with eyJ0");
    let connecting = connecting.next(ConnectReply::Connected(Ok(())));
    assert!(matches!(connecting.into_result(), Some(Ok(_))));
}

#[test]
fn reports_a_jwt_file_that_cannot_be_read() {
    let connecting = connecting(Some(auth(None, Some("bad"), Some("user.jwt")))).next(
        ConnectReply::file_read(Err(Error::new(ErrorKind::NotFound, "gone"))),
    );
    assert_eq!(failure(connecting), "unexpected I/O error: gone");
}

#[test]
fn reports_a_seed_of_the_wrong_length() {
    let connecting = connecting(Some(auth(None, Some("bad"), Some("user.jwt"))))
        .next(ConnectReply::file_read(Ok(b"eyJ0".to_vec())));
    assert_eq!(shown(connecting.request()), "nothing");
    assert_eq!(
        failure(connecting),
        "failed to process nkeys: Invalid seed length: Bad seed length: 3"
    );
}

#[test]
fn reports_a_seed_that_is_not_base32() {
    let seed = "1".repeat(58);
    let connecting = connecting(Some(auth(None, Some(&seed), Some("user.jwt"))))
        .next(ConnectReply::file_read(Ok(vec![])));
    assert!(failure(connecting).starts_with("failed to process nkeys: Codec failure: "));
}

#[test]
fn reports_a_connection_that_fails() {
    let connecting = connecting(None).next(ConnectReply::Connected(Err("refused".to_string())));
    assert_eq!(failure(connecting), "failed to connect: refused");
}

#[test]
fn stray_connection_replies_are_ignored() {
    let connecting = connecting(Some(auth(Some("my.creds"), None, None)))
        .next(ConnectReply::Connected(Ok(())))
        .next(ConnectReply::file_read(Ok(vec![1])));
    assert_eq!(shown(connecting.request()), "load my.creds");
    assert!(connecting.into_result().is_none());
}

#[test]
fn connection_result_is_final() {
    let connecting = connecting(None)
        .next(ConnectReply::Connected(Err("refused".to_string())))
        .next(ConnectReply::Connected(Ok(())));
    assert_eq!(failure(connecting), "failed to connect: refused");
}

#[test]
fn nonces_are_signed_with_the_key_of_the_seed() {
    let pair = nkeys::KeyPair::new_user();
    let credentials =
        JwtCredentials::from_file_contents(b"eyJ0", &pair.seed().unwrap()).unwrap();
    let signature = credentials.sign(b"nonce").unwrap();
    assert_eq!(signature.len(), 64);
    assert_eq!(signature, pair.sign(b"nonce").unwrap());
    assert!(pair.verify(b"nonce", &signature).is_ok());
    assert_ne!(signature, credentials.sign(b"other").unwrap());
}

#[test]
fn key_without_secret_cannot_sign() {
    let public = nkeys::KeyPair::new_user().public_key();
    let credentials =
        JwtCredentials::from_key_pair("eyJ0".to_string(), nkeys::KeyPair::from_public_key(&public))
            .unwrap();
    assert_eq!(credentials.jwt(), "eyJ0");
    assert!(credentials.sign(b"nonce").is_err());
}

#[test]
fn jwt_is_decoded_with_replacement() {
    let seed = user_seed();
    let jwt = |bytes: &[u8]| {
        JwtCredentials::from_file_contents(bytes, &seed)
            .unwrap()
            .jwt()
            .to_string()
    };
    assert_eq!(jwt("gr\u{fc}n".as_bytes()), "gr\u{fc}n");
    assert_eq!(jwt(&[b'a', 0xff, b'b']), "a\u{fffd}b");
    assert_eq!(jwt(&[]), "");
}

#[test]
fn engine_metadata() {
    assert_eq!(STORAGE_ENGINE_NAME, "nats_kv");
    assert_eq!(NatsKvStorageEngine::name(), "nats_kv");
    let version = NatsKvStorageEngine::version();
    assert_eq!(version.to_string(), "0.1.0");
    assert!(version.pre.is_empty());
    assert!(version.build.is_empty());
    assert_eq!(version.pre.as_str(), "");
    assert_eq!(version.build.as_str(), "");
}
