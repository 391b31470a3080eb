//! How an engine logs in and connects.
//!
//! The laws speak of the fields of the configuration, of the replies and of what is asked for.
use crate::auth::{
    auth_method, is_jwt_login, login_method, AuthMethodView, JwtCredentialsView,
};
use crate::config::{NatsAuthConfig, NatsKvStorageConfig};
use crate::connect::{
    ConnectReplyView, ConnectRequestView, ConnectingStage, ConnectingView, LoginView,
};
use crate::error::StorageEngineErrorView;
use crate::outside::{displays, nkeys_key_pair, utf8_lossy};
use vstd::prelude::*;

verus! {

/// A login with a JWT is chosen exactly if both a JWT file and a seed are given, and uses just
/// these. A credentials file is chosen exactly if one is given and there is no login with a JWT,
/// and it is just that file. There are no credentials exactly if neither can be chosen.
pub proof fn law_login_follows_the_config(cfg: NatsAuthConfig)
    ensures
        ({
            let method = auth_method(cfg);
            let has_jwt = cfg.jwt_path is Some && cfg.jwt_seed is Some;
            &&& method is Jwt <==> has_jwt
            &&& method is Jwt ==> Some(method->jwt_path) == cfg.jwt_path && method->seed
                == cfg.jwt_seed->0@
            &&& method is CredentialsFile <==> !has_jwt && cfg.creds_file is Some
            &&& method is CredentialsFile ==> method->creds_file == cfg.creds_file->0@
            &&& method is Anonymous <==> !has_jwt && cfg.creds_file is None
            &&& login_method(Some(cfg)) == method
            &&& login_method(None) is Anonymous
        }),
{
}

/// What else a configuration holds does not matter: a login with a JWT does not depend on the
/// credentials file, and a login with a credentials file does not depend on a JWT file without a
/// seed or a seed without a JWT file.
pub proof fn law_unused_settings_do_not_matter(cfg1: NatsAuthConfig, cfg2: NatsAuthConfig)
    requires
        ({
            ||| {
                &&& cfg1.jwt_path is Some && cfg1.jwt_seed is Some
                &&& cfg2.jwt_path == cfg1.jwt_path && cfg2.jwt_seed == cfg1.jwt_seed
            }
            ||| {
                &&& cfg1.jwt_path is None || cfg1.jwt_seed is None
                &&& cfg2.jwt_path is None || cfg2.jwt_seed is None
                &&& cfg2.creds_file == cfg1.creds_file
            }
        }),
    ensures
        auth_method(cfg1) == auth_method(cfg2),
{
}

/// A login with a JWT succeeds exactly if its seed decodes, whatever the JWT, and then carries the
/// whole JWT and the key pair of the seed. Otherwise it ends with the reason why the seed was
/// refused.
pub proof fn law_jwt_login_succeeds_exactly_if_the_seed_decodes(
    jwt: Seq<char>,
    key_pair: Result<nkeys::KeyPair, nkeys::error::Error>,
    result: Result<JwtCredentialsView, StorageEngineErrorView>,
)
    requires
        is_jwt_login(jwt, key_pair, result),
    ensures
        result is Ok <==> key_pair is Ok,
        key_pair is Ok ==> result->Ok_0.jwt == jwt && result->Ok_0.key_pair == key_pair->Ok_0,
        key_pair is Err ==> exists|reason: Seq<char>| #[trigger]
            displays(&key_pair->Err_0, reason) && result->Err_0 == StorageEngineErrorView::Engine(
                "failed to process nkeys: "@ + reason,
            ),
{
}

/// Two logins with the same seed differ in their JWT alone: they succeed together, sign with one
/// key, and have the same credentials exactly if they have the same JWT.
pub proof fn law_jwt_logins_with_one_seed(
    jwt1: Seq<char>,
    jwt2: Seq<char>,
    key_pair: Result<nkeys::KeyPair, nkeys::error::Error>,
    result1: Result<JwtCredentialsView, StorageEngineErrorView>,
    result2: Result<JwtCredentialsView, StorageEngineErrorView>,
)
    requires
        is_jwt_login(jwt1, key_pair, result1),
        is_jwt_login(jwt2, key_pair, result2),
    ensures
        result1 is Ok <==> result2 is Ok,
        result1 is Ok ==> result1->Ok_0.key_pair == result2->Ok_0.key_pair,
        result1 is Ok ==> (result1->Ok_0 == result2->Ok_0 <==> jwt1 == jwt2),
{
}

/// The configuration has a JWT file and a seed.
pub open spec fn configures_jwt(config: NatsKvStorageConfig) -> bool {
    config.auth is Some && config.auth->0.jwt_path is Some && config.auth->0.jwt_seed is Some
}

/// The configuration has a credentials file, and not both a JWT file and a seed.
pub open spec fn configures_credentials_file(config: NatsKvStorageConfig) -> bool {
    config.auth is Some && config.auth->0.creds_file is Some && !configures_jwt(config)
}

/// A connection first asks for what its login needs: the JWT file, or else the credentials file,
/// and where it needs neither it connects at once, without credentials.
pub proof fn law_connection_begins_with_its_login(config: NatsKvStorageConfig)
    ensures
        ({
            let begin = ConnectingView::begin(config);
            &&& begin.config == config
            &&& begin.result() is None
            &&& configures_jwt(config) ==> begin.request() == Some(
                ConnectRequestView::ReadFile { path: config.auth->0.jwt_path->0 },
            )
            &&& configures_credentials_file(config) ==> begin.request() == Some(
                ConnectRequestView::LoadCredentials { creds_file: config.auth->0.creds_file->0@ },
            )
            &&& !configures_jwt(config) && !configures_credentials_file(config)
                ==> begin.request() == Some(
                ConnectRequestView::Connect {
                    url: config.nats_url@,
                    login: LoginView::Anonymous,
                },
            )
        }),
{
}

/// Once the JWT file is read, a connection goes on exactly if the seed decodes: it then connects
/// to the configured server with the text of the file and the key pair of the seed. Otherwise it
/// is over, with the reason why the seed was refused.
pub proof fn law_jwt_file_leads_to_the_connection(
    config: NatsKvStorageConfig,
    contents: Seq<u8>,
    next: ConnectingView,
)
    requires
        configures_jwt(config),
        ConnectingView::begin(config).leads_to(ConnectReplyView::FileRead(Ok(contents)), next),
    ensures
        match nkeys_key_pair(config.auth->0.jwt_seed->0@) {
            Ok(key_pair) => {
                &&& next.request() == Some(
                    ConnectRequestView::Connect {
                        url: config.nats_url@,
                        login: LoginView::Jwt(
                            JwtCredentialsView { jwt: utf8_lossy(contents), key_pair },
                        ),
                    },
                )
                &&& next.result() is None
            },
            Err(e) => {
                &&& next.request() is None
                &&& exists|reason: Seq<char>| #[trigger]
                    displays(&e, reason) && next.result() == Some(
                        Err::<(), _>(
                            StorageEngineErrorView::Engine("failed to process nkeys: "@ + reason),
                        ),
                    )
            },
        },
{
    let key_pair = nkeys_key_pair(config.auth->0.jwt_seed->0@);
    let login = choose|login: Result<JwtCredentialsView, StorageEngineErrorView>| #[trigger]
        is_jwt_login(utf8_lossy(contents), key_pair, login) && next.stage
            == ConnectingView::after_login(login);
    law_jwt_login_succeeds_exactly_if_the_seed_decodes(utf8_lossy(contents), key_pair, login);
}

/// Once the credentials file is loaded, a connection connects to the configured server with it.
pub proof fn law_credentials_file_leads_to_the_connection(
    config: NatsKvStorageConfig,
    next: ConnectingView,
)
    requires
        configures_credentials_file(config),
        ConnectingView::begin(config).leads_to(ConnectReplyView::CredentialsLoaded(Ok(())), next),
    ensures
        next.request() == Some(
            ConnectRequestView::Connect {
                url: config.nats_url@,
                login: LoginView::CredentialsFile,
            },
        ),
        next.result() is None,
{
}

/// Where what the login needs cannot be had, a connection is over with just that error, and does
/// not connect in another way.
pub proof fn law_failed_login_ends_the_connection(
    config: NatsKvStorageConfig,
    e: StorageEngineErrorView,
    next: ConnectingView,
)
    requires
        ({
            ||| configures_jwt(config) && ConnectingView::begin(config).leads_to(
                ConnectReplyView::FileRead(Err(e)),
                next,
            )
            ||| configures_credentials_file(config) && ConnectingView::begin(config).leads_to(
                ConnectReplyView::CredentialsLoaded(Err(e)),
                next,
            )
        }),
    ensures
        next.request() is None,
        next.result() == Some(Err::<(), _>(e)),
{
}

/// What the server answers decides how a connection ends: it is made if the server accepts it, and
/// otherwise fails with the cause that came back.
pub proof fn law_server_decides_the_connection(
    connecting: ConnectingView,
    cause: Seq<char>,
    accepted: ConnectingView,
    refused: ConnectingView,
)
    requires
        connecting.request() is Some,
        connecting.request()->0 is Connect,
        connecting.leads_to(ConnectReplyView::Connected(Ok(())), accepted),
        connecting.leads_to(ConnectReplyView::Connected(Err(cause)), refused),
    ensures
        accepted.config == connecting.config,
        accepted.request() is None,
        accepted.result() == Some(Ok::<(), StorageEngineErrorView>(())),
        refused.request() is None,
        refused.result() == Some(
            Err::<(), _>(StorageEngineErrorView::Engine("failed to connect: "@ + cause)),
        ),
{
}

/// `states` are the states of a connection with the configuration `config` that gets `replies` one
/// after the other, whatever they are.
pub open spec fn is_course(
    config: NatsKvStorageConfig,
    states: Seq<ConnectingView>,
    replies: Seq<ConnectReplyView>,
) -> bool {
    &&& states.len() == replies.len() + 1
    &&& states[0] == ConnectingView::begin(config)
    &&& forall|i: int|
        #![trigger replies[i]]
        0 <= i < replies.len() ==> states[i].leads_to(replies[i], states[i + 1])
}

/// `jwt` is the text of the file that was read: of the first one that came among the first `n`
/// replies.
pub open spec fn is_text_of_first_file(
    jwt: Seq<char>,
    replies: Seq<ConnectReplyView>,
    n: int,
) -> bool {
    exists|k: int|
        #![trigger replies[k]]
        0 <= k < n && replies[k] is FileRead && replies[k]->FileRead_0 is Ok && jwt == utf8_lossy(
            replies[k]->FileRead_0->Ok_0,
        ) && forall|j: int| 0 <= j < k ==> !(#[trigger] replies[j] is FileRead)
}

/// Whatever it is answered, a connection asks only for what its configuration names, and connects
/// only to the configured server and only with the configured login: with the JWT of the file that
/// was read and the key pair of the configured seed, or else with the credentials file once it was
/// loaded, and without credentials only if neither is configured. It ends well only where the
/// server accepted it.
pub proof fn law_connection_keeps_to_its_config(
    config: NatsKvStorageConfig,
    states: Seq<ConnectingView>,
    replies: Seq<ConnectReplyView>,
    n: int,
)
    requires
        is_course(config, states, replies),
        0 <= n <= replies.len(),
    ensures
        states[n].config == config,
        match states[n].request() {
            Some(ConnectRequestView::ReadFile { path }) => configures_jwt(config) && Some(path)
                == config.auth->0.jwt_path,
            Some(ConnectRequestView::LoadCredentials { creds_file }) => configures_credentials_file(
                config,
            ) && creds_file == config.auth->0.creds_file->0@,
            Some(ConnectRequestView::Connect { url, login }) => {
                &&& url == config.nats_url@
                &&& login is Jwt <==> configures_jwt(config)
                &&& login is CredentialsFile <==> configures_credentials_file(config)
                &&& login is Anonymous <==> !configures_jwt(config) && !configures_credentials_file(
                    config,
                )
                &&& login is Jwt ==> {
                    &&& nkeys_key_pair(config.auth->0.jwt_seed->0@) == Ok::<
                        _,
                        nkeys::error::Error,
                    >(login->0.key_pair)
                    &&& is_text_of_first_file(login->0.jwt, replies, n)
                }
                &&& login is CredentialsFile ==> exists|k: int|
                    0 <= k < n && #[trigger] replies[k] == ConnectReplyView::CredentialsLoaded(
                        Ok(()),
                    )
            },
            None => states[n].result() is Some,
        },
        states[n].result() is Some && states[n].result()->0 is Ok ==> exists|k: int|
            0 <= k < n && #[trigger] replies[k] == ConnectReplyView::Connected(Ok(())),
{
    lemma_course(config, states, replies, n);
}

proof fn lemma_course(
    config: NatsKvStorageConfig,
    states: Seq<ConnectingView>,
    replies: Seq<ConnectReplyView>,
    n: int,
)
    requires
        is_course(config, states, replies),
        0 <= n <= replies.len(),
    ensures
        states[n].config == config,
        match states[n].stage {
            ConnectingStage::ReadJwt { jwt_path, seed } => {
                &&& configures_jwt(config)
                &&& jwt_path == config.auth->0.jwt_path->0
                &&& seed == config.auth->0.jwt_seed->0@
                &&& forall|j: int| 0 <= j < n ==> !(#[trigger] replies[j] is FileRead)
            },
            ConnectingStage::LoadCredentials { creds_file } => configures_credentials_file(config)
                && creds_file == config.auth->0.creds_file->0@,
            ConnectingStage::Connect(LoginView::Jwt(credentials)) => {
                &&& configures_jwt(config)
                &&& nkeys_key_pair(config.auth->0.jwt_seed->0@) == Ok::<_, nkeys::error::Error>(
                    credentials.key_pair,
                )
                &&& is_text_of_first_file(credentials.jwt, replies, n)
            },
            ConnectingStage::Connect(LoginView::CredentialsFile) => configures_credentials_file(
                config,
            ) && exists|k: int|
                0 <= k < n && #[trigger] replies[k] == ConnectReplyView::CredentialsLoaded(Ok(())),
            ConnectingStage::Connect(LoginView::Anonymous) => !configures_jwt(config)
                && !configures_credentials_file(config),
            ConnectingStage::Done(result) => result is Ok ==> exists|k: int|
                0 <= k < n && #[trigger] replies[k] == ConnectReplyView::Connected(Ok(())),
        },
    decreases n,
{
    if n > 0 {
        lemma_course(config, states, replies, n - 1);
        let reply = replies[n - 1];
        assert(states[n - 1].leads_to(reply, states[n]));
        if reply is Connected && reply->Connected_0 is Ok {
            assert(reply->Connected_0->Ok_0 == ());
        }
        if reply is CredentialsLoaded && reply->CredentialsLoaded_0 is Ok {
            assert(reply->CredentialsLoaded_0->Ok_0 == ());
        }
        match states[n - 1].stage {
            ConnectingStage::ReadJwt { seed, .. } => {
                if reply is FileRead && reply->FileRead_0 is Ok {
                    let jwt = utf8_lossy(reply->FileRead_0->Ok_0);
                    let login = choose|login: Result<JwtCredentialsView, StorageEngineErrorView>|
                        #[trigger]
                        is_jwt_login(jwt, nkeys_key_pair(seed), login) && states[n].stage
                            == ConnectingView::after_login(login);
                    law_jwt_login_succeeds_exactly_if_the_seed_decodes(
                        jwt,
                        nkeys_key_pair(seed),
                        login,
                    );
                    assert(is_text_of_first_file(jwt, replies, n));
                }
            },
            ConnectingStage::Connect(LoginView::Jwt(credentials)) => {
                let k = choose|k: int|
                    #![trigger replies[k]]
                    0 <= k < n - 1 && replies[k] is FileRead && replies[k]->FileRead_0 is Ok
                        && credentials.jwt == utf8_lossy(replies[k]->FileRead_0->Ok_0) && forall|
                        j: int,
                    |
                        0 <= j < k ==> !(#[trigger] replies[j] is FileRead);
                assert(0 <= k < n && replies[k] is FileRead);
            },
            _ => {},
        }
    }
}

} // verus!
