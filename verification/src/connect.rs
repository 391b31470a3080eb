//! Connecting a storage engine.
use crate::auth::{
    build_nats_options, is_jwt_login, login_method, AuthMethod, AuthMethodView, JwtCredentials,
    JwtCredentialsView,
};
use crate::config::NatsKvStorageConfig;
use crate::engine::NatsKvStorageEngine;
use crate::error::{StorageEngineError, StorageEngineErrorView};
use crate::outside::{displays, nkeys_key_pair, utf8_lossy};
use std::path::PathBuf;
use std::sync::Arc;
use vstd::prelude::*;

verus! {

/// What a connection is to be made with
#[derive(Debug)]
pub enum Login {
    /// A user JWT, and signatures of the server's nonces
    Jwt(Arc<JwtCredentials>),
    /// The credentials file that was loaded
    CredentialsFile,
    /// No credentials
    Anonymous,
}

/// A [`Login`] over sequences.
pub enum LoginView {
    Jwt(JwtCredentialsView),
    CredentialsFile,
    Anonymous,
}

impl View for Login {
    type V = LoginView;

    open spec fn view(&self) -> LoginView {
        match *self {
            Login::Jwt(credentials) => LoginView::Jwt((*credentials)@),
            Login::CredentialsFile => LoginView::CredentialsFile,
            Login::Anonymous => LoginView::Anonymous,
        }
    }
}

/// What a connection in the making asks for
#[derive(Debug)]
pub enum ConnectRequest<'a> {
    /// Read the file at this path
    ReadFile { path: &'a PathBuf },
    /// Load the credentials file at this path
    LoadCredentials { creds_file: &'a str },
    /// Connect to the server at this URL
    Connect { url: &'a str, login: &'a Login },
}

/// A [`ConnectRequest`] over sequences.
pub enum ConnectRequestView {
    ReadFile { path: PathBuf },
    LoadCredentials { creds_file: Seq<char> },
    Connect { url: Seq<char>, login: LoginView },
}

impl<'a> View for ConnectRequest<'a> {
    type V = ConnectRequestView;

    open spec fn view(&self) -> ConnectRequestView {
        match *self {
            ConnectRequest::ReadFile { path } => ConnectRequestView::ReadFile { path: *path },
            ConnectRequest::LoadCredentials { creds_file } => ConnectRequestView::LoadCredentials {
                creds_file: creds_file@,
            },
            ConnectRequest::Connect { url, login } => ConnectRequestView::Connect {
                url: url@,
                login: (*login)@,
            },
        }
    }
}

/// The view of an optional request.
pub open spec fn connect_request_view(request: Option<ConnectRequest<'_>>) -> Option<
    ConnectRequestView,
> {
    match request {
        Some(request) => Some(request@),
        None => None,
    }
}

/// The answer to a [`ConnectRequest`]
#[derive(Debug)]
pub enum ConnectReply {
    /// The contents of the file, or the error that reading it gave
    FileRead(Result<Vec<u8>, StorageEngineError>),
    /// The credentials file was loaded, or the error that loading it gave
    CredentialsLoaded(Result<(), StorageEngineError>),
    /// The connection was made, or the text of the cause why not
    Connected(Result<(), String>),
}

/// A [`ConnectReply`] over sequences.
pub enum ConnectReplyView {
    FileRead(Result<Seq<u8>, StorageEngineErrorView>),
    CredentialsLoaded(Result<(), StorageEngineErrorView>),
    Connected(Result<(), Seq<char>>),
}

impl View for ConnectReply {
    type V = ConnectReplyView;

    open spec fn view(&self) -> ConnectReplyView {
        match *self {
            ConnectReply::FileRead(Ok(contents)) => ConnectReplyView::FileRead(Ok(contents@)),
            ConnectReply::FileRead(Err(e)) => ConnectReplyView::FileRead(Err(e@)),
            ConnectReply::CredentialsLoaded(Ok(())) => ConnectReplyView::CredentialsLoaded(Ok(())),
            ConnectReply::CredentialsLoaded(Err(e)) => ConnectReplyView::CredentialsLoaded(Err(e@)),
            ConnectReply::Connected(Ok(())) => ConnectReplyView::Connected(Ok(())),
            ConnectReply::Connected(Err(cause)) => ConnectReplyView::Connected(Err(cause@)),
        }
    }
}

impl ConnectReplyView {
    /// The reply is of the kind that the request asks for.
    pub open spec fn answers(self, request: ConnectRequestView) -> bool {
        match request {
            ConnectRequestView::ReadFile { .. } => self is FileRead,
            ConnectRequestView::LoadCredentials { .. } => self is CredentialsLoaded,
            ConnectRequestView::Connect { .. } => self is Connected,
        }
    }
}

impl ConnectReply {
    /// The reply to [`ConnectRequest::ReadFile`] from what reading returned
    pub fn file_read(result: Result<Vec<u8>, std::io::Error>) -> (reply: ConnectReply)
        ensures
            match result {
                Ok(contents) => reply@ == ConnectReplyView::FileRead(Ok(contents@)),
                Err(e) => exists|reason: Seq<char>| #[trigger]
                    displays(&e, reason) && reply@ == ConnectReplyView::FileRead(
                        Err(StorageEngineErrorView::file_unreadable(reason)),
                    ),
            },
    {
        match result {
            Ok(contents) => ConnectReply::FileRead(Ok(contents)),
            Err(e) => ConnectReply::FileRead(Err(StorageEngineError::from(e))),
        }
    }

    /// The reply to [`ConnectRequest::LoadCredentials`] from what loading returned
    pub fn credentials_loaded(result: Result<(), std::io::Error>) -> (reply: ConnectReply)
        ensures
            match result {
                Ok(()) => reply@ == ConnectReplyView::CredentialsLoaded(Ok(())),
                Err(e) => exists|reason: Seq<char>| #[trigger]
                    displays(&e, reason) && reply@ == ConnectReplyView::CredentialsLoaded(
                        Err(StorageEngineErrorView::credentials_refused(reason)),
                    ),
            },
    {
        match result {
            Ok(()) => ConnectReply::CredentialsLoaded(Ok(())),
            Err(e) => {
                ConnectReply::CredentialsLoaded(Err(StorageEngineError::from_credentials(&e)))
            },
        }
    }
}

/// How far a connection has come
#[derive(Debug)]
enum Stage {
    /// What the configured way to log in needs is being loaded
    Load,
    Connect(Login),
    Done(Result<(), StorageEngineError>),
}

/// How far a connection has come.
pub enum ConnectingStage {
    /// The file with the user JWT is being read.
    ReadJwt { jwt_path: PathBuf, seed: Seq<char> },
    /// The credentials file is being loaded.
    LoadCredentials { creds_file: Seq<char> },
    /// The connection is being made.
    Connect(LoginView),
    /// The connection was made or given up.
    Done(Result<(), StorageEngineErrorView>),
}

/// A connection of a storage engine in the making
#[derive(Debug)]
pub struct Connecting {
    config: NatsKvStorageConfig,
    stage: Stage,
}

/// A [`Connecting`] over sequences.
pub struct ConnectingView {
    pub config: NatsKvStorageConfig,
    pub stage: ConnectingStage,
}

impl View for Connecting {
    type V = ConnectingView;

    closed spec fn view(&self) -> ConnectingView {
        ConnectingView {
            config: self.config,
            stage: match (self.stage, login_method(self.config.auth)) {
                (Stage::Load, AuthMethodView::Jwt { jwt_path, seed }) => ConnectingStage::ReadJwt {
                    jwt_path,
                    seed,
                },
                (
                    Stage::Load,
                    AuthMethodView::CredentialsFile { creds_file },
                ) => ConnectingStage::LoadCredentials { creds_file },
                (Stage::Load, AuthMethodView::Anonymous) => ConnectingStage::Connect(
                    LoginView::Anonymous,
                ),
                (stage, _) => Self::settled(stage),
            },
        }
    }
}

impl ConnectingView {
    /// The connection of an engine with the configuration `config`, before any request.
    pub open spec fn begin(config: NatsKvStorageConfig) -> Self {
        ConnectingView {
            config,
            stage: match login_method(config.auth) {
                AuthMethodView::Jwt { jwt_path, seed } => ConnectingStage::ReadJwt {
                    jwt_path,
                    seed,
                },
                AuthMethodView::CredentialsFile { creds_file } => ConnectingStage::LoadCredentials {
                    creds_file,
                },
                AuthMethodView::Anonymous => ConnectingStage::Connect(LoginView::Anonymous),
            },
        }
    }

    /// What the connection asks for, and `None` when it is over.
    pub open spec fn request(self) -> Option<ConnectRequestView> {
        match self.stage {
            ConnectingStage::ReadJwt { jwt_path, .. } => Some(
                ConnectRequestView::ReadFile { path: jwt_path },
            ),
            ConnectingStage::LoadCredentials { creds_file } => Some(
                ConnectRequestView::LoadCredentials { creds_file },
            ),
            ConnectingStage::Connect(login) => Some(
                ConnectRequestView::Connect { url: self.config.nats_url@, login },
            ),
            ConnectingStage::Done(_) => None,
        }
    }

    /// How the connection ended, and `None` while it is not over.
    pub open spec fn result(self) -> Option<Result<(), StorageEngineErrorView>> {
        match self.stage {
            ConnectingStage::Done(result) => Some(result),
            _ => None,
        }
    }

    /// The stage after the login with a JWT was prepared, or was refused.
    pub open spec fn after_login(
        login: Result<JwtCredentialsView, StorageEngineErrorView>,
    ) -> ConnectingStage {
        match login {
            Ok(credentials) => ConnectingStage::Connect(LoginView::Jwt(credentials)),
            Err(e) => ConnectingStage::Done(Err(e)),
        }
    }

    /// `next` is the stage after `reply`. A reply that does not answer the outstanding request
    /// changes nothing. The stage is fixed but for the text that says why a seed was refused.
    pub open spec fn stage_leads_to(self, reply: ConnectReplyView, next: ConnectingStage) -> bool {
        match (self.stage, reply) {
            (
                ConnectingStage::ReadJwt { seed, .. },
                ConnectReplyView::FileRead(Ok(contents)),
            ) => exists|login: Result<JwtCredentialsView, StorageEngineErrorView>| #[trigger]
                is_jwt_login(utf8_lossy(contents), nkeys_key_pair(seed), login) && next
                    == Self::after_login(login),
            (ConnectingStage::ReadJwt { .. }, ConnectReplyView::FileRead(Err(e))) => next
                == ConnectingStage::Done(Err(e)),
            (
                ConnectingStage::LoadCredentials { .. },
                ConnectReplyView::CredentialsLoaded(Ok(())),
            ) => next == ConnectingStage::Connect(LoginView::CredentialsFile),
            (
                ConnectingStage::LoadCredentials { .. },
                ConnectReplyView::CredentialsLoaded(Err(e)),
            ) => next == ConnectingStage::Done(Err(e)),
            (ConnectingStage::Connect(_), ConnectReplyView::Connected(Ok(()))) => next
                == ConnectingStage::Done(Ok(())),
            (ConnectingStage::Connect(_), ConnectReplyView::Connected(Err(cause))) => next
                == ConnectingStage::Done(Err(StorageEngineErrorView::connection_failed(cause))),
            (stage, _) => next == stage,
        }
    }

    /// `next` is the connection after `reply`.
    pub open spec fn leads_to(self, reply: ConnectReplyView, next: Self) -> bool {
        &&& next.config == self.config
        &&& self.stage_leads_to(reply, next.stage)
    }
}

impl Connecting {
    #[verifier::type_invariant]
    spec fn loads_only_what_login_needs(self) -> bool {
        self.stage is Load ==> !(login_method(self.config.auth) is Anonymous)
    }

    /// A stage that does not depend on the way to log in.
    spec fn settled(stage: Stage) -> ConnectingStage
        recommends
            !(stage is Load),
    {
        match stage {
            Stage::Connect(login) => ConnectingStage::Connect(login@),
            Stage::Done(Ok(())) => ConnectingStage::Done(Ok(())),
            Stage::Done(Err(e)) => ConnectingStage::Done(Err(e@)),
            Stage::Load => arbitrary(),
        }
    }

    /// Begins the connection of an engine
    pub(crate) fn begin(config: NatsKvStorageConfig) -> (connecting: Connecting)
        ensures
            connecting@ == ConnectingView::begin(config),
    {
        let stage = match Self::method(&config) {
            AuthMethod::Anonymous => Stage::Connect(Login::Anonymous),
            _ => Stage::Load,
        };
        Connecting { config, stage }
    }

    /// The way to log in that a configuration asks for
    fn method(config: &NatsKvStorageConfig) -> (method: AuthMethod<'_>)
        ensures
            method@ == login_method(config.auth),
    {
        match &config.auth {
            Some(cfg) => build_nats_options(cfg),
            None => AuthMethod::Anonymous,
        }
    }

    /// What the connection asks for, and `None` when it is over
    pub fn request(&self) -> (request: Option<ConnectRequest<'_>>)
        ensures
            connect_request_view(request) == self@.request(),
            match request {
                Some(ConnectRequest::ReadFile { path }) => {
                    &&& self@.stage is ReadJwt
                    &&& self@.stage->jwt_path == *path
                },
                Some(ConnectRequest::LoadCredentials { creds_file }) => self@.stage
                    == (ConnectingStage::LoadCredentials { creds_file: creds_file@ }),
                Some(ConnectRequest::Connect { url, login }) => {
                    &&& url@ == self@.config.nats_url@
                    &&& self@.stage == ConnectingStage::Connect(login@)
                },
                None => self@.stage is Done,
            },
    {
        proof {
            use_type_invariant(self);
        }
        match &self.stage {
            Stage::Load => match Self::method(&self.config) {
                AuthMethod::Jwt { jwt_path, .. } => {
                    Some(ConnectRequest::ReadFile { path: jwt_path })
                },
                AuthMethod::CredentialsFile { creds_file } => Some(
                    ConnectRequest::LoadCredentials { creds_file },
                ),
                AuthMethod::Anonymous => None,
            },
            Stage::Connect(login) => Some(
                ConnectRequest::Connect { url: self.config.nats_url.as_str(), login },
            ),
            Stage::Done(_) => None,
        }
    }

    /// The connection after the reply to its request
    pub fn next(self, reply: ConnectReply) -> (connecting: Connecting)
        ensures
            self@.leads_to(reply@, connecting@),
    {
        proof {
            use_type_invariant(&self);
        }
        let Connecting { config, stage } = self;
        let stage = match (stage, reply) {
            (Stage::Load, ConnectReply::FileRead(read)) => match Self::method(&config) {
                AuthMethod::Jwt { seed, .. } => Self::after_file(seed, read),
                _ => Stage::Load,
            },
            (Stage::Load, ConnectReply::CredentialsLoaded(loaded)) => match Self::method(&config) {
                AuthMethod::CredentialsFile { .. } => match loaded {
                    Ok(()) => Stage::Connect(Login::CredentialsFile),
                    Err(e) => Stage::Done(Err(e)),
                },
                _ => Stage::Load,
            },
            (Stage::Connect(_), ConnectReply::Connected(Ok(()))) => Stage::Done(Ok(())),
            (Stage::Connect(_), ConnectReply::Connected(Err(cause))) => Stage::Done(
                Err(StorageEngineError::from_connect(cause.as_str())),
            ),
            (stage, _) => stage,
        };
        let connecting = Connecting { config, stage };
        proof {
            if self@.stage is ReadJwt && reply@ is FileRead && reply@->FileRead_0 is Ok {
                let jwt = utf8_lossy(reply@->FileRead_0->Ok_0);
                let key_pair = nkeys_key_pair(self@.stage->seed);
                assert(exists|login: Result<JwtCredentialsView, StorageEngineErrorView>| #[trigger]
                    is_jwt_login(jwt, key_pair, login) && connecting@.stage
                        == ConnectingView::after_login(login));
            }
        }
        connecting
    }

    /// The stage after the file with the JWT was read, or was not
    fn after_file(seed: &str, read: Result<Vec<u8>, StorageEngineError>) -> (stage: Stage)
        ensures
            match read {
                Ok(contents) => exists|
                    login: Result<JwtCredentialsView, StorageEngineErrorView>,
                | #[trigger]
                    is_jwt_login(utf8_lossy(contents@), nkeys_key_pair(seed@), login)
                        && Self::settled(stage) == ConnectingView::after_login(login),
                Err(e) => Self::settled(stage) == ConnectingStage::Done(Err(e@)),
            },
            !(stage is Load),
    {
        match read {
            Ok(contents) => match JwtCredentials::from_file_contents(contents.as_slice(), seed) {
                Ok(credentials) => Stage::Connect(Login::Jwt(Arc::new(credentials))),
                Err(e) => Stage::Done(Err(e)),
            },
            Err(e) => Stage::Done(Err(e)),
        }
    }

    /// The connected engine or why there is none, and `None` while the connection is not over
    pub fn into_result(self) -> (result: Option<Result<NatsKvStorageEngine, StorageEngineError>>)
        ensures
            match result {
                Some(Ok(engine)) => self@.result() == Some(Ok::<(), StorageEngineErrorView>(()))
                    && engine.config() == self@.config,
                Some(Err(e)) => self@.result() == Some(Err::<(), StorageEngineErrorView>(e@)),
                None => self@.result() is None,
            },
    {
        let Connecting { config, stage } = self;
        match stage {
            Stage::Done(Ok(())) => Some(Ok(NatsKvStorageEngine::with_config(config))),
            Stage::Done(Err(e)) => Some(Err(e)),
            _ => None,
        }
    }
}

} // verus!
