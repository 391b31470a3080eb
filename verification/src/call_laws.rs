//! What the results of calls have to do with their arguments and with each other.
//!
//! The laws follow a caller from call to call, and speak of what the caller hands in and gets
//! back. That `r` is what a call of `f` with the arguments `args` gave is written
//! `call_ensures(f, args, r)`.
use crate::auth::{build_nats_options, AuthMethod, JwtCredentials};
use crate::bucket::{Opened, Opening};
use crate::config::{NatsAuthConfig, NatsKvStorageConfig};
use crate::connect::{ConnectReply, ConnectRequest, Connecting, Login};
use crate::connection_laws::{
    configures_credentials_file, configures_jwt, law_connection_begins_with_its_login,
    law_credentials_file_leads_to_the_connection, law_jwt_file_leads_to_the_connection,
    law_server_decides_the_connection,
};
use crate::delete::{DeleteResult, Deleting};
use crate::engine::NatsKvStorageEngine;
use crate::error::{StorageEngineError, StorageError};
use crate::naming_laws::{law_bucket_name_holds_the_identifier, law_engine_separates_lattices};
use crate::outside::{
    build_metadata_text, displays, nkeys_key_pair, nkeys_signature, prerelease_text, utf8_lossy,
};
use crate::read::{ReadResult, Reading};
use crate::service::{Entry, Reply, Request};
use crate::state::{LatticeState, LatticeStateBuilder, LatticeStateBuilderError};
use crate::store::{EngineMetadata, Store, StoreOptions, StoreRead, StoreWrite};
use crate::write::{WriteResult, Writing};
use vstd::prelude::*;
use vstd::utf8::{decode_utf8, valid_utf8};

verus! {

/// `name` is `lattice_` and the whole identifier, after the prefix of the engine and an underscore
/// where it has a prefix.
pub open spec fn names_lattice(engine: NatsKvStorageEngine, id: Seq<char>, name: Seq<char>) -> bool {
    match engine.config().lattice_bucket_prefix {
        Some(prefix) => name == prefix@ + "_"@ + "lattice_"@ + id,
        None => name == "lattice_"@ + id,
    }
}

/// A bucket name holds the whole identifier, and two names that one engine gives are the same
/// exactly for the same identifier.
pub proof fn law_bucket_names_identify_lattices(
    engine: NatsKvStorageEngine,
    id1: String,
    id2: String,
    name1: String,
    name2: String,
)
    requires
        call_ensures(NatsKvStorageEngine::build_lattice_bucket_name, (&engine, id1), name1),
        call_ensures(NatsKvStorageEngine::build_lattice_bucket_name, (&engine, id2), name2),
    ensures
        names_lattice(engine, id1@, name1@),
        name1@ == name2@ <==> id1@ == id2@,
{
    law_bucket_name_holds_the_identifier(engine, id1@);
    if id1@ != id2@ {
        law_engine_separates_lattices(engine, id1@, id2@);
    }
}

/// A login with a JWT is chosen exactly if both a JWT file and a seed are given, a credentials file
/// exactly if one is given and there is no login with a JWT, and each is just what is given.
pub proof fn law_build_nats_options(cfg: NatsAuthConfig, method: AuthMethod<'_>)
    requires
        call_ensures(build_nats_options, (&cfg,), method),
    ensures
        method is Jwt <==> cfg.jwt_path is Some && cfg.jwt_seed is Some,
        method matches AuthMethod::Jwt { jwt_path, seed } ==> cfg.jwt_path == Some(*jwt_path)
            && cfg.jwt_seed->0@ == seed@,
        method is CredentialsFile <==> cfg.creds_file is Some && !(cfg.jwt_path is Some
            && cfg.jwt_seed is Some),
        method matches AuthMethod::CredentialsFile { creds_file } ==> cfg.creds_file->0@
            == creds_file@,
        method is Anonymous <==> cfg.creds_file is None && !(cfg.jwt_path is Some
            && cfg.jwt_seed is Some),
{
}

/// Credentials from a JWT and a decoded seed are there exactly if the seed decoded, whatever the
/// JWT. They give back the whole JWT, and sign with the key pair of the seed.
pub proof fn law_jwt_credentials(
    jwt: String,
    key_pair: Result<nkeys::KeyPair, nkeys::error::Error>,
    result: Result<JwtCredentials, StorageEngineError>,
    text: &str,
    nonce: &[u8],
    signature: Result<Vec<u8>, nkeys::error::Error>,
)
    requires
        call_ensures(JwtCredentials::from_key_pair, (jwt, key_pair), result),
        result is Ok ==> call_ensures(JwtCredentials::jwt, (&result->Ok_0,), text),
        result is Ok ==> call_ensures(JwtCredentials::sign, (&result->Ok_0, nonce), signature),
    ensures
        result is Ok <==> key_pair is Ok,
        result is Ok ==> text@ == jwt@,
        result is Ok && signature is Ok ==> nkeys_signature(key_pair->Ok_0, nonce@) == Ok::<
            _,
            nkeys::error::Error,
        >(signature->Ok_0@),
        result is Err ==> exists|reason: Seq<char>| #[trigger]
            displays(&key_pair->Err_0, reason) && result->Err_0 is Engine
                && result->Err_0->Engine_0@ == "failed to process nkeys: "@ + reason,
{
}

/// Credentials from a JWT file and a seed are there exactly if the seed decodes, whatever the file
/// holds. They give back the text of the file, and can sign with the key pair of the seed.
pub proof fn law_jwt_credentials_from_file(
    contents: &[u8],
    seed: &str,
    result: Result<JwtCredentials, StorageEngineError>,
    text: &str,
    nonce: &[u8],
    signature: Result<Vec<u8>, nkeys::error::Error>,
)
    requires
        call_ensures(JwtCredentials::from_file_contents, (contents, seed), result),
        result is Ok ==> call_ensures(JwtCredentials::jwt, (&result->Ok_0,), text),
        result is Ok ==> call_ensures(JwtCredentials::sign, (&result->Ok_0, nonce), signature),
    ensures
        result is Ok <==> nkeys_key_pair(seed@) is Ok,
        result is Ok ==> text@ == utf8_lossy(contents@),
        result is Ok && valid_utf8(contents@) ==> text@ == decode_utf8(contents@),
        result is Ok ==> signature is Ok && nkeys_signature(nkeys_key_pair(seed@)->Ok_0, nonce@)
            == Ok::<_, nkeys::error::Error>(signature->Ok_0@),
        result is Err ==> exists|reason: Seq<char>| #[trigger]
            displays(&nkeys_key_pair(seed@)->Err_0, reason) && result->Err_0 is Engine
                && result->Err_0->Engine_0@ == "failed to process nkeys: "@ + reason,
{
    if result is Ok {
        let pair = nkeys_key_pair(seed@)->Ok_0;
        assert(nkeys_key_pair(seed@) == Ok::<_, nkeys::error::Error>(pair));
    }
}

/// The opening of a bucket asks for that bucket, and creates it with room for ten values of each
/// key.
pub proof fn law_opening_requests(opening: Opening, bucket: &str, request: Request<'_>)
    requires
        call_ensures(Opening::request, (opening, bucket), request),
    ensures
        match opening {
            Opening::LookUp => request matches Request::LookUpBucket { bucket: name } && name@
                == bucket@,
            Opening::Create => {
                &&& request matches Request::CreateBucket { bucket: name, history }
                &&& name@ == bucket@
                &&& history == 10
            },
        },
{
}

/// A bucket that is found is open, one that is not found is created and then open, and one that
/// cannot be created fails with the cause.
pub proof fn law_opening_steps(
    cause: String,
    found: Opened,
    missing: Opened,
    created: Opened,
    refused: Opened,
)
    requires
        call_ensures(Opening::next, (Opening::LookUp, &Reply::LookedUp { found: true }), found),
        call_ensures(Opening::next, (Opening::LookUp, &Reply::LookedUp { found: false }), missing),
        call_ensures(Opening::next, (Opening::Create, &Reply::Created(Ok(()))), created),
        call_ensures(Opening::next, (Opening::Create, &Reply::Created(Err(cause))), refused),
    ensures
        found is Open,
        missing == Opened::Pending(Opening::Create),
        created is Open,
        refused matches Opened::Failed(StorageError::Engine(text)) && text@
            == "failed to create jetstream kv: "@ + cause@,
{
}

/// A read looks up the bucket of its lattice, fetches what is under `state`, has the whole value
/// decoded, and ends with the decoded state and the revision of the entry. The calls `read` and
/// `get` begin the same read.
pub proof fn law_read_from_call_to_call(
    engine: NatsKvStorageEngine,
    id: String,
    begun: Reading,
    first: Option<Request<'_>>,
    opened: Reading,
    second: Option<Request<'_>>,
    entry: Entry,
    fetched: Reading,
    third: Option<Request<'_>>,
    state: LatticeState,
    decoded: Reading,
    last: Option<Request<'_>>,
    result: Option<ReadResult>,
)
    requires
        ({
            ||| call_ensures(<NatsKvStorageEngine as Store>::get, (&engine, id), begun)
            ||| call_ensures(
                <NatsKvStorageEngine as StoreRead<LatticeState, String>>::read,
                (&engine, id),
                begun,
            )
        }),
        call_ensures(Reading::request, (&begun,), first),
        call_ensures(Reading::next, (begun, Reply::LookedUp { found: true }), opened),
        call_ensures(Reading::request, (&opened,), second),
        call_ensures(Reading::next, (opened, Reply::Fetched(Ok(Some(entry)))), fetched),
        call_ensures(Reading::request, (&fetched,), third),
        call_ensures(Reading::next, (fetched, Reply::Decoded(Ok(state))), decoded),
        call_ensures(Reading::request, (&decoded,), last),
        call_ensures(Reading::into_result, (decoded,), result),
        entry.value@.len() > 0 || !entry.deleted,
    ensures
        first matches Some(Request::LookUpBucket { bucket }) && names_lattice(
            engine,
            id@,
            bucket@,
        ),
        second matches Some(Request::FetchEntry { bucket, key }) && names_lattice(
            engine,
            id@,
            bucket@,
        ) && key@ == "state"@,
        third matches Some(Request::Decode { value }) && value@ == entry.value@,
        last is None,
        result matches Some(Ok(found)) && found.revision == Some(entry.revision) && found.state
            == state,
{
    law_bucket_name_holds_the_identifier(engine, id@);
}

/// A read whose bucket is missing creates it with room for ten values of each key, and then goes
/// on. Where there is no state, it says so and names the bucket. Each failure is reported with its
/// cause.
pub proof fn law_failing_read_from_call_to_call(
    engine: NatsKvStorageEngine,
    id: String,
    cause: String,
    begun: Reading,
    missing: Reading,
    creation: Option<Request<'_>>,
    refused: Reading,
    no_bucket: Option<ReadResult>,
    opened: Reading,
    fetching: Option<Request<'_>>,
    empty: Reading,
    no_state: Option<ReadResult>,
    failed: Reading,
    not_fetched: Option<ReadResult>,
)
    requires
        call_ensures(<NatsKvStorageEngine as Store>::get, (&engine, id), begun),
        call_ensures(Reading::next, (begun, Reply::LookedUp { found: false }), missing),
        call_ensures(Reading::request, (&missing,), creation),
        call_ensures(Reading::next, (missing, Reply::Created(Err(cause))), refused),
        call_ensures(Reading::into_result, (refused,), no_bucket),
        call_ensures(Reading::next, (missing, Reply::Created(Ok(()))), opened),
        call_ensures(Reading::request, (&opened,), fetching),
        call_ensures(Reading::next, (opened, Reply::Fetched(Ok(None))), empty),
        call_ensures(Reading::into_result, (empty,), no_state),
        call_ensures(Reading::next, (opened, Reply::Fetched(Err(cause))), failed),
        call_ensures(Reading::into_result, (failed,), not_fetched),
    ensures
        creation matches Some(Request::CreateBucket { bucket, history }) && names_lattice(
            engine,
            id@,
            bucket@,
        ) && history == 10,
        no_bucket matches Some(Err(StorageError::Engine(text))) && text@
            == "failed to create jetstream kv: "@ + cause@,
        fetching matches Some(Request::FetchEntry { bucket, key }) && names_lattice(
            engine,
            id@,
            bucket@,
        ) && key@ == "state"@ && (no_state matches Some(Err(StorageError::Engine(text))) && text@
            == "No lattice state in bucket ["@ + bucket@ + "]"@),
        not_fetched matches Some(Err(StorageError::Unknown(text))) && text@
            == "de/serialization error occurred: "@ + cause@,
{
    law_bucket_name_holds_the_identifier(engine, id@);
}

/// A deletion opens the bucket of its lattice, deletes what is under `state`, and ends well exactly
/// if the service did.
pub proof fn law_delete_from_call_to_call(
    engine: NatsKvStorageEngine,
    id: String,
    cause: String,
    begun: Deleting,
    first: Option<Request<'_>>,
    missing: Deleting,
    creation: Option<Request<'_>>,
    opened: Deleting,
    second: Option<Request<'_>>,
    done: Deleting,
    last: Option<Request<'_>>,
    deleted: Option<DeleteResult>,
    failed: Deleting,
    not_deleted: Option<DeleteResult>,
)
    requires
        call_ensures(<NatsKvStorageEngine as Store>::delete, (&engine, id), begun),
        call_ensures(Deleting::request, (&begun,), first),
        call_ensures(Deleting::next, (begun, Reply::LookedUp { found: false }), missing),
        call_ensures(Deleting::request, (&missing,), creation),
        ({
            ||| call_ensures(Deleting::next, (begun, Reply::LookedUp { found: true }), opened)
            ||| call_ensures(Deleting::next, (missing, Reply::Created(Ok(()))), opened)
        }),
        call_ensures(Deleting::request, (&opened,), second),
        call_ensures(Deleting::next, (opened, Reply::Deleted(Ok(()))), done),
        call_ensures(Deleting::request, (&done,), last),
        call_ensures(Deleting::into_result, (done,), deleted),
        call_ensures(Deleting::next, (opened, Reply::Deleted(Err(cause))), failed),
        call_ensures(Deleting::into_result, (failed,), not_deleted),
    ensures
        first matches Some(Request::LookUpBucket { bucket }) && names_lattice(
            engine,
            id@,
            bucket@,
        ),
        creation matches Some(Request::CreateBucket { bucket, history }) && names_lattice(
            engine,
            id@,
            bucket@,
        ) && history == 10,
        second matches Some(Request::Delete { bucket, key }) && names_lattice(engine, id@, bucket@)
            && key@ == "state"@,
        last is None,
        deleted matches Some(Ok(())),
        not_deleted matches Some(Err(StorageError::Engine(text))) && text@
            == "failed to delete lattice state: "@ + cause@,
{
    law_bucket_name_holds_the_identifier(engine, id@);
}

/// A write opens the bucket of its lattice and has the state encoded that it was given. It stores
/// the whole encoding under `state`: by comparing with the given revision where compare-and-set is
/// required and a revision is given, and whatever is there otherwise. It ends with the identifier
/// and the revision that the service answered.
///
/// The call `write` takes the identifier from its argument or else from the state, and `store`
/// takes it from the state.
pub proof fn law_write_from_call_to_call<'a>(
    engine: &mut NatsKvStorageEngine,
    obj: &'a LatticeState,
    given: Option<String>,
    opts: StoreOptions,
    begun: Writing<'a>,
    first: Option<Request<'_>>,
    opened: Writing<'a>,
    second: Option<Request<'_>>,
    value: Vec<u8>,
    encoded: Writing<'a>,
    third: Option<Request<'_>>,
    revision: u64,
    stored: Writing<'a>,
    last: Option<Request<'_>>,
    result: Option<WriteResult>,
)
    requires
        ({
            ||| call_ensures(
                <NatsKvStorageEngine as StoreWrite<LatticeState, String>>::write,
                (engine, obj, given, opts),
                begun,
            )
            ||| given is None && call_ensures(
                <NatsKvStorageEngine as Store>::store,
                (engine, obj, opts),
                begun,
            )
        }),
        call_ensures(Writing::request, (&begun,), first),
        call_ensures(Writing::next, (begun, Reply::LookedUp { found: true }), opened),
        call_ensures(Writing::request, (&opened,), second),
        call_ensures(Writing::next, (opened, Reply::Encoded(Ok(value))), encoded),
        call_ensures(Writing::request, (&encoded,), third),
        call_ensures(Writing::next, (encoded, Reply::Stored(Ok(revision))), stored),
        call_ensures(Writing::request, (&stored,), last),
        call_ensures(Writing::into_result, (stored,), result),
    ensures
        ({
            let id = if given is Some {
                given->0@
            } else {
                obj.id@
            };
            &&& first matches Some(Request::LookUpBucket { bucket }) && names_lattice(
                *old(engine),
                id,
                bucket@,
            )
            &&& second matches Some(Request::Encode { state }) && *state == *obj
            &&& opts.require_cas && opts.revision is Some ==> {
                &&& third matches Some(
                    Request::Update { bucket, key, value: bytes, revision: expected },
                )
                &&& names_lattice(*old(engine), id, bucket@)
                &&& key@ == "state"@
                &&& bytes@ == value@
                &&& opts.revision == Some(expected)
            }
            &&& !opts.require_cas || opts.revision is None ==> {
                &&& third matches Some(Request::Put { bucket, key, value: bytes })
                &&& names_lattice(*old(engine), id, bucket@)
                &&& key@ == "state"@
                &&& bytes@ == value@
            }
            &&& result matches Some(Ok(done)) && done.state@ == id && done.revision == Some(
                revision,
            )
        }),
        last is None,
{
    let id = if given is Some {
        given->0@
    } else {
        obj.id@
    };
    law_bucket_name_holds_the_identifier(*old(engine), id);
}

/// A write whose bucket is missing creates it with room for ten values of each key, and then goes
/// on. Each failure is reported with its cause, and ends the write.
pub proof fn law_failing_write_from_call_to_call<'a>(
    engine: &mut NatsKvStorageEngine,
    obj: &'a LatticeState,
    opts: StoreOptions,
    cause: String,
    e: StorageError,
    value: Vec<u8>,
    begun: Writing<'a>,
    missing: Writing<'a>,
    creation: Option<Request<'_>>,
    refused: Writing<'a>,
    no_bucket: Option<WriteResult>,
    opened: Writing<'a>,
    encoding: Option<Request<'_>>,
    unencoded: Writing<'a>,
    not_encoded: Option<WriteResult>,
    encoded: Writing<'a>,
    failed: Writing<'a>,
    last: Option<Request<'_>>,
    not_stored: Option<WriteResult>,
)
    requires
        call_ensures(<NatsKvStorageEngine as Store>::store, (engine, obj, opts), begun),
        call_ensures(Writing::next, (begun, Reply::LookedUp { found: false }), missing),
        call_ensures(Writing::request, (&missing,), creation),
        call_ensures(Writing::next, (missing, Reply::Created(Err(cause))), refused),
        call_ensures(Writing::into_result, (refused,), no_bucket),
        call_ensures(Writing::next, (missing, Reply::Created(Ok(()))), opened),
        call_ensures(Writing::request, (&opened,), encoding),
        call_ensures(Writing::next, (opened, Reply::Encoded(Err(e))), unencoded),
        call_ensures(Writing::into_result, (unencoded,), not_encoded),
        call_ensures(Writing::next, (opened, Reply::Encoded(Ok(value))), encoded),
        call_ensures(Writing::next, (encoded, Reply::Stored(Err(cause))), failed),
        call_ensures(Writing::request, (&failed,), last),
        call_ensures(Writing::into_result, (failed,), not_stored),
    ensures
        creation matches Some(Request::CreateBucket { bucket, history }) && names_lattice(
            *old(engine),
            obj.id@,
            bucket@,
        ) && history == 10,
        no_bucket matches Some(Err(StorageError::Engine(text))) && text@
            == "failed to create jetstream kv: "@ + cause@,
        encoding matches Some(Request::Encode { state }) && *state == *obj,
        not_encoded matches Some(Err(reported)) && reported@ == e@,
        last is None,
        not_stored matches Some(Err(StorageError::Unknown(text))) && text@
            == "de/serialization error occurred: "@ + cause@,
{
    law_bucket_name_holds_the_identifier(*old(engine), obj.id@);
}

/// An engine with a JWT file and a seed reads the file, and connects to the configured server with
/// its text and the key pair of the seed exactly if the seed decodes. Once the server accepts, the
/// engine is there and has its configuration.
pub proof fn law_jwt_connection_from_call_to_call(
    config: NatsKvStorageConfig,
    begun: Connecting,
    first: Option<ConnectRequest<'_>>,
    contents: Vec<u8>,
    ready: Connecting,
    second: Option<ConnectRequest<'_>>,
    refused: Option<Result<NatsKvStorageEngine, StorageEngineError>>,
    connected: Connecting,
    result: Option<Result<NatsKvStorageEngine, StorageEngineError>>,
)
    requires
        configures_jwt(config),
        call_ensures(NatsKvStorageEngine::new, (config,), begun),
        call_ensures(Connecting::request, (&begun,), first),
        call_ensures(Connecting::next, (begun, ConnectReply::FileRead(Ok(contents))), ready),
        call_ensures(Connecting::request, (&ready,), second),
        call_ensures(Connecting::into_result, (ready,), refused),
        call_ensures(Connecting::next, (ready, ConnectReply::Connected(Ok(()))), connected),
        call_ensures(Connecting::into_result, (connected,), result),
    ensures
        first matches Some(ConnectRequest::ReadFile { path }) && config.auth->0.jwt_path == Some(
            *path,
        ),
        match nkeys_key_pair(config.auth->0.jwt_seed->0@) {
            Ok(key_pair) => {
                &&& second matches Some(ConnectRequest::Connect { url, login })
                &&& url@ == config.nats_url@
                &&& *login matches Login::Jwt(credentials)
                &&& (*credentials)@.jwt == utf8_lossy(contents@)
                &&& (*credentials)@.key_pair == key_pair
                &&& refused is None
                &&& result matches Some(Ok(engine))
                &&& engine.config() == config
            },
            Err(e) => {
                &&& second is None
                &&& exists|reason: Seq<char>| #[trigger]
                    displays(&e, reason) && (refused matches Some(
                        Err(StorageEngineError::Engine(text)),
                    ) && text@ == "failed to process nkeys: "@ + reason)
            },
        },
{
    law_connection_begins_with_its_login(config);
    law_jwt_file_leads_to_the_connection(config, contents@, ready@);
}

/// An engine with a credentials file, and not both a JWT file and a seed, loads that file and
/// connects to the configured server with it.
pub proof fn law_credentials_connection_from_call_to_call(
    config: NatsKvStorageConfig,
    begun: Connecting,
    first: Option<ConnectRequest<'_>>,
    ready: Connecting,
    second: Option<ConnectRequest<'_>>,
    connected: Connecting,
    result: Option<Result<NatsKvStorageEngine, StorageEngineError>>,
)
    requires
        configures_credentials_file(config),
        call_ensures(NatsKvStorageEngine::new, (config,), begun),
        call_ensures(Connecting::request, (&begun,), first),
        call_ensures(Connecting::next, (begun, ConnectReply::CredentialsLoaded(Ok(()))), ready),
        call_ensures(Connecting::request, (&ready,), second),
        call_ensures(Connecting::next, (ready, ConnectReply::Connected(Ok(()))), connected),
        call_ensures(Connecting::into_result, (connected,), result),
    ensures
        first matches Some(ConnectRequest::LoadCredentials { creds_file }) && creds_file@
            == config.auth->0.creds_file->0@,
        second matches Some(ConnectRequest::Connect { url, login }) && url@ == config.nats_url@
            && *login is CredentialsFile,
        result matches Some(Ok(engine)) && engine.config() == config,
{
    law_connection_begins_with_its_login(config);
    law_credentials_file_leads_to_the_connection(config, ready@);
}

/// An engine without credentials connects to the configured server at once and without them. It is
/// there if the server accepts, and otherwise the cause is reported.
pub proof fn law_anonymous_connection_from_call_to_call(
    config: NatsKvStorageConfig,
    cause: String,
    begun: Connecting,
    first: Option<ConnectRequest<'_>>,
    connected: Connecting,
    result: Option<Result<NatsKvStorageEngine, StorageEngineError>>,
    refused: Connecting,
    not_connected: Option<Result<NatsKvStorageEngine, StorageEngineError>>,
)
    requires
        !configures_jwt(config),
        !configures_credentials_file(config),
        call_ensures(NatsKvStorageEngine::new, (config,), begun),
        call_ensures(Connecting::request, (&begun,), first),
        call_ensures(Connecting::next, (begun, ConnectReply::Connected(Ok(()))), connected),
        call_ensures(Connecting::into_result, (connected,), result),
        call_ensures(Connecting::next, (begun, ConnectReply::Connected(Err(cause))), refused),
        call_ensures(Connecting::into_result, (refused,), not_connected),
    ensures
        first matches Some(ConnectRequest::Connect { url, login }) && url@ == config.nats_url@
            && *login is Anonymous,
        result matches Some(Ok(engine)) && engine.config() == config,
        not_connected matches Some(Err(StorageEngineError::Engine(text))) && text@
            == "failed to connect: "@ + cause@,
{
    law_connection_begins_with_its_login(config);
    law_server_decides_the_connection(begun@, cause@, connected@, refused@);
}

/// Where the JWT file cannot be read or the credentials file cannot be loaded, a connection ends
/// with just that error and does not connect.
pub proof fn law_failed_login_from_call_to_call(
    config: NatsKvStorageConfig,
    e: StorageEngineError,
    begun: Connecting,
    failed: Connecting,
    last: Option<ConnectRequest<'_>>,
    result: Option<Result<NatsKvStorageEngine, StorageEngineError>>,
)
    requires
        call_ensures(NatsKvStorageEngine::new, (config,), begun),
        ({
            ||| configures_jwt(config) && call_ensures(
                Connecting::next,
                (begun, ConnectReply::FileRead(Err(e))),
                failed,
            )
            ||| configures_credentials_file(config) && call_ensures(
                Connecting::next,
                (begun, ConnectReply::CredentialsLoaded(Err(e))),
                failed,
            )
        }),
        call_ensures(Connecting::request, (&failed,), last),
        call_ensures(Connecting::into_result, (failed,), result),
    ensures
        last is None,
        result matches Some(Err(reported)) && reported@ == e@,
{
}

/// What reading and loading returned comes through as a reply: contents as they are, and an error
/// with its whole text.
pub proof fn law_connect_replies(
    read: Result<Vec<u8>, std::io::Error>,
    read_reply: ConnectReply,
    loaded: Result<(), std::io::Error>,
    loaded_reply: ConnectReply,
)
    requires
        call_ensures(ConnectReply::file_read, (read,), read_reply),
        call_ensures(ConnectReply::credentials_loaded, (loaded,), loaded_reply),
    ensures
        match read {
            Ok(contents) => read_reply matches ConnectReply::FileRead(Ok(bytes)) && bytes@
                == contents@,
            Err(e) => exists|reason: Seq<char>| #[trigger]
                displays(&e, reason) && (read_reply matches ConnectReply::FileRead(
                    Err(StorageEngineError::Engine(text)),
                ) && text@ == "unexpected I/O error: "@ + reason),
        },
        match loaded {
            Ok(()) => loaded_reply matches ConnectReply::CredentialsLoaded(Ok(())),
            Err(e) => exists|reason: Seq<char>| #[trigger]
                displays(&e, reason) && (loaded_reply matches ConnectReply::CredentialsLoaded(
                    Err(StorageEngineError::Engine(text)),
                ) && text@ == "Failed to connect NATS: "@ + reason),
        },
{
}

/// What decoding and encoding returned comes through as a reply: a state and bytes as they are, and
/// an error with its whole text.
pub proof fn law_codec_replies(
    decoded: Result<LatticeState, serde_json::Error>,
    decoded_reply: Reply,
    encoded: Result<Vec<u8>, serde_json::Error>,
    encoded_reply: Reply,
)
    requires
        call_ensures(Reply::decoded, (decoded,), decoded_reply),
        call_ensures(Reply::encoded, (encoded,), encoded_reply),
    ensures
        match decoded {
            Ok(state) => decoded_reply == Reply::Decoded(Ok(state)),
            Err(e) => exists|reason: Seq<char>| #[trigger]
                displays(&e, reason) && (decoded_reply matches Reply::Decoded(
                    Err(StorageError::Unknown(text)),
                ) && text@ == "de/serialization error occurred: "@ + reason),
        },
        match encoded {
            Ok(value) => encoded_reply matches Reply::Encoded(Ok(bytes)) && bytes@ == value@,
            Err(e) => exists|reason: Seq<char>| #[trigger]
                displays(&e, reason) && (encoded_reply matches Reply::Encoded(
                    Err(StorageError::Unknown(text)),
                ) && text@ == "de/serialization error occurred: "@ + reason),
        },
{
}

/// A state is built exactly if both of its parts are set, and has just these. Otherwise the error
/// names a part that is not set, and a storage error made of it holds its whole message.
pub proof fn law_builder(
    builder: LatticeStateBuilder,
    built: Result<LatticeState, LatticeStateBuilderError>,
    message: String,
    e: StorageError,
)
    requires
        call_ensures(LatticeStateBuilder::build, (builder,), built),
        built is Err ==> call_ensures(
            LatticeStateBuilderError::to_string,
            (&built->Err_0,),
            message,
        ),
        built is Err ==> call_ensures(
            <StorageError as From<LatticeStateBuilderError>>::from,
            (built->Err_0,),
            e,
        ),
    ensures
        built is Ok <==> builder.id is Some && builder.document is Some,
        built is Ok ==> Some(built->Ok_0.id) == builder.id && Some(built->Ok_0.document)
            == builder.document,
        built is Err ==> {
            ||| builder.id is None && message@ == "`"@ + "id"@ + "` must be initialized"@
            ||| builder.id is Some && message@ == "`"@ + "document"@ + "` must be initialized"@
        },
        built is Err ==> e is Unknown && e->Unknown_0@ == "failed to build lattice: "@ + message@,
{
}

/// The message of an error holds its whole text, behind or between the words of its kind.
pub proof fn law_messages(
    engine_error: StorageEngineError,
    engine_message: String,
    error: StorageError,
    message: String,
)
    requires
        call_ensures(StorageEngineError::to_string, (&engine_error,), engine_message),
        call_ensures(StorageError::to_string, (&error,), message),
    ensures
        match engine_error {
            StorageEngineError::Engine(text) => engine_message@
                == "Storage engine encountered an error: "@ + text@,
            StorageEngineError::NotConnected(text) => engine_message@ == "Storage engine ["@ + text@
                + "] not connected"@,
            StorageEngineError::NotImplemented(text) => engine_message@
                == "Operation not implemented: "@ + text@,
            StorageEngineError::Unknown => engine_message@ == "Unknown error has occured"@,
        },
        match error {
            StorageError::Engine(text) => message@ == "Storage error: "@ + text@,
            StorageError::NetworkError(text) => message@ == "Network error: "@ + text@,
            StorageError::Unknown(text) => message@ == "Unknown error has occured: "@ + text@,
        },
{
}

/// An error made of a cause holds the whole text of the cause, behind words that say what failed.
pub proof fn law_errors_from_causes(
    cause: &str,
    not_connected: StorageEngineError,
    not_created: StorageError,
    missing: StorageError,
    not_deleted: StorageError,
    not_transferred: StorageError,
)
    requires
        call_ensures(StorageEngineError::from_connect, (cause,), not_connected),
        call_ensures(StorageError::from_create_bucket, (cause,), not_created),
        call_ensures(StorageError::from_missing_state, (cause,), missing),
        call_ensures(StorageError::from_delete, (cause,), not_deleted),
        call_ensures(StorageError::from_transfer, (cause,), not_transferred),
    ensures
        not_connected matches StorageEngineError::Engine(text) && text@ == "failed to connect: "@
            + cause@,
        not_created matches StorageError::Engine(text) && text@
            == "failed to create jetstream kv: "@ + cause@,
        missing matches StorageError::Engine(text) && text@ == "No lattice state in bucket ["@
            + cause@ + "]"@,
        not_deleted matches StorageError::Engine(text) && text@
            == "failed to delete lattice state: "@ + cause@,
        not_transferred matches StorageError::Unknown(text) && text@
            == "de/serialization error occurred: "@ + cause@,
{
}

/// An error made of an error of another kind holds what that one displays, behind words that say
/// what failed.
pub proof fn law_errors_from_errors(
    nkeys_error: nkeys::error::Error,
    seed_refused: StorageEngineError,
    io_error: std::io::Error,
    file_unreadable: StorageEngineError,
    credentials_refused: StorageEngineError,
    json_error: serde_json::Error,
    not_transferred: StorageError,
)
    requires
        call_ensures(
            <StorageEngineError as From<nkeys::error::Error>>::from,
            (nkeys_error,),
            seed_refused,
        ),
        call_ensures(
            <StorageEngineError as From<std::io::Error>>::from,
            (io_error,),
            file_unreadable,
        ),
        call_ensures(StorageEngineError::from_credentials, (&io_error,), credentials_refused),
        call_ensures(
            <StorageError as From<serde_json::Error>>::from,
            (json_error,),
            not_transferred,
        ),
    ensures
        exists|reason: Seq<char>| #[trigger]
            displays(&nkeys_error, reason) && (seed_refused matches StorageEngineError::Engine(text)
                && text@ == "failed to process nkeys: "@ + reason),
        exists|reason: Seq<char>| #[trigger]
            displays(&io_error, reason) && (file_unreadable matches StorageEngineError::Engine(text)
                && text@ == "unexpected I/O error: "@ + reason),
        exists|reason: Seq<char>| #[trigger]
            displays(&io_error, reason) && (credentials_refused matches StorageEngineError::Engine(
                text,
            ) && text@ == "Failed to connect NATS: "@ + reason),
        exists|reason: Seq<char>| #[trigger]
            displays(&json_error, reason) && (not_transferred matches StorageError::Unknown(text)
                && text@ == "de/serialization error occurred: "@ + reason),
{
}

/// A store compares exactly if its options require it and give a revision, and then with that
/// revision. By default it does not compare.
pub proof fn law_options(
    opts: StoreOptions,
    expected: Option<u64>,
    default: StoreOptions,
    default_expected: Option<u64>,
)
    requires
        call_ensures(StoreOptions::expected_revision, (&opts,), expected),
        call_ensures(<StoreOptions as Default>::default, (), default),
        call_ensures(StoreOptions::expected_revision, (&default,), default_expected),
    ensures
        expected is Some <==> opts.require_cas && opts.revision is Some,
        expected is Some ==> expected == opts.revision,
        !default.require_cas && default.revision is None,
        default_expected is None,
{
}

/// The engine is named `nats_kv` and is of version 0.1.0.
pub proof fn law_metadata(name: String, version: semver::Version)
    requires
        call_ensures(<NatsKvStorageEngine as EngineMetadata>::name, (), name),
        call_ensures(<NatsKvStorageEngine as EngineMetadata>::version, (), version),
    ensures
        name@ == "nats_kv"@,
        version.major == 0 && version.minor == 1 && version.patch == 0,
        prerelease_text(version.pre).len() == 0,
        build_metadata_text(version.build).len() == 0,
{
}

} // verus!
