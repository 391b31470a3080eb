//! Contracts speak of values through their views. The laws here say that the views hide nothing:
//! a view has the variant of its value, and each of its parts is the part of the value.
use crate::auth::{AuthMethod, AuthMethodView};
use crate::bucket::{Opened, OpenedView};
use crate::connect::{
    connect_request_view, ConnectReply, ConnectReplyView, ConnectRequest, ConnectRequestView, Login,
    LoginView,
};
use crate::delete::{delete_result_view, DeleteResult};
use crate::error::{
    StorageEngineError, StorageEngineErrorView, StorageError, StorageErrorView,
};
use crate::read::{read_result_view, ReadResult};
use crate::service::{request_view, Entry, Reply, ReplyView, Request, RequestView};
use crate::state::{LatticeStateBuilderError, LatticeStateBuilderErrorView};
use crate::store::WithStateMetadata;
use crate::write::{write_result_view, WriteResult};
use vstd::prelude::*;

verus! {

/// The view of a request asks for what the request asks for.
pub proof fn law_request_is_seen_whole(request: Request<'_>)
    ensures
        request_view(Some(request)) == Some(request@),
        request_view(None) is None,
        match request@ {
            RequestView::LookUpBucket { bucket: seen } => request matches Request::LookUpBucket {
                bucket,
            } && bucket@ == seen,
            RequestView::CreateBucket { bucket: seen, history: kept } => {
                &&& request matches Request::CreateBucket { bucket, history }
                &&& bucket@ == seen
                &&& history == kept
            },
            RequestView::FetchEntry { bucket: seen, key: seen_key } => {
                &&& request matches Request::FetchEntry { bucket, key }
                &&& bucket@ == seen
                &&& key@ == seen_key
            },
            RequestView::Decode { value: seen } => request matches Request::Decode { value }
                && value@ == seen,
            RequestView::Encode { state: seen } => request matches Request::Encode { state }
                && *state == seen,
            RequestView::Put { bucket: seen, key: seen_key, value: seen_value } => {
                &&& request matches Request::Put { bucket, key, value }
                &&& bucket@ == seen
                &&& key@ == seen_key
                &&& value@ == seen_value
            },
            RequestView::Update {
                bucket: seen,
                key: seen_key,
                value: seen_value,
                revision: seen_revision,
            } => {
                &&& request matches Request::Update { bucket, key, value, revision }
                &&& bucket@ == seen
                &&& key@ == seen_key
                &&& value@ == seen_value
                &&& revision == seen_revision
            },
            RequestView::Delete { bucket: seen, key: seen_key } => {
                &&& request matches Request::Delete { bucket, key }
                &&& bucket@ == seen
                &&& key@ == seen_key
            },
        },
{
}

/// The view of an entry has its value, its revision and its mark.
pub proof fn law_entry_is_seen_whole(entry: Entry)
    ensures
        entry@.value == entry.value@,
        entry@.revision == entry.revision,
        entry@.deleted == entry.deleted,
{
}

/// The view of a reply answers what the reply answers.
pub proof fn law_reply_is_seen_whole(reply: Reply)
    ensures
        match reply@ {
            ReplyView::LookedUp { found: seen } => reply matches Reply::LookedUp { found } && found
                == seen,
            ReplyView::Created(seen) => {
                &&& reply matches Reply::Created(result)
                &&& result is Ok <==> seen is Ok
                &&& result is Err ==> result->Err_0@ == seen->Err_0
            },
            ReplyView::Fetched(seen) => {
                &&& reply matches Reply::Fetched(result)
                &&& result is Ok <==> seen is Ok
                &&& result is Ok ==> (result->Ok_0 is Some <==> seen->Ok_0 is Some)
                &&& result is Ok && result->Ok_0 is Some ==> result->Ok_0->0@ == seen->Ok_0->0
                &&& result is Err ==> result->Err_0@ == seen->Err_0
            },
            ReplyView::Decoded(seen) => {
                &&& reply matches Reply::Decoded(result)
                &&& result is Ok <==> seen is Ok
                &&& result is Ok ==> result->Ok_0 == seen->Ok_0
                &&& result is Err ==> result->Err_0@ == seen->Err_0
            },
            ReplyView::Encoded(seen) => {
                &&& reply matches Reply::Encoded(result)
                &&& result is Ok <==> seen is Ok
                &&& result is Ok ==> result->Ok_0@ == seen->Ok_0
                &&& result is Err ==> result->Err_0@ == seen->Err_0
            },
            ReplyView::Stored(seen) => {
                &&& reply matches Reply::Stored(result)
                &&& result is Ok <==> seen is Ok
                &&& result is Ok ==> result->Ok_0 == seen->Ok_0
                &&& result is Err ==> result->Err_0@ == seen->Err_0
            },
            ReplyView::Deleted(seen) => {
                &&& reply matches Reply::Deleted(result)
                &&& result is Ok <==> seen is Ok
                &&& result is Err ==> result->Err_0@ == seen->Err_0
            },
        },
{
}

/// The views of errors have their variants and their texts.
pub proof fn law_errors_are_seen_whole(
    engine_error: StorageEngineError,
    error: StorageError,
    builder_error: LatticeStateBuilderError,
)
    ensures
        match engine_error@ {
            StorageEngineErrorView::Engine(seen) => engine_error matches StorageEngineError::Engine(
                text,
            ) && text@ == seen,
            StorageEngineErrorView::NotConnected(seen) => {
                &&& engine_error matches StorageEngineError::NotConnected(text)
                &&& text@ == seen
            },
            StorageEngineErrorView::NotImplemented(seen) => {
                &&& engine_error matches StorageEngineError::NotImplemented(text)
                &&& text@ == seen
            },
            StorageEngineErrorView::Unknown => engine_error is Unknown,
        },
        match error@ {
            StorageErrorView::Engine(seen) => error matches StorageError::Engine(text) && text@
                == seen,
            StorageErrorView::NetworkError(seen) => error matches StorageError::NetworkError(text)
                && text@ == seen,
            StorageErrorView::Unknown(seen) => error matches StorageError::Unknown(text) && text@
                == seen,
        },
        match builder_error@ {
            LatticeStateBuilderErrorView::UninitializedField(seen) => {
                &&& builder_error matches LatticeStateBuilderError::UninitializedField(field)
                &&& field@ == seen
            },
            LatticeStateBuilderErrorView::ValidationError(seen) => {
                &&& builder_error matches LatticeStateBuilderError::ValidationError(text)
                &&& text@ == seen
            },
        },
{
}

/// The views of results are the results, with texts as sequences of characters.
pub proof fn law_results_are_seen_whole(
    read: ReadResult,
    written: WriteResult,
    deleted: DeleteResult,
)
    ensures
        read_result_view(read) == match read {
            Ok(found) => Ok(found),
            Err(e) => Err::<_, StorageErrorView>(e@),
        },
        write_result_view(written) is Ok <==> written is Ok,
        written is Ok ==> write_result_view(written)->Ok_0 == (WithStateMetadata {
            revision: written->Ok_0.revision,
            state: written->Ok_0.state@,
        }),
        written is Err ==> write_result_view(written)->Err_0 == written->Err_0@,
        delete_result_view(deleted) is Ok <==> deleted is Ok,
        deleted is Err ==> delete_result_view(deleted)->Err_0 == deleted->Err_0@,
{
}

/// The view of what becomes of an opening is what becomes of it.
pub proof fn law_opened_is_seen_whole(opened: Opened)
    ensures
        match opened@ {
            OpenedView::Pending(seen) => opened == Opened::Pending(seen),
            OpenedView::Open => opened is Open,
            OpenedView::Failed(seen) => opened matches Opened::Failed(e) && e@ == seen,
        },
{
}

/// The views of a way to log in and of a login have what these have.
pub proof fn law_login_is_seen_whole(method: AuthMethod<'_>, login: Login)
    ensures
        match method@ {
            AuthMethodView::Jwt { jwt_path: seen_path, seed: seen_seed } => {
                &&& method matches AuthMethod::Jwt { jwt_path, seed }
                &&& *jwt_path == seen_path
                &&& seed@ == seen_seed
            },
            AuthMethodView::CredentialsFile { creds_file: seen } => {
                &&& method matches AuthMethod::CredentialsFile { creds_file }
                &&& creds_file@ == seen
            },
            AuthMethodView::Anonymous => method is Anonymous,
        },
        match login@ {
            LoginView::Jwt(seen) => login matches Login::Jwt(credentials) && (*credentials)@
                == seen,
            LoginView::CredentialsFile => login is CredentialsFile,
            LoginView::Anonymous => login is Anonymous,
        },
{
}

/// The view of a request of a connection asks for what the request asks for.
pub proof fn law_connect_request_is_seen_whole(request: ConnectRequest<'_>)
    ensures
        connect_request_view(Some(request)) == Some(request@),
        connect_request_view(None) is None,
        match request@ {
            ConnectRequestView::ReadFile { path: seen } => {
                &&& request matches ConnectRequest::ReadFile { path }
                &&& *path == seen
            },
            ConnectRequestView::LoadCredentials { creds_file: seen } => {
                &&& request matches ConnectRequest::LoadCredentials { creds_file }
                &&& creds_file@ == seen
            },
            ConnectRequestView::Connect { url: seen, login: seen_login } => {
                &&& request matches ConnectRequest::Connect { url, login }
                &&& url@ == seen
                &&& (*login)@ == seen_login
            },
        },
{
}

/// The view of a reply to a connection answers what the reply answers.
pub proof fn law_connect_reply_is_seen_whole(reply: ConnectReply)
    ensures
        match reply@ {
            ConnectReplyView::FileRead(seen) => {
                &&& reply matches ConnectReply::FileRead(result)
                &&& result is Ok <==> seen is Ok
                &&& result is Ok ==> result->Ok_0@ == seen->Ok_0
                &&& result is Err ==> result->Err_0@ == seen->Err_0
            },
            ConnectReplyView::CredentialsLoaded(seen) => {
                &&& reply matches ConnectReply::CredentialsLoaded(result)
                &&& result is Ok <==> seen is Ok
                &&& result is Err ==> result->Err_0@ == seen->Err_0
            },
            ConnectReplyView::Connected(seen) => {
                &&& reply matches ConnectReply::Connected(result)
                &&& result is Ok <==> seen is Ok
                &&& result is Err ==> result->Err_0@ == seen->Err_0
            },
        },
{
}

} // verus!
