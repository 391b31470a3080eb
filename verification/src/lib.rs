//! Storage of lattice state in a NATS key-value bucket.
//!
//! The crate decides what a storage engine does: where the state of a lattice is kept, which
//! requests an operation sends to the key-value service and in which order, and what each answer
//! means. It performs no input or output. An operation is a value that names its outstanding
//! request and takes the reply to it; a driver carries the requests out.
mod auth;
mod bucket;
pub mod call_laws;
mod config;
mod connect;
pub mod connection_laws;
pub mod course_laws;
mod delete;
mod engine;
mod error;
pub mod laws;
pub mod model;
pub mod naming_laws;
pub mod operation;
pub mod outside;
mod read;
mod service;
mod state;
mod store;
pub mod text_laws;
pub mod view_laws;
mod write;

pub use auth::{
    auth_method, build_nats_options, is_jwt_login, jwt_result_view, login_method, AuthMethod,
    AuthMethodView, JwtCredentials, JwtCredentialsView,
};
pub use bucket::{lattice_bucket_name, Opened, OpenedView, Opening};
pub use config::{NatsAuthConfig, NatsKvStorageConfig};
pub use connect::{
    connect_request_view, ConnectReply, ConnectReplyView, ConnectRequest, ConnectRequestView,
    Connecting, ConnectingStage, ConnectingView, Login, LoginView,
};
pub use delete::{
    delete_result_view, DeleteResult, DeleteResultView, Deleting, DeletingStage, DeletingView,
};
pub use engine::{NatsKvStorageEngine, STORAGE_ENGINE_NAME};
pub use error::{StorageEngineError, StorageEngineErrorView, StorageError, StorageErrorView};
pub use read::{
    read_result_view, ReadResult, ReadResultView, Reading, ReadingStage, ReadingView,
};
pub use service::{
    request_view, Entry, EntryView, Reply, ReplyView, Request, RequestView, LATTICE_BUCKET_HISTORY,
    LATTICE_BUCKET_STATE_KEY,
};
pub use state::{
    LatticeState, LatticeStateBuilder, LatticeStateBuilderError, LatticeStateBuilderErrorView,
};
pub use store::{
    EngineMetadata, LatticeStorage, Store, StoreOptions, StoreRead, StoreReadWrite, StoreWrite,
    WithStateMetadata,
};
pub use write::{
    write_result_view, WriteResult, WriteResultView, Writing, WritingStage, WritingView,
};
