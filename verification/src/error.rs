//! Errors of storage engines and of storage operations.
use crate::outside::displays;
use vstd::prelude::*;
use vstd::std_specs::convert::FromSpecImpl;

verus! {

/// Errors that are related to storage engines
#[derive(Debug)]
pub enum StorageEngineError {
    /// When the underlying engine throws an error
    Engine(String),
    /// When the engine is not connected
    NotConnected(String),
    /// When an operation is not implemented
    NotImplemented(String),
    /// An error when the cause is unknown. This happens very rarely and should be considered fatal
    Unknown,
}

/// A [`StorageEngineError`] with its text taken as a sequence of characters.
pub enum StorageEngineErrorView {
    Engine(Seq<char>),
    NotConnected(Seq<char>),
    NotImplemented(Seq<char>),
    Unknown,
}

impl View for StorageEngineError {
    type V = StorageEngineErrorView;

    open spec fn view(&self) -> StorageEngineErrorView {
        match self {
            StorageEngineError::Engine(text) => StorageEngineErrorView::Engine(text@),
            StorageEngineError::NotConnected(text) => StorageEngineErrorView::NotConnected(text@),
            StorageEngineError::NotImplemented(text) => StorageEngineErrorView::NotImplemented(
                text@,
            ),
            StorageEngineError::Unknown => StorageEngineErrorView::Unknown,
        }
    }
}

impl StorageEngineErrorView {
    /// The message of the error.
    pub open spec fn message(self) -> Seq<char> {
        match self {
            StorageEngineErrorView::Engine(text) => "Storage engine encountered an error: "@ + text,
            StorageEngineErrorView::NotConnected(text) => "Storage engine ["@ + text
                + "] not connected"@,
            StorageEngineErrorView::NotImplemented(text) => "Operation not implemented: "@ + text,
            StorageEngineErrorView::Unknown => "Unknown error has occured"@,
        }
    }

    /// The seed of a signing key could not be used, for the reason `reason`.
    pub open spec fn seed_refused(reason: Seq<char>) -> Self {
        StorageEngineErrorView::Engine("failed to process nkeys: "@ + reason)
    }

    /// A file could not be read, for the reason `reason`.
    pub open spec fn file_unreadable(reason: Seq<char>) -> Self {
        StorageEngineErrorView::Engine("unexpected I/O error: "@ + reason)
    }

    /// A credentials file could not be loaded, for the reason `reason`.
    pub open spec fn credentials_refused(reason: Seq<char>) -> Self {
        StorageEngineErrorView::Engine("Failed to connect NATS: "@ + reason)
    }

    /// The connection was not made, for the reason `reason`.
    pub open spec fn connection_failed(reason: Seq<char>) -> Self {
        StorageEngineErrorView::Engine("failed to connect: "@ + reason)
    }
}

impl StorageEngineError {
    /// The message of the error
    pub fn to_string(&self) -> (message: String)
        ensures
            message@ == self@.message(),
    {
        match self {
            StorageEngineError::Engine(text) => {
                "Storage engine encountered an error: ".to_owned().concat(text.as_str())
            },
            StorageEngineError::NotConnected(text) => {
                "Storage engine [".to_owned().concat(text.as_str()).concat("] not connected")
            },
            StorageEngineError::NotImplemented(text) => {
                "Operation not implemented: ".to_owned().concat(text.as_str())
            },
            StorageEngineError::Unknown => "Unknown error has occured".to_owned(),
        }
    }

    /// The error for a credentials file that could not be loaded
    pub fn from_credentials(err: &std::io::Error) -> (r: StorageEngineError)
        ensures
            exists|reason: Seq<char>| #[trigger]
                displays(err, reason) && r@ == StorageEngineErrorView::credentials_refused(reason),
    {
        let reason: String = err.to_string();
        assert(displays(err, reason@));
        StorageEngineError::Engine("Failed to connect NATS: ".to_owned().concat(reason.as_str()))
    }

    /// The error for a connection that was not made, from the text of the cause
    pub fn from_connect(reason: &str) -> (r: StorageEngineError)
        ensures
            r@ == StorageEngineErrorView::connection_failed(reason@),
    {
        StorageEngineError::Engine("failed to connect: ".to_owned().concat(reason))
    }
}

impl From<nkeys::error::Error> for StorageEngineError {
    fn from(err: nkeys::error::Error) -> (r: StorageEngineError)
        ensures
            exists|reason: Seq<char>| #[trigger]
                displays(&err, reason) && r@ == StorageEngineErrorView::seed_refused(reason),
    {
        let reason: String = err.to_string();
        assert(displays(&err, reason@));
        StorageEngineError::Engine("failed to process nkeys: ".to_owned().concat(reason.as_str()))
    }
}

/// The conversion is fixed up to the text that `Display` gives, so no single value is claimed.
impl FromSpecImpl<nkeys::error::Error> for StorageEngineError {
    open spec fn obeys_from_spec() -> bool {
        false
    }

    open spec fn from_spec(err: nkeys::error::Error) -> StorageEngineError {
        arbitrary()
    }
}

impl From<std::io::Error> for StorageEngineError {
    fn from(err: std::io::Error) -> (r: StorageEngineError)
        ensures
            exists|reason: Seq<char>| #[trigger]
                displays(&err, reason) && r@ == StorageEngineErrorView::file_unreadable(reason),
    {
        let reason: String = err.to_string();
        assert(displays(&err, reason@));
        StorageEngineError::Engine("unexpected I/O error: ".to_owned().concat(reason.as_str()))
    }
}

/// The conversion is fixed up to the text that `Display` gives, so no single value is claimed.
impl FromSpecImpl<std::io::Error> for StorageEngineError {
    open spec fn obeys_from_spec() -> bool {
        false
    }

    open spec fn from_spec(err: std::io::Error) -> StorageEngineError {
        arbitrary()
    }
}

/// Errors that are related to storage
#[derive(Debug)]
pub enum StorageError {
    /// Errors that arise at the engine layer
    Engine(String),
    /// Errors that arise at the network layer
    NetworkError(String),
    /// An error when the cause is unknown. This happens very rarely and should be considered fatal
    Unknown(String),
}

/// A [`StorageError`] with its text taken as a sequence of characters.
pub enum StorageErrorView {
    Engine(Seq<char>),
    NetworkError(Seq<char>),
    Unknown(Seq<char>),
}

impl View for StorageError {
    type V = StorageErrorView;

    open spec fn view(&self) -> StorageErrorView {
        match self {
            StorageError::Engine(text) => StorageErrorView::Engine(text@),
            StorageError::NetworkError(text) => StorageErrorView::NetworkError(text@),
            StorageError::Unknown(text) => StorageErrorView::Unknown(text@),
        }
    }
}

impl StorageErrorView {
    /// The message of the error.
    pub open spec fn message(self) -> Seq<char> {
        match self {
            StorageErrorView::Engine(text) => "Storage error: "@ + text,
            StorageErrorView::NetworkError(text) => "Network error: "@ + text,
            StorageErrorView::Unknown(text) => "Unknown error has occured: "@ + text,
        }
    }

    /// A bucket could not be created, for the reason `reason`.
    pub open spec fn bucket_not_created(reason: Seq<char>) -> Self {
        StorageErrorView::Engine("failed to create jetstream kv: "@ + reason)
    }

    /// The bucket `bucket` holds no state.
    pub open spec fn no_state(bucket: Seq<char>) -> Self {
        StorageErrorView::Engine("No lattice state in bucket ["@ + bucket + "]"@)
    }

    /// The state could not be deleted, for the reason `reason`.
    pub open spec fn not_deleted(reason: Seq<char>) -> Self {
        StorageErrorView::Engine("failed to delete lattice state: "@ + reason)
    }

    /// The state could not be moved to or from the bucket, for the reason `reason`.
    pub open spec fn not_transferred(reason: Seq<char>) -> Self {
        StorageErrorView::Unknown("de/serialization error occurred: "@ + reason)
    }

    /// A state could not be built, for the reason `reason`.
    pub open spec fn not_built(reason: Seq<char>) -> Self {
        StorageErrorView::Unknown("failed to build lattice: "@ + reason)
    }
}

impl StorageError {
    /// The message of the error
    pub fn to_string(&self) -> (message: String)
        ensures
            message@ == self@.message(),
    {
        match self {
            StorageError::Engine(text) => "Storage error: ".to_owned().concat(text.as_str()),
            StorageError::NetworkError(text) => "Network error: ".to_owned().concat(text.as_str()),
            StorageError::Unknown(text) => "Unknown error has occured: ".to_owned().concat(
                text.as_str(),
            ),
        }
    }

    /// The error for a bucket that could not be created, from the text of the cause
    pub fn from_create_bucket(reason: &str) -> (r: StorageError)
        ensures
            r@ == StorageErrorView::bucket_not_created(reason@),
    {
        StorageError::Engine("failed to create jetstream kv: ".to_owned().concat(reason))
    }

    /// The error for a bucket that holds no state
    pub fn from_missing_state(bucket: &str) -> (r: StorageError)
        ensures
            r@ == StorageErrorView::no_state(bucket@),
    {
        StorageError::Engine(
            "No lattice state in bucket [".to_owned().concat(bucket).concat("]"),
        )
    }

    /// The error for a state that could not be deleted, from the text of the cause
    pub fn from_delete(reason: &str) -> (r: StorageError)
        ensures
            r@ == StorageErrorView::not_deleted(reason@),
    {
        StorageError::Engine("failed to delete lattice state: ".to_owned().concat(reason))
    }

    /// The error for an entry that could not be read or stored, from the text of the cause
    pub fn from_transfer(reason: &str) -> (r: StorageError)
        ensures
            r@ == StorageErrorView::not_transferred(reason@),
    {
        StorageError::Unknown("de/serialization error occurred: ".to_owned().concat(reason))
    }
}

impl From<serde_json::Error> for StorageError {
    fn from(e: serde_json::Error) -> (r: StorageError)
        ensures
            exists|reason: Seq<char>| #[trigger]
                displays(&e, reason) && r@ == StorageErrorView::not_transferred(reason),
    {
        let reason: String = e.to_string();
        assert(displays(&e, reason@));
        StorageError::from_transfer(reason.as_str())
    }
}

/// The conversion is fixed up to the text that `Display` gives, so no single value is claimed.
impl FromSpecImpl<serde_json::Error> for StorageError {
    open spec fn obeys_from_spec() -> bool {
        false
    }

    open spec fn from_spec(e: serde_json::Error) -> StorageError {
        arbitrary()
    }
}

} // verus!
