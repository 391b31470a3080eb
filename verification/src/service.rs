//! What storage operations ask of the key-value service, and what it answers.
use crate::error::{StorageError, StorageErrorView};
use crate::outside::displays;
use crate::state::LatticeState;
use vstd::prelude::*;

verus! {

/// Key under which a bucket holds the state of its lattice
pub const LATTICE_BUCKET_STATE_KEY: &'static str = "state";

/// Number of past values that a new bucket keeps of each key
pub const LATTICE_BUCKET_HISTORY: i64 = 10;

/// What an operation asks for
#[derive(Debug)]
pub enum Request<'a> {
    /// Look up the bucket of this name
    LookUpBucket { bucket: &'a str },
    /// Create the bucket of this name, keeping this many past values of each key
    CreateBucket { bucket: &'a str, history: i64 },
    /// Fetch the entry under this key
    FetchEntry { bucket: &'a str, key: &'a str },
    /// Decode the value of an entry into a state
    Decode { value: &'a Vec<u8> },
    /// Encode a state into the value of an entry
    Encode { state: &'a LatticeState },
    /// Set the value under this key, whatever is there
    Put { bucket: &'a str, key: &'a str, value: &'a Vec<u8> },
    /// Set the value under this key, if the last revision there is this one
    Update { bucket: &'a str, key: &'a str, value: &'a Vec<u8>, revision: u64 },
    /// Delete what is under this key
    Delete { bucket: &'a str, key: &'a str },
}

/// A [`Request`] over sequences.
pub enum RequestView {
    LookUpBucket { bucket: Seq<char> },
    CreateBucket { bucket: Seq<char>, history: int },
    FetchEntry { bucket: Seq<char>, key: Seq<char> },
    Decode { value: Seq<u8> },
    Encode { state: LatticeState },
    Put { bucket: Seq<char>, key: Seq<char>, value: Seq<u8> },
    Update { bucket: Seq<char>, key: Seq<char>, value: Seq<u8>, revision: u64 },
    Delete { bucket: Seq<char>, key: Seq<char> },
}

impl<'a> View for Request<'a> {
    type V = RequestView;

    open spec fn view(&self) -> RequestView {
        match *self {
            Request::LookUpBucket { bucket } => RequestView::LookUpBucket { bucket: bucket@ },
            Request::CreateBucket { bucket, history } => RequestView::CreateBucket {
                bucket: bucket@,
                history: history as int,
            },
            Request::FetchEntry { bucket, key } => RequestView::FetchEntry {
                bucket: bucket@,
                key: key@,
            },
            Request::Decode { value } => RequestView::Decode { value: value@ },
            Request::Encode { state } => RequestView::Encode { state: *state },
            Request::Put { bucket, key, value } => RequestView::Put {
                bucket: bucket@,
                key: key@,
                value: value@,
            },
            Request::Update { bucket, key, value, revision } => RequestView::Update {
                bucket: bucket@,
                key: key@,
                value: value@,
                revision,
            },
            Request::Delete { bucket, key } => RequestView::Delete { bucket: bucket@, key: key@ },
        }
    }
}

/// The view of an optional request.
pub open spec fn request_view(request: Option<Request<'_>>) -> Option<RequestView> {
    match request {
        Some(request) => Some(request@),
        None => None,
    }
}

impl RequestView {
    /// The bucket that the request goes to, and `None` if it goes to none.
    pub open spec fn bucket(self) -> Option<Seq<char>> {
        match self {
            RequestView::LookUpBucket { bucket } => Some(bucket),
            RequestView::CreateBucket { bucket, .. } => Some(bucket),
            RequestView::FetchEntry { bucket, .. } => Some(bucket),
            RequestView::Put { bucket, .. } => Some(bucket),
            RequestView::Update { bucket, .. } => Some(bucket),
            RequestView::Delete { bucket, .. } => Some(bucket),
            RequestView::Decode { .. } => None,
            RequestView::Encode { .. } => None,
        }
    }

    /// The key that the request goes to, and `None` if it goes to none.
    pub open spec fn key(self) -> Option<Seq<char>> {
        match self {
            RequestView::FetchEntry { key, .. } => Some(key),
            RequestView::Put { key, .. } => Some(key),
            RequestView::Update { key, .. } => Some(key),
            RequestView::Delete { key, .. } => Some(key),
            _ => None,
        }
    }
}

/// An entry of a bucket
#[derive(Debug)]
pub struct Entry {
    /// The value of the entry
    pub value: Vec<u8>,
    /// The revision under which the value was stored
    pub revision: u64,
    /// Whether the entry marks a deletion
    pub deleted: bool,
}

/// An [`Entry`] over sequences.
pub struct EntryView {
    pub value: Seq<u8>,
    pub revision: u64,
    pub deleted: bool,
}

impl EntryView {
    /// The entry is what a deletion leaves: a mark without a value.
    pub open spec fn is_tombstone(self) -> bool {
        self.deleted && self.value.len() == 0
    }
}

impl View for Entry {
    type V = EntryView;

    open spec fn view(&self) -> EntryView {
        EntryView { value: self.value@, revision: self.revision, deleted: self.deleted }
    }
}

/// The answer to a [`Request`]
///
/// A failure of the service comes as the text of its cause.
#[derive(Debug)]
pub enum Reply {
    /// Whether the bucket was found
    LookedUp { found: bool },
    /// The bucket was created, or why not
    Created(Result<(), String>),
    /// The entry, or `None` where there is none, or why it could not be fetched
    Fetched(Result<Option<Entry>, String>),
    /// The decoded state, or the error that decoding gave
    Decoded(Result<LatticeState, StorageError>),
    /// The encoded state, or the error that encoding gave
    Encoded(Result<Vec<u8>, StorageError>),
    /// The revision under which the value was stored, or why it was not
    Stored(Result<u64, String>),
    /// The entry was deleted, or why not
    Deleted(Result<(), String>),
}

/// A [`Reply`] over sequences.
pub enum ReplyView {
    LookedUp { found: bool },
    Created(Result<(), Seq<char>>),
    Fetched(Result<Option<EntryView>, Seq<char>>),
    Decoded(Result<LatticeState, StorageErrorView>),
    Encoded(Result<Seq<u8>, StorageErrorView>),
    Stored(Result<u64, Seq<char>>),
    Deleted(Result<(), Seq<char>>),
}

impl View for Reply {
    type V = ReplyView;

    open spec fn view(&self) -> ReplyView {
        match *self {
            Reply::LookedUp { found } => ReplyView::LookedUp { found },
            Reply::Created(Ok(())) => ReplyView::Created(Ok(())),
            Reply::Created(Err(cause)) => ReplyView::Created(Err(cause@)),
            Reply::Fetched(Ok(Some(entry))) => ReplyView::Fetched(Ok(Some(entry@))),
            Reply::Fetched(Ok(None)) => ReplyView::Fetched(Ok(None)),
            Reply::Fetched(Err(cause)) => ReplyView::Fetched(Err(cause@)),
            Reply::Decoded(Ok(state)) => ReplyView::Decoded(Ok(state)),
            Reply::Decoded(Err(e)) => ReplyView::Decoded(Err(e@)),
            Reply::Encoded(Ok(value)) => ReplyView::Encoded(Ok(value@)),
            Reply::Encoded(Err(e)) => ReplyView::Encoded(Err(e@)),
            Reply::Stored(Ok(revision)) => ReplyView::Stored(Ok(revision)),
            Reply::Stored(Err(cause)) => ReplyView::Stored(Err(cause@)),
            Reply::Deleted(Ok(())) => ReplyView::Deleted(Ok(())),
            Reply::Deleted(Err(cause)) => ReplyView::Deleted(Err(cause@)),
        }
    }
}

impl ReplyView {
    /// The reply is of the kind that the request asks for.
    pub open spec fn answers(self, request: RequestView) -> bool {
        match request {
            RequestView::LookUpBucket { .. } => self is LookedUp,
            RequestView::CreateBucket { .. } => self is Created,
            RequestView::FetchEntry { .. } => self is Fetched,
            RequestView::Decode { .. } => self is Decoded,
            RequestView::Encode { .. } => self is Encoded,
            RequestView::Put { .. } => self is Stored,
            RequestView::Update { .. } => self is Stored,
            RequestView::Delete { .. } => self is Deleted,
        }
    }
}

impl Reply {
    /// The reply to [`Request::Decode`] from what the JSON decoder returned
    pub fn decoded(result: Result<LatticeState, serde_json::Error>) -> (reply: Reply)
        ensures
            match result {
                Ok(state) => reply@ == ReplyView::Decoded(Ok(state)),
                Err(e) => exists|reason: Seq<char>| #[trigger]
                    displays(&e, reason) && reply@ == ReplyView::Decoded(
                        Err(StorageErrorView::not_transferred(reason)),
                    ),
            },
    {
        match result {
            Ok(state) => Reply::Decoded(Ok(state)),
            Err(e) => Reply::Decoded(Err(StorageError::from(e))),
        }
    }

    /// The reply to [`Request::Encode`] from what the JSON encoder returned
    pub fn encoded(result: Result<Vec<u8>, serde_json::Error>) -> (reply: Reply)
        ensures
            match result {
                Ok(value) => reply@ == ReplyView::Encoded(Ok(value@)),
                Err(e) => exists|reason: Seq<char>| #[trigger]
                    displays(&e, reason) && reply@ == ReplyView::Encoded(
                        Err(StorageErrorView::not_transferred(reason)),
                    ),
            },
    {
        match result {
            Ok(value) => Reply::Encoded(Ok(value)),
            Err(e) => Reply::Encoded(Err(StorageError::from(e))),
        }
    }
}

} // verus!
