//! Reading the state of a lattice.
use crate::bucket::{Opened, OpenedView, Opening};
use crate::error::{StorageError, StorageErrorView};
use crate::operation::Operation;
use crate::outside::{decode_empty_value, empty_value_refusal};
use crate::service::{
    request_view, Entry, EntryView, Reply, ReplyView, Request, RequestView,
    LATTICE_BUCKET_STATE_KEY,
};
use crate::state::LatticeState;
use crate::store::WithStateMetadata;
use vstd::prelude::*;

verus! {

/// How a read ends
pub type ReadResult = Result<WithStateMetadata<LatticeState>, StorageError>;

/// A [`ReadResult`] with its error taken by its view.
pub type ReadResultView = Result<WithStateMetadata<LatticeState>, StorageErrorView>;

/// The view of how a read ended.
pub open spec fn read_result_view(result: ReadResult) -> ReadResultView {
    match result {
        Ok(found) => Ok(found),
        Err(e) => Err(e@),
    }
}

/// How far a read has come
#[derive(Debug)]
enum Stage {
    Opening(Opening),
    Fetch,
    Decode(Entry),
    Done(ReadResult),
}

/// How far a read has come.
pub enum ReadingStage {
    /// The bucket is being opened.
    Opening(Opening),
    /// The entry with the state is being fetched.
    Fetch,
    /// The value of the entry is being decoded.
    Decode(EntryView),
    /// The read is over.
    Done(ReadResultView),
}

/// A read of the state of one lattice
///
/// The read opens the bucket of the lattice, fetches the entry with the state and has it decoded.
/// What a deletion leaves is refused like any other empty value.
#[derive(Debug)]
pub struct Reading {
    bucket: String,
    stage: Stage,
}

/// A [`Reading`] over sequences.
pub struct ReadingView {
    pub bucket: Seq<char>,
    pub stage: ReadingStage,
}

impl View for Reading {
    type V = ReadingView;

    closed spec fn view(&self) -> ReadingView {
        ReadingView {
            bucket: self.bucket@,
            stage: match self.stage {
                Stage::Opening(opening) => ReadingStage::Opening(opening),
                Stage::Fetch => ReadingStage::Fetch,
                Stage::Decode(entry) => ReadingStage::Decode(entry@),
                Stage::Done(result) => ReadingStage::Done(read_result_view(result)),
            },
        }
    }
}

impl ReadingView {
    /// The read of the state in `bucket`, before any request.
    pub open spec fn begin(bucket: Seq<char>) -> Self {
        ReadingView { bucket, stage: ReadingStage::Opening(Opening::LookUp) }
    }

    /// How the read ended, and `None` while it is not over.
    pub open spec fn result(self) -> Option<ReadResultView> {
        match self.stage {
            ReadingStage::Done(result) => Some(result),
            _ => None,
        }
    }

    /// The stage after `reply`. A reply that does not answer the outstanding request changes
    /// nothing.
    pub open spec fn next_stage(self, reply: ReplyView) -> ReadingStage {
        match (self.stage, reply) {
            (ReadingStage::Opening(opening), _) => match opening.spec_next(reply) {
                OpenedView::Pending(opening) => ReadingStage::Opening(opening),
                OpenedView::Open => ReadingStage::Fetch,
                OpenedView::Failed(e) => ReadingStage::Done(Err(e)),
            },
            (ReadingStage::Fetch, ReplyView::Fetched(Ok(Some(entry)))) => if entry.is_tombstone() {
                ReadingStage::Done(Err(StorageErrorView::not_transferred(empty_value_refusal())))
            } else {
                ReadingStage::Decode(entry)
            },
            (ReadingStage::Fetch, ReplyView::Fetched(Ok(None))) => ReadingStage::Done(
                Err(StorageErrorView::no_state(self.bucket)),
            ),
            (ReadingStage::Fetch, ReplyView::Fetched(Err(cause))) => ReadingStage::Done(
                Err(StorageErrorView::not_transferred(cause)),
            ),
            (ReadingStage::Decode(entry), ReplyView::Decoded(Ok(state))) => ReadingStage::Done(
                Ok(WithStateMetadata { revision: Some(entry.revision), state }),
            ),
            (ReadingStage::Decode(_), ReplyView::Decoded(Err(e))) => ReadingStage::Done(Err(e)),
            (stage, _) => stage,
        }
    }
}

impl Operation for ReadingView {
    open spec fn request(self) -> Option<RequestView> {
        match self.stage {
            ReadingStage::Opening(opening) => Some(opening.spec_request(self.bucket)),
            ReadingStage::Fetch => Some(
                RequestView::FetchEntry { bucket: self.bucket, key: LATTICE_BUCKET_STATE_KEY@ },
            ),
            ReadingStage::Decode(entry) => Some(RequestView::Decode { value: entry.value }),
            ReadingStage::Done(_) => None,
        }
    }

    open spec fn next(self, reply: ReplyView) -> Self {
        ReadingView { bucket: self.bucket, stage: self.next_stage(reply) }
    }
}

impl Reading {
    /// Begins the read of the state in `bucket`
    pub(crate) fn begin(bucket: String) -> (reading: Reading)
        ensures
            reading@ == ReadingView::begin(bucket@),
    {
        Reading { bucket, stage: Stage::Opening(Opening::LookUp) }
    }

    /// What the read asks for, and `None` when it is over
    pub fn request(&self) -> (request: Option<Request<'_>>)
        ensures
            request_view(request) == self@.request(),
            match request {
                Some(Request::LookUpBucket { bucket }) => bucket@ == self@.bucket,
                Some(Request::CreateBucket { bucket, history }) => bucket@ == self@.bucket
                    && history == 10,
                Some(Request::FetchEntry { bucket, key }) => bucket@ == self@.bucket && key@
                    == "state"@,
                Some(Request::Decode { value }) => self@.stage matches ReadingStage::Decode(entry)
                    && value@ == entry.value,
                Some(_) => false,
                None => self@.stage is Done,
            },
    {
        let bucket: &str = self.bucket.as_str();
        match &self.stage {
            Stage::Opening(opening) => Some(opening.request(bucket)),
            Stage::Fetch => Some(Request::FetchEntry { bucket, key: LATTICE_BUCKET_STATE_KEY }),
            Stage::Decode(entry) => Some(Request::Decode { value: &entry.value }),
            Stage::Done(_) => None,
        }
    }

    /// The read after the reply to its request
    pub fn next(self, reply: Reply) -> (reading: Reading)
        ensures
            reading@ == self@.next(reply@),
    {
        let Reading { bucket, stage } = self;
        let stage = match (stage, reply) {
            (Stage::Opening(opening), reply) => match opening.next(&reply) {
                Opened::Pending(opening) => Stage::Opening(opening),
                Opened::Open => Stage::Fetch,
                Opened::Failed(e) => Stage::Done(Err(e)),
            },
            (Stage::Fetch, Reply::Fetched(Ok(Some(entry)))) => Self::after_entry(entry),
            (Stage::Fetch, Reply::Fetched(Ok(None))) => Stage::Done(
                Err(StorageError::from_missing_state(bucket.as_str())),
            ),
            (Stage::Fetch, Reply::Fetched(Err(cause))) => Stage::Done(
                Err(StorageError::from_transfer(cause.as_str())),
            ),
            (Stage::Decode(entry), Reply::Decoded(Ok(state))) => Stage::Done(
                Ok(WithStateMetadata { revision: Some(entry.revision), state }),
            ),
            (Stage::Decode(_), Reply::Decoded(Err(e))) => Stage::Done(Err(e)),
            (stage, _) => stage,
        };
        Reading { bucket, stage }
    }

    /// The stage after the entry was fetched
    fn after_entry(entry: Entry) -> (stage: Stage)
        ensures
            if entry@.is_tombstone() {
                stage matches Stage::Done(Err(e)) && e@ == StorageErrorView::not_transferred(
                    empty_value_refusal(),
                )
            } else {
                stage == Stage::Decode(entry)
            },
    {
        if entry.deleted && entry.value.len() == 0 {
            if let Err(e) = decode_empty_value(entry.value.as_slice()) {
                return Stage::Done(Err(StorageError::from(e)));
            }
        }
        Stage::Decode(entry)
    }

    /// How the read ended, and `None` while it is not over
    pub fn into_result(self) -> (result: Option<ReadResult>)
        ensures
            match result {
                Some(result) => self@.result() == Some(read_result_view(result)),
                None => self@.result() is None,
            },
            match result {
                Some(Ok(found)) => self@.stage == ReadingStage::Done(Ok(found)),
                Some(Err(e)) => self@.stage == ReadingStage::Done(Err(e@)),
                None => !(self@.stage is Done),
            },
    {
        match self.stage {
            Stage::Done(result) => Some(result),
            _ => None,
        }
    }
}

} // verus!
