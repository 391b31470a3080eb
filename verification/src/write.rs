//! Writing the state of a lattice.
use crate::bucket::{Opened, OpenedView, Opening};
use crate::error::{StorageError, StorageErrorView};
use crate::operation::Operation;
use crate::service::{
    request_view, Reply, ReplyView, Request, RequestView, LATTICE_BUCKET_STATE_KEY,
};
use crate::state::LatticeState;
use crate::store::{StoreOptions, WithStateMetadata};
use vstd::prelude::*;

verus! {

/// How a write ends: with the identifier of the lattice and the revision of the stored state
pub type WriteResult = Result<WithStateMetadata<String>, StorageError>;

/// A [`WriteResult`] over sequences.
pub type WriteResultView = Result<WithStateMetadata<Seq<char>>, StorageErrorView>;

/// The view of how a write ended.
pub open spec fn write_result_view(result: WriteResult) -> WriteResultView {
    match result {
        Ok(stored) => Ok(WithStateMetadata { revision: stored.revision, state: stored.state@ }),
        Err(e) => Err(e@),
    }
}

/// How far a write has come
#[derive(Debug)]
enum Stage {
    Opening(Opening),
    Encode,
    Store(Vec<u8>),
    Done(WriteResult),
}

/// How far a write has come.
pub enum WritingStage {
    /// The bucket is being opened.
    Opening(Opening),
    /// The state is being encoded.
    Encode,
    /// The encoded state is being stored.
    Store(Seq<u8>),
    /// The write is over.
    Done(WriteResultView),
}

/// A write of the state of one lattice
///
/// The write opens the bucket of the lattice, has the state encoded and stores it under a single
/// key, as only a single key is stored atomically. Where a revision is expected the state is
/// stored only if that revision is the last one.
#[derive(Debug)]
pub struct Writing<'a> {
    obj: &'a LatticeState,
    id: String,
    bucket: String,
    expected: Option<u64>,
    stage: Stage,
}

/// A [`Writing`] over sequences.
pub struct WritingView {
    pub obj: LatticeState,
    pub id: Seq<char>,
    pub bucket: Seq<char>,
    pub expected: Option<u64>,
    pub stage: WritingStage,
}

impl<'a> View for Writing<'a> {
    type V = WritingView;

    closed spec fn view(&self) -> WritingView {
        WritingView {
            obj: *self.obj,
            id: self.id@,
            bucket: self.bucket@,
            expected: self.expected,
            stage: match self.stage {
                Stage::Opening(opening) => WritingStage::Opening(opening),
                Stage::Encode => WritingStage::Encode,
                Stage::Store(value) => WritingStage::Store(value@),
                Stage::Done(result) => WritingStage::Done(write_result_view(result)),
            },
        }
    }
}

impl WritingView {
    /// The write of `obj` as the state of the lattice `id` in `bucket`, before any request.
    pub open spec fn begin(
        obj: LatticeState,
        id: Seq<char>,
        bucket: Seq<char>,
        expected: Option<u64>,
    ) -> Self {
        WritingView {
            obj,
            id,
            bucket,
            expected,
            stage: WritingStage::Opening(Opening::LookUp),
        }
    }

    /// How the write ended, and `None` while it is not over.
    pub open spec fn result(self) -> Option<WriteResultView> {
        match self.stage {
            WritingStage::Done(result) => Some(result),
            _ => None,
        }
    }

    /// The stage after `reply`. A reply that does not answer the outstanding request changes
    /// nothing.
    pub open spec fn next_stage(self, reply: ReplyView) -> WritingStage {
        match (self.stage, reply) {
            (WritingStage::Opening(opening), _) => match opening.spec_next(reply) {
                OpenedView::Pending(opening) => WritingStage::Opening(opening),
                OpenedView::Open => WritingStage::Encode,
                OpenedView::Failed(e) => WritingStage::Done(Err(e)),
            },
            (WritingStage::Encode, ReplyView::Encoded(Ok(value))) => WritingStage::Store(value),
            (WritingStage::Encode, ReplyView::Encoded(Err(e))) => WritingStage::Done(Err(e)),
            (WritingStage::Store(_), ReplyView::Stored(Ok(revision))) => WritingStage::Done(
                Ok(WithStateMetadata { revision: Some(revision), state: self.id }),
            ),
            (WritingStage::Store(_), ReplyView::Stored(Err(cause))) => WritingStage::Done(
                Err(StorageErrorView::not_transferred(cause)),
            ),
            (stage, _) => stage,
        }
    }
}

impl Operation for WritingView {
    open spec fn request(self) -> Option<RequestView> {
        let key = LATTICE_BUCKET_STATE_KEY@;
        match (self.stage, self.expected) {
            (WritingStage::Opening(opening), _) => Some(opening.spec_request(self.bucket)),
            (WritingStage::Encode, _) => Some(RequestView::Encode { state: self.obj }),
            (WritingStage::Store(value), Some(revision)) => Some(
                RequestView::Update { bucket: self.bucket, key, value, revision },
            ),
            (WritingStage::Store(value), None) => Some(
                RequestView::Put { bucket: self.bucket, key, value },
            ),
            (WritingStage::Done(_), _) => None,
        }
    }

    open spec fn next(self, reply: ReplyView) -> Self {
        WritingView { stage: self.next_stage(reply), ..self }
    }
}

impl<'a> Writing<'a> {
    /// Begins the write of `obj` as the state of the lattice `id` in `bucket`
    pub(crate) fn begin(
        obj: &'a LatticeState,
        id: String,
        bucket: String,
        opts: StoreOptions,
    ) -> (writing: Writing<'a>)
        ensures
            writing@ == WritingView::begin(*obj, id@, bucket@, opts.expected_revision()),
    {
        let expected: Option<u64> = opts.expected_revision();
        Writing { obj, id, bucket, expected, stage: Stage::Opening(Opening::LookUp) }
    }

    /// What the write asks for, and `None` when it is over
    pub fn request(&self) -> (request: Option<Request<'_>>)
        ensures
            request_view(request) == self@.request(),
            match request {
                Some(Request::LookUpBucket { bucket }) => bucket@ == self@.bucket,
                Some(Request::CreateBucket { bucket, history }) => bucket@ == self@.bucket
                    && history == 10,
                Some(Request::Encode { state }) => *state == self@.obj,
                Some(Request::Put { bucket, key, value }) => {
                    &&& bucket@ == self@.bucket
                    &&& key@ == "state"@
                    &&& self@.stage == WritingStage::Store(value@)
                    &&& self@.expected is None
                },
                Some(Request::Update { bucket, key, value, revision }) => {
                    &&& bucket@ == self@.bucket
                    &&& key@ == "state"@
                    &&& self@.stage == WritingStage::Store(value@)
                    &&& self@.expected == Some(revision)
                },
                Some(_) => false,
                None => self@.stage is Done,
            },
    {
        let bucket: &str = self.bucket.as_str();
        let key: &str = LATTICE_BUCKET_STATE_KEY;
        match (&self.stage, self.expected) {
            (Stage::Opening(opening), _) => Some(opening.request(bucket)),
            (Stage::Encode, _) => Some(Request::Encode { state: self.obj }),
            (Stage::Store(value), Some(revision)) => Some(
                Request::Update { bucket, key, value, revision },
            ),
            (Stage::Store(value), None) => Some(Request::Put { bucket, key, value }),
            (Stage::Done(_), _) => None,
        }
    }

    /// The write after the reply to its request
    pub fn next(self, reply: Reply) -> (writing: Writing<'a>)
        ensures
            writing@ == self@.next(reply@),
    {
        let Writing { obj, id, bucket, expected, stage } = self;
        let stage = match (stage, reply) {
            (Stage::Opening(opening), reply) => match opening.next(&reply) {
                Opened::Pending(opening) => Stage::Opening(opening),
                Opened::Open => Stage::Encode,
                Opened::Failed(e) => Stage::Done(Err(e)),
            },
            (Stage::Encode, Reply::Encoded(Ok(value))) => Stage::Store(value),
            (Stage::Encode, Reply::Encoded(Err(e))) => Stage::Done(Err(e)),
            (Stage::Store(_), Reply::Stored(Ok(revision))) => Stage::Done(
                Ok(WithStateMetadata { revision: Some(revision), state: id.clone() }),
            ),
            (Stage::Store(_), Reply::Stored(Err(cause))) => Stage::Done(
                Err(StorageError::from_transfer(cause.as_str())),
            ),
            (stage, _) => stage,
        };
        Writing { obj, id, bucket, expected, stage }
    }

    /// How the write ended, and `None` while it is not over
    pub fn into_result(self) -> (result: Option<WriteResult>)
        ensures
            match result {
                Some(result) => self@.result() == Some(write_result_view(result)),
                None => self@.result() is None,
            },
            match result {
                Some(Ok(stored)) => self@.stage == WritingStage::Done(
                    Ok(WithStateMetadata { revision: stored.revision, state: stored.state@ }),
                ),
                Some(Err(e)) => self@.stage == WritingStage::Done(Err(e@)),
                None => !(self@.stage is Done),
            },
    {
        match self.stage {
            Stage::Done(result) => Some(result),
            _ => None,
        }
    }
}

} // verus!
