//! Deleting the state of a lattice.
use crate::bucket::{Opened, OpenedView, Opening};
use crate::error::{StorageError, StorageErrorView};
use crate::operation::Operation;
use crate::service::{
    request_view, Reply, ReplyView, Request, RequestView, LATTICE_BUCKET_STATE_KEY,
};
use vstd::prelude::*;

verus! {

/// How a deletion ends
pub type DeleteResult = Result<(), StorageError>;

/// A [`DeleteResult`] with its error taken by its view.
pub type DeleteResultView = Result<(), StorageErrorView>;

/// The view of how a deletion ended.
pub open spec fn delete_result_view(result: DeleteResult) -> DeleteResultView {
    match result {
        Ok(()) => Ok(()),
        Err(e) => Err(e@),
    }
}

/// How far a deletion has come
#[derive(Debug)]
enum Stage {
    Opening(Opening),
    Delete,
    Done(DeleteResult),
}

/// How far a deletion has come.
pub enum DeletingStage {
    /// The bucket is being opened.
    Opening(Opening),
    /// The entry with the state is being deleted.
    Delete,
    /// The deletion is over.
    Done(DeleteResultView),
}

/// A deletion of the state of one lattice
///
/// The deletion opens the bucket of the lattice and deletes the entry with the state.
#[derive(Debug)]
pub struct Deleting {
    bucket: String,
    stage: Stage,
}

/// A [`Deleting`] over sequences.
pub struct DeletingView {
    pub bucket: Seq<char>,
    pub stage: DeletingStage,
}

impl View for Deleting {
    type V = DeletingView;

    closed spec fn view(&self) -> DeletingView {
        DeletingView {
            bucket: self.bucket@,
            stage: match self.stage {
                Stage::Opening(opening) => DeletingStage::Opening(opening),
                Stage::Delete => DeletingStage::Delete,
                Stage::Done(result) => DeletingStage::Done(delete_result_view(result)),
            },
        }
    }
}

impl DeletingView {
    /// The deletion of the state in `bucket`, before any request.
    pub open spec fn begin(bucket: Seq<char>) -> Self {
        DeletingView { bucket, stage: DeletingStage::Opening(Opening::LookUp) }
    }

    /// How the deletion ended, and `None` while it is not over.
    pub open spec fn result(self) -> Option<DeleteResultView> {
        match self.stage {
            DeletingStage::Done(result) => Some(result),
            _ => None,
        }
    }

    /// The stage after `reply`. A reply that does not answer the outstanding request changes
    /// nothing.
    pub open spec fn next_stage(self, reply: ReplyView) -> DeletingStage {
        match (self.stage, reply) {
            (DeletingStage::Opening(opening), _) => match opening.spec_next(reply) {
                OpenedView::Pending(opening) => DeletingStage::Opening(opening),
                OpenedView::Open => DeletingStage::Delete,
                OpenedView::Failed(e) => DeletingStage::Done(Err(e)),
            },
            (DeletingStage::Delete, ReplyView::Deleted(Ok(()))) => DeletingStage::Done(Ok(())),
            (DeletingStage::Delete, ReplyView::Deleted(Err(cause))) => DeletingStage::Done(
                Err(StorageErrorView::not_deleted(cause)),
            ),
            (stage, _) => stage,
        }
    }
}

impl Operation for DeletingView {
    open spec fn request(self) -> Option<RequestView> {
        match self.stage {
            DeletingStage::Opening(opening) => Some(opening.spec_request(self.bucket)),
            DeletingStage::Delete => Some(
                RequestView::Delete { bucket: self.bucket, key: LATTICE_BUCKET_STATE_KEY@ },
            ),
            DeletingStage::Done(_) => None,
        }
    }

    open spec fn next(self, reply: ReplyView) -> Self {
        DeletingView { bucket: self.bucket, stage: self.next_stage(reply) }
    }
}

impl Deleting {
    /// Begins the deletion of the state in `bucket`
    pub(crate) fn begin(bucket: String) -> (deleting: Deleting)
        ensures
            deleting@ == DeletingView::begin(bucket@),
    {
        Deleting { bucket, stage: Stage::Opening(Opening::LookUp) }
    }

    /// What the deletion asks for, and `None` when it is over
    pub fn request(&self) -> (request: Option<Request<'_>>)
        ensures
            request_view(request) == self@.request(),
            match request {
                Some(Request::LookUpBucket { bucket }) => bucket@ == self@.bucket,
                Some(Request::CreateBucket { bucket, history }) => bucket@ == self@.bucket
                    && history == 10,
                Some(Request::Delete { bucket, key }) => bucket@ == self@.bucket && key@
                    == "state"@,
                Some(_) => false,
                None => self@.stage is Done,
            },
    {
        let bucket: &str = self.bucket.as_str();
        match &self.stage {
            Stage::Opening(opening) => Some(opening.request(bucket)),
            Stage::Delete => Some(Request::Delete { bucket, key: LATTICE_BUCKET_STATE_KEY }),
            Stage::Done(_) => None,
        }
    }

    /// The deletion after the reply to its request
    pub fn next(self, reply: Reply) -> (deleting: Deleting)
        ensures
            deleting@ == self@.next(reply@),
    {
        let Deleting { bucket, stage } = self;
        let stage = match (stage, reply) {
            (Stage::Opening(opening), reply) => match opening.next(&reply) {
                Opened::Pending(opening) => Stage::Opening(opening),
                Opened::Open => Stage::Delete,
                Opened::Failed(e) => Stage::Done(Err(e)),
            },
            (Stage::Delete, Reply::Deleted(Ok(()))) => Stage::Done(Ok(())),
            (Stage::Delete, Reply::Deleted(Err(cause))) => Stage::Done(
                Err(StorageError::from_delete(cause.as_str())),
            ),
            (stage, _) => stage,
        };
        Deleting { bucket, stage }
    }

    /// How the deletion ended, and `None` while it is not over
    pub fn into_result(self) -> (result: Option<DeleteResult>)
        ensures
            match result {
                Some(result) => self@.result() == Some(delete_result_view(result)),
                None => self@.result() is None,
            },
            match result {
                Some(Ok(())) => self@.stage == DeletingStage::Done(Ok(())),
                Some(Err(e)) => self@.stage == DeletingStage::Done(Err(e@)),
                None => !(self@.stage is Done),
            },
    {
        match self.stage {
            Stage::Done(result) => Some(result),
            _ => None,
        }
    }
}

} // verus!
