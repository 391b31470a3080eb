//! Names of lattice buckets, and how a bucket is opened.
use crate::error::{StorageError, StorageErrorView};
use crate::service::{Reply, ReplyView, Request, RequestView, LATTICE_BUCKET_HISTORY};
use vstd::prelude::*;

verus! {

/// The name of the bucket that holds the state of the lattice `id`: `lattice_`, the identifier,
/// and before them the prefix and an underscore where there is a prefix.
pub open spec fn lattice_bucket_name(prefix: Option<Seq<char>>, id: Seq<char>) -> Seq<char> {
    match prefix {
        None => "lattice_"@ + id,
        Some(prefix) => prefix + "_"@ + ("lattice_"@ + id),
    }
}

/// How far the opening of a bucket has come
#[derive(Debug, Clone, Copy, PartialEq, Eq, Structural)]
pub enum Opening {
    /// The bucket is being looked up
    LookUp,
    /// The bucket was not found and is being created
    Create,
}

/// What becomes of an opening after a reply
#[derive(Debug)]
pub enum Opened {
    /// It goes on
    Pending(Opening),
    /// The bucket is open
    Open,
    /// The bucket cannot be opened
    Failed(StorageError),
}

/// An [`Opened`] with its error taken by its view.
pub enum OpenedView {
    Pending(Opening),
    Open,
    Failed(StorageErrorView),
}

impl View for Opened {
    type V = OpenedView;

    open spec fn view(&self) -> OpenedView {
        match *self {
            Opened::Pending(opening) => OpenedView::Pending(opening),
            Opened::Open => OpenedView::Open,
            Opened::Failed(e) => OpenedView::Failed(e@),
        }
    }
}

impl Opening {
    /// What the opening of `bucket` asks for.
    pub open spec fn spec_request(self, bucket: Seq<char>) -> RequestView {
        match self {
            Opening::LookUp => RequestView::LookUpBucket { bucket },
            Opening::Create => RequestView::CreateBucket {
                bucket,
                history: LATTICE_BUCKET_HISTORY as int,
            },
        }
    }

    /// What becomes of the opening after `reply`: a bucket that is found is used, one that is not
    /// found is created. A reply that does not answer the outstanding request changes nothing.
    pub open spec fn spec_next(self, reply: ReplyView) -> OpenedView {
        match (self, reply) {
            (Opening::LookUp, ReplyView::LookedUp { found: true }) => OpenedView::Open,
            (Opening::LookUp, ReplyView::LookedUp { found: false }) => OpenedView::Pending(
                Opening::Create,
            ),
            (Opening::Create, ReplyView::Created(Ok(()))) => OpenedView::Open,
            (Opening::Create, ReplyView::Created(Err(cause))) => OpenedView::Failed(
                StorageErrorView::bucket_not_created(cause),
            ),
            _ => OpenedView::Pending(self),
        }
    }

    /// What the opening of `bucket` asks for
    pub fn request<'a>(self, bucket: &'a str) -> (request: Request<'a>)
        ensures
            request@ == self.spec_request(bucket@),
            match self {
                Opening::LookUp => request matches Request::LookUpBucket { bucket: name } && name@
                    == bucket@,
                Opening::Create => {
                    &&& request matches Request::CreateBucket { bucket: name, history }
                    &&& name@ == bucket@
                    &&& history == 10
                },
            },
    {
        match self {
            Opening::LookUp => Request::LookUpBucket { bucket },
            Opening::Create => Request::CreateBucket { bucket, history: LATTICE_BUCKET_HISTORY },
        }
    }

    /// What becomes of the opening after a reply
    pub fn next(self, reply: &Reply) -> (opened: Opened)
        ensures
            opened@ == self.spec_next(reply@),
    {
        match (self, reply) {
            (Opening::LookUp, Reply::LookedUp { found }) => if *found {
                Opened::Open
            } else {
                Opened::Pending(Opening::Create)
            },
            (Opening::Create, Reply::Created(Ok(()))) => Opened::Open,
            (Opening::Create, Reply::Created(Err(cause))) => Opened::Failed(
                StorageError::from_create_bucket(cause.as_str()),
            ),
            _ => Opened::Pending(self),
        }
    }
}

} // verus!
