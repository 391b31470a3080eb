//! What all storage operations have in common.
use crate::service::{ReplyView, RequestView};
use vstd::prelude::*;

verus! {

/// A storage operation: it names its outstanding request and takes the reply to it.
pub trait Operation: Sized {
    /// What the operation asks for, and `None` when it is over.
    spec fn request(self) -> Option<RequestView>;

    /// The operation after `reply`. A reply that does not answer the outstanding request changes
    /// nothing.
    spec fn next(self, reply: ReplyView) -> Self;
}

/// The operation after all of `replies`.
pub open spec fn after<O: Operation>(op: O, replies: Seq<ReplyView>) -> O
    decreases replies.len(),
{
    if replies.len() == 0 {
        op
    } else {
        after(op, replies.drop_last()).next(replies.last())
    }
}

/// Each of `replies` answers the request that is outstanding when it comes, as long as there is
/// one.
pub open spec fn answered_by<O: Operation>(op: O, replies: Seq<ReplyView>) -> bool
    decreases replies.len(),
{
    replies.len() == 0 || {
        let request = after(op, replies.drop_last()).request();
        &&& answered_by(op, replies.drop_last())
        &&& request is Some ==> replies.last().answers(request->0)
    }
}

} // verus!
