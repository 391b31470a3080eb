//! What a read, a write and a deletion do from their beginning to their end.
//!
//! The laws follow an operation on any bucket through the replies that it can get, and speak of
//! what it asks for and of how it ends.
use crate::delete::DeletingView;
use crate::error::StorageErrorView;
use crate::operation::Operation;
use crate::read::ReadingView;
use crate::service::{EntryView, ReplyView, RequestView};
use crate::state::LatticeState;
use crate::store::{StoreOptions, WithStateMetadata};
use crate::write::WritingView;
use vstd::prelude::*;

verus! {

/// An operation looks its bucket up before anything else.
pub proof fn law_operations_begin_with_the_bucket(
    obj: LatticeState,
    id: Seq<char>,
    bucket: Seq<char>,
    expected: Option<u64>,
)
    ensures
        ({
            let request = Some(RequestView::LookUpBucket { bucket });
            &&& ReadingView::begin(bucket).request() == request
            &&& WritingView::begin(obj, id, bucket, expected).request() == request
            &&& DeletingView::begin(bucket).request() == request
        }),
{
}

/// A bucket that is not found is created with room for ten values of each key. After that an
/// operation goes on as if the bucket had been found.
pub proof fn law_created_bucket_is_as_good_as_a_found_one(
    obj: LatticeState,
    id: Seq<char>,
    bucket: Seq<char>,
    expected: Option<u64>,
)
    ensures
        ({
            let found = ReplyView::LookedUp { found: true };
            let missing = ReplyView::LookedUp { found: false };
            let created = ReplyView::Created(Ok(()));
            let creation = Some(RequestView::CreateBucket { bucket, history: 10 });
            let reading = ReadingView::begin(bucket);
            let writing = WritingView::begin(obj, id, bucket, expected);
            let deleting = DeletingView::begin(bucket);
            &&& reading.next(missing).request() == creation
            &&& reading.next(missing).next(created) == reading.next(found)
            &&& writing.next(missing).request() == creation
            &&& writing.next(missing).next(created) == writing.next(found)
            &&& deleting.next(missing).request() == creation
            &&& deleting.next(missing).next(created) == deleting.next(found)
        }),
{
}

/// Where a missing bucket cannot be created, an operation is over, and its error holds the cause.
pub proof fn law_uncreated_bucket_is_reported(
    obj: LatticeState,
    id: Seq<char>,
    bucket: Seq<char>,
    expected: Option<u64>,
    cause: Seq<char>,
)
    ensures
        ({
            let missing = ReplyView::LookedUp { found: false };
            let refused = ReplyView::Created(Err(cause));
            let e = StorageErrorView::Engine("failed to create jetstream kv: "@ + cause);
            let reading = ReadingView::begin(bucket).next(missing).next(refused);
            let writing = WritingView::begin(obj, id, bucket, expected).next(missing).next(refused);
            let deleting = DeletingView::begin(bucket).next(missing).next(refused);
            &&& reading.request() is None
            &&& reading.result() == Some(Err::<WithStateMetadata<LatticeState>, _>(e))
            &&& writing.request() is None
            &&& writing.result() == Some(Err::<WithStateMetadata<Seq<char>>, _>(e))
            &&& deleting.request() is None
            &&& deleting.result() == Some(Err::<(), _>(e))
        }),
{
}

/// A read of an open bucket fetches the entry under `state`, has its whole value decoded, and ends
/// with the decoded state under the revision of the entry. What a deletion left has no value to
/// decode. Each failure is reported with its cause.
pub proof fn law_course_of_a_read(
    bucket: Seq<char>,
    entry: EntryView,
    state: LatticeState,
    cause: Seq<char>,
    e: StorageErrorView,
)
    ensures
        ({
            let open = ReadingView::begin(bucket).next(ReplyView::LookedUp { found: true });
            let fetched = open.next(ReplyView::Fetched(Ok(Some(entry))));
            let transfer = "de/serialization error occurred: "@;
            &&& open.request() == Some(RequestView::FetchEntry { bucket, key: "state"@ })
            &&& open.next(ReplyView::Fetched(Ok(None))).result() == Some(
                Err::<WithStateMetadata<LatticeState>, _>(
                    StorageErrorView::Engine("No lattice state in bucket ["@ + bucket + "]"@),
                ),
            )
            &&& open.next(ReplyView::Fetched(Err(cause))).result() == Some(
                Err::<WithStateMetadata<LatticeState>, _>(
                    StorageErrorView::Unknown(transfer + cause),
                ),
            )
            &&& if entry.deleted && entry.value.len() == 0 {
                fetched.result() == Some(
                    Err::<WithStateMetadata<LatticeState>, _>(
                        StorageErrorView::Unknown(
                            transfer + "EOF while parsing a value at line 1 column 0"@,
                        ),
                    ),
                )
            } else {
                &&& fetched.request() == Some(RequestView::Decode { value: entry.value })
                &&& fetched.next(ReplyView::Decoded(Ok(state))).result() == Some(
                    Ok::<_, StorageErrorView>(
                        (WithStateMetadata { revision: Some(entry.revision), state }),
                    ),
                )
                &&& fetched.next(ReplyView::Decoded(Err(e))).result() == Some(
                    Err::<WithStateMetadata<LatticeState>, _>(e),
                )
            }
        }),
{
}

/// A write to an open bucket has its state encoded and stores the whole encoding under `state`: by
/// comparing with the given revision where compare-and-set is required and a revision is given,
/// and whatever is there otherwise. It ends with the identifier that it was given and the revision
/// that the service answered. Each failure is reported with its cause.
pub proof fn law_course_of_a_write(
    obj: LatticeState,
    id: Seq<char>,
    bucket: Seq<char>,
    opts: StoreOptions,
    value: Seq<u8>,
    stored: u64,
    cause: Seq<char>,
    e: StorageErrorView,
)
    ensures
        ({
            let key = "state"@;
            let open = WritingView::begin(obj, id, bucket, opts.expected_revision()).next(
                ReplyView::LookedUp { found: true },
            );
            let encoded = open.next(ReplyView::Encoded(Ok(value)));
            &&& open.request() == Some(RequestView::Encode { state: obj })
            &&& open.next(ReplyView::Encoded(Err(e))).result() == Some(
                Err::<WithStateMetadata<Seq<char>>, _>(e),
            )
            &&& opts.require_cas && opts.revision is Some ==> encoded.request() == Some(
                RequestView::Update { bucket, key, value, revision: opts.revision->0 },
            )
            &&& !opts.require_cas || opts.revision is None ==> encoded.request() == Some(
                RequestView::Put { bucket, key, value },
            )
            &&& encoded.next(ReplyView::Stored(Ok(stored))).result() == Some(
                Ok::<_, StorageErrorView>(
                    (WithStateMetadata { revision: Some(stored), state: id }),
                ),
            )
            &&& encoded.next(ReplyView::Stored(Err(cause))).result() == Some(
                Err::<WithStateMetadata<Seq<char>>, _>(
                    StorageErrorView::Unknown("de/serialization error occurred: "@ + cause),
                ),
            )
        }),
{
}

/// A deletion in an open bucket deletes what is under `state`, and ends well exactly if the service
/// did. A failure is reported with its cause.
pub proof fn law_course_of_a_deletion(bucket: Seq<char>, cause: Seq<char>)
    ensures
        ({
            let open = DeletingView::begin(bucket).next(ReplyView::LookedUp { found: true });
            &&& open.request() == Some(RequestView::Delete { bucket, key: "state"@ })
            &&& open.next(ReplyView::Deleted(Ok(()))).result() == Some(
                Ok::<(), StorageErrorView>(()),
            )
            &&& open.next(ReplyView::Deleted(Err(cause))).result() == Some(
                Err::<(), _>(
                    StorageErrorView::Engine("failed to delete lattice state: "@ + cause),
                ),
            )
        }),
{
}

} // verus!
