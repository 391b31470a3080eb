//! What holds of the storage engine as a whole.
use crate::auth::{is_jwt_login, JwtCredentialsView};
use crate::bucket::{lattice_bucket_name, Opening};
use crate::config::NatsKvStorageConfig;
use crate::connect::{ConnectReplyView, ConnectingView};
use crate::delete::{DeletingStage, DeletingView};
use crate::error::{StorageEngineErrorView, StorageErrorView};
use crate::operation::{after, answered_by, Operation};
use crate::outside::{empty_value_refusal, from_some_seed, nkeys_key_pair};
use crate::read::{ReadingStage, ReadingView};
use crate::service::{EntryView, ReplyView, RequestView, LATTICE_BUCKET_STATE_KEY};
use crate::state::LatticeState;
use crate::store::{StoreOptions, WithStateMetadata};
use crate::write::{WritingStage, WritingView};
use vstd::prelude::*;

verus! {

/// An engine keeps the states of different lattices in different buckets.
pub proof fn law_lattices_have_their_own_buckets(
    prefix: Option<Seq<char>>,
    id1: Seq<char>,
    id2: Seq<char>,
)
    requires
        id1 != id2,
    ensures
        lattice_bucket_name(prefix, id1) != lattice_bucket_name(prefix, id2),
{
    let before = lattice_bucket_name(prefix, Seq::empty());
    let n = before.len() as int;
    assert(lattice_bucket_name(prefix, id1) =~= before + id1);
    assert(lattice_bucket_name(prefix, id2) =~= before + id2);
    assert((before + id1).skip(n) =~= id1);
    assert((before + id2).skip(n) =~= id2);
}

/// Whatever it is answered, a read sends its requests to its own bucket and asks there for the
/// state and for nothing else.
pub proof fn law_read_stays_in_its_bucket(bucket: Seq<char>, replies: Seq<ReplyView>)
    ensures
        ({
            let request = after(ReadingView::begin(bucket), replies).request();
            &&& request is Some && request->0.bucket() is Some ==> request->0.bucket() == Some(
                bucket,
            )
            &&& request is Some && request->0.key() is Some ==> request->0.key() == Some(
                LATTICE_BUCKET_STATE_KEY@,
            )
            &&& request is Some ==> !(request->0 is Put || request->0 is Update || request->0
                is Delete)
        }),
{
    lemma_reading_keeps_bucket(ReadingView::begin(bucket), replies);
}

proof fn lemma_reading_keeps_bucket(reading: ReadingView, replies: Seq<ReplyView>)
    ensures
        after(reading, replies).bucket == reading.bucket,
    decreases replies.len(),
{
    if replies.len() > 0 {
        lemma_reading_keeps_bucket(reading, replies.drop_last());
    }
}

/// Whatever it is answered, a write sends its requests to its own bucket, stores the state there
/// and touches nothing else, and what it has encoded is the state that it was given.
pub proof fn law_write_stays_in_its_bucket(
    obj: LatticeState,
    id: Seq<char>,
    bucket: Seq<char>,
    expected: Option<u64>,
    replies: Seq<ReplyView>,
)
    ensures
        ({
            let request = after(WritingView::begin(obj, id, bucket, expected), replies).request();
            &&& request is Some && request->0.bucket() is Some ==> request->0.bucket() == Some(
                bucket,
            )
            &&& request is Some && request->0.key() is Some ==> request->0.key() == Some(
                LATTICE_BUCKET_STATE_KEY@,
            )
            &&& request is Some ==> !(request->0 is Delete)
            &&& request is Some && request->0 is Encode ==> request->0 == (RequestView::Encode {
                state: obj,
            })
        }),
{
    lemma_writing_keeps_target(WritingView::begin(obj, id, bucket, expected), replies);
}

proof fn lemma_writing_keeps_target(writing: WritingView, replies: Seq<ReplyView>)
    ensures
        ({
            let later = after(writing, replies);
            &&& later.obj == writing.obj
            &&& later.id == writing.id
            &&& later.bucket == writing.bucket
            &&& later.expected == writing.expected
        }),
    decreases replies.len(),
{
    if replies.len() > 0 {
        lemma_writing_keeps_target(writing, replies.drop_last());
    }
}

/// Whatever it is answered, a deletion sends its requests to its own bucket, and deletes there
/// the state and nothing else.
pub proof fn law_delete_stays_in_its_bucket(bucket: Seq<char>, replies: Seq<ReplyView>)
    ensures
        ({
            let request = after(DeletingView::begin(bucket), replies).request();
            &&& request is Some ==> request->0.bucket() == Some(bucket)
            &&& request is Some && request->0.key() is Some ==> request->0.key() == Some(
                LATTICE_BUCKET_STATE_KEY@,
            )
            &&& request is Some ==> !(request->0 is Put || request->0 is Update)
        }),
{
    lemma_deleting_keeps_bucket(DeletingView::begin(bucket), replies);
}

proof fn lemma_deleting_keeps_bucket(deleting: DeletingView, replies: Seq<ReplyView>)
    ensures
        after(deleting, replies).bucket == deleting.bucket,
    decreases replies.len(),
{
    if replies.len() > 0 {
        lemma_deleting_keeps_bucket(deleting, replies.drop_last());
    }
}

/// Where an engine works for two lattices, no request for the one goes to the bucket of the other,
/// whatever the operations on them are answered.
pub proof fn law_lattices_do_not_interfere(
    prefix: Option<Seq<char>>,
    obj: LatticeState,
    id: Seq<char>,
    expected: Option<u64>,
    replies: Seq<ReplyView>,
    other: Seq<char>,
)
    requires
        id != other,
    ensures
        ({
            let bucket = lattice_bucket_name(prefix, id);
            let elsewhere = Some(lattice_bucket_name(prefix, other));
            let reading = after(ReadingView::begin(bucket), replies).request();
            let writing = after(WritingView::begin(obj, id, bucket, expected), replies).request();
            let deleting = after(DeletingView::begin(bucket), replies).request();
            &&& reading is Some ==> reading->0.bucket() != elsewhere
            &&& writing is Some ==> writing->0.bucket() != elsewhere
            &&& deleting is Some ==> deleting->0.bucket() != elsewhere
        }),
{
    let bucket = lattice_bucket_name(prefix, id);
    law_lattices_have_their_own_buckets(prefix, id, other);
    law_read_stays_in_its_bucket(bucket, replies);
    law_write_stays_in_its_bucket(obj, id, bucket, expected, replies);
    law_delete_stays_in_its_bucket(bucket, replies);
}

/// A write compares before it sets exactly when its options ask for it and give a revision, and
/// then it compares with that revision. Otherwise it sets whatever is there.
pub proof fn law_write_compares_exactly_when_asked(
    obj: LatticeState,
    id: Seq<char>,
    bucket: Seq<char>,
    opts: StoreOptions,
    replies: Seq<ReplyView>,
)
    ensures
        ({
            let begin = WritingView::begin(obj, id, bucket, opts.expected_revision());
            let writing = after(begin, replies);
            writing.stage is Store ==> {
                let value = writing.stage->Store_0;
                let key = LATTICE_BUCKET_STATE_KEY@;
                if opts.require_cas && opts.revision is Some {
                    writing.request() == Some(
                        RequestView::Update { bucket, key, value, revision: opts.revision->0 },
                    )
                } else {
                    writing.request() == Some(RequestView::Put { bucket, key, value })
                }
            }
        }),
{
    lemma_writing_keeps_target(
        WritingView::begin(obj, id, bucket, opts.expected_revision()),
        replies,
    );
}

proof fn lemma_earlier_replies_are_kept(replies: Seq<ReplyView>)
    requires
        replies.len() > 0,
    ensures
        replies.contains(replies.last()),
        forall|reply: ReplyView|
            replies.drop_last().contains(reply) ==> #[trigger] replies.contains(reply),
{
    assert(replies[replies.len() - 1] == replies.last());
    assert forall|reply: ReplyView|
        replies.drop_last().contains(reply) implies #[trigger] replies.contains(reply) by {
        let i = choose|i: int|
            0 <= i < replies.drop_last().len() && replies.drop_last()[i] == reply;
        assert(replies[i] == reply);
    }
}

/// A write stores only what the encoding of its state gave.
pub proof fn law_write_stores_what_was_encoded(
    obj: LatticeState,
    id: Seq<char>,
    bucket: Seq<char>,
    expected: Option<u64>,
    replies: Seq<ReplyView>,
)
    ensures
        match after(WritingView::begin(obj, id, bucket, expected), replies).request() {
            Some(RequestView::Put { value, .. }) => replies.contains(
                ReplyView::Encoded(Ok(value)),
            ),
            Some(RequestView::Update { value, .. }) => replies.contains(
                ReplyView::Encoded(Ok(value)),
            ),
            _ => true,
        },
    decreases replies.len(),
{
    if replies.len() > 0 {
        law_write_stores_what_was_encoded(obj, id, bucket, expected, replies.drop_last());
        lemma_writing_keeps_target(
            WritingView::begin(obj, id, bucket, expected),
            replies.drop_last(),
        );
        lemma_earlier_replies_are_kept(replies);
    }
}

/// A write asks at most once to store: the answer to the request that stores ends it. So what a
/// write changes of the state, it changes with a single request on a single key.
pub proof fn law_write_stores_at_most_once(
    writing: WritingView,
    reply: ReplyView,
    replies: Seq<ReplyView>,
)
    requires
        writing.request() is Some,
        writing.request()->0 is Put || writing.request()->0 is Update,
        reply.answers(writing.request()->0),
    ensures
        writing.next(reply).request() is None,
        after(writing.next(reply), replies).request() is None,
    decreases replies.len(),
{
    if replies.len() > 0 {
        law_write_stores_at_most_once(writing, reply, replies.drop_last());
    }
}

/// A write that succeeds reports the identifier it was given and the revision that the service
/// stored the state under.
pub proof fn law_write_reports_its_revision(
    obj: LatticeState,
    id: Seq<char>,
    bucket: Seq<char>,
    expected: Option<u64>,
    replies: Seq<ReplyView>,
)
    ensures
        match after(WritingView::begin(obj, id, bucket, expected), replies).result() {
            Some(Ok(stored)) => stored.state == id && exists|revision: u64|
                stored.revision == Some(revision) && #[trigger] replies.contains(
                    ReplyView::Stored(Ok(revision)),
                ),
            _ => true,
        },
    decreases replies.len(),
{
    if replies.len() > 0 {
        law_write_reports_its_revision(obj, id, bucket, expected, replies.drop_last());
        lemma_writing_keeps_target(
            WritingView::begin(obj, id, bucket, expected),
            replies.drop_last(),
        );
        lemma_earlier_replies_are_kept(replies);
        let begin = WritingView::begin(obj, id, bucket, expected);
        if let Some(Ok(stored)) = after(begin, replies.drop_last()).result() {
            let revision = stored.revision->0;
            assert(replies.contains(ReplyView::Stored(Ok(revision))));
        }
        if let ReplyView::Stored(Ok(revision)) = replies.last() {
            assert(replies.contains(ReplyView::Stored(Ok(revision))));
        }
    }
}

/// A read that succeeds gives back a state that was decoded, with the revision of an entry that
/// the service held.
pub proof fn law_read_gives_back_what_is_stored(bucket: Seq<char>, replies: Seq<ReplyView>)
    ensures
        match after(ReadingView::begin(bucket), replies).result() {
            Some(Ok(found)) => replies.contains(ReplyView::Decoded(Ok(found.state))) && exists|
                entry: EntryView,
            |
                found.revision == Some(entry.revision) && #[trigger] replies.contains(
                    ReplyView::Fetched(Ok(Some(entry))),
                ),
            _ => true,
        },
{
    lemma_read_history(bucket, replies);
}

proof fn lemma_read_history(bucket: Seq<char>, replies: Seq<ReplyView>)
    ensures
        match after(ReadingView::begin(bucket), replies).stage {
            ReadingStage::Decode(entry) => replies.contains(ReplyView::Fetched(Ok(Some(entry)))),
            ReadingStage::Done(Ok(found)) => replies.contains(ReplyView::Decoded(Ok(found.state)))
                && exists|entry: EntryView|
                found.revision == Some(entry.revision) && #[trigger] replies.contains(
                    ReplyView::Fetched(Ok(Some(entry))),
                ),
            _ => true,
        },
    decreases replies.len(),
{
    if replies.len() > 0 {
        let earlier = replies.drop_last();
        lemma_read_history(bucket, earlier);
        lemma_earlier_replies_are_kept(replies);
        match after(ReadingView::begin(bucket), earlier).stage {
            ReadingStage::Decode(entry) => {
                assert(replies.contains(ReplyView::Fetched(Ok(Some(entry)))));
            },
            ReadingStage::Done(Ok(found)) => {
                let entry = choose|entry: EntryView|
                    found.revision == Some(entry.revision) && #[trigger] earlier.contains(
                        ReplyView::Fetched(Ok(Some(entry))),
                    );
                assert(replies.contains(ReplyView::Fetched(Ok(Some(entry)))));
            },
            _ => {},
        }
    }
}

/// The replies with which the service lets a bucket be opened that it has, or that it has not and
/// creates.
pub open spec fn opening_replies(found: bool) -> Seq<ReplyView> {
    if found {
        seq![ReplyView::LookedUp { found: true }]
    } else {
        seq![ReplyView::LookedUp { found: false }, ReplyView::Created(Ok(()))]
    }
}

proof fn lemma_read_opens(bucket: Seq<char>, found: bool)
    ensures
        after(ReadingView::begin(bucket), opening_replies(found)) == (ReadingView {
            bucket,
            stage: ReadingStage::Fetch,
        }),
{
    reveal_with_fuel(after::<ReadingView>, 3);
    if !found {
        assert(opening_replies(false).drop_last() =~= seq![ReplyView::LookedUp { found: false }]);
    }
}

proof fn lemma_write_opens(
    obj: LatticeState,
    id: Seq<char>,
    bucket: Seq<char>,
    expected: Option<u64>,
    found: bool,
)
    ensures
        after(WritingView::begin(obj, id, bucket, expected), opening_replies(found))
            == (WritingView { obj, id, bucket, expected, stage: WritingStage::Encode }),
{
    reveal_with_fuel(after::<WritingView>, 3);
    if !found {
        assert(opening_replies(false).drop_last() =~= seq![ReplyView::LookedUp { found: false }]);
    }
}

/// What a read gives back of a write.
///
/// The write has `obj` encoded and stores what that gives, `value`; the service answers with a
/// revision, which the write reports. A read of the same lattice asks the service for what is in
/// the same place. Where that is still what was stored, the read has `value` decoded, and gives
/// back the decoded state with the revision that the write reported. It does not matter whether
/// the bucket was there before.
pub proof fn law_read_gives_back_what_was_written(
    prefix: Option<Seq<char>>,
    obj: LatticeState,
    id: Seq<char>,
    expected: Option<u64>,
    found_by_write: bool,
    value: Seq<u8>,
    revision: u64,
    found_by_read: bool,
    decoded: LatticeState,
)
    ensures
        ({
            let bucket = lattice_bucket_name(prefix, id);
            let key = LATTICE_BUCKET_STATE_KEY@;
            let opened = after(
                WritingView::begin(obj, id, bucket, expected),
                opening_replies(found_by_write),
            );
            let encoded = opened.next(ReplyView::Encoded(Ok(value)));
            let stored = encoded.next(ReplyView::Stored(Ok(revision)));
            let ready = after(ReadingView::begin(bucket), opening_replies(found_by_read));
            let entry = EntryView { value, revision, deleted: false };
            let fetched = ready.next(ReplyView::Fetched(Ok(Some(entry))));
            let read = fetched.next(ReplyView::Decoded(Ok(decoded)));
            &&& opened.request() == Some(RequestView::Encode { state: obj })
            &&& encoded.request() == match expected {
                Some(revision) => Some(RequestView::Update { bucket, key, value, revision }),
                None => Some(RequestView::Put { bucket, key, value }),
            }
            &&& stored.result() == Some(
                Ok::<_, StorageErrorView>(
                    (WithStateMetadata { revision: Some(revision), state: id }),
                ),
            )
            &&& ready.request() == Some(RequestView::FetchEntry { bucket, key })
            &&& fetched.request() == Some(RequestView::Decode { value })
            &&& read.result() == Some(
                Ok::<_, StorageErrorView>(
                    (WithStateMetadata { revision: Some(revision), state: decoded }),
                ),
            )
        }),
{
    let bucket = lattice_bucket_name(prefix, id);
    lemma_write_opens(obj, id, bucket, expected, found_by_write);
    lemma_read_opens(bucket, found_by_read);
}

proof fn lemma_delete_opens(bucket: Seq<char>, found: bool)
    ensures
        after(DeletingView::begin(bucket), opening_replies(found)) == (DeletingView {
            bucket,
            stage: DeletingStage::Delete,
        }),
{
    reveal_with_fuel(after::<DeletingView>, 3);
    if !found {
        assert(opening_replies(false).drop_last() =~= seq![ReplyView::LookedUp { found: false }]);
    }
}

/// A deletion deletes what a write of the same lattice stores and a read of it asks for: all three
/// address the same key of the same bucket.
pub proof fn law_operations_share_one_place(
    prefix: Option<Seq<char>>,
    obj: LatticeState,
    id: Seq<char>,
    expected: Option<u64>,
    value: Seq<u8>,
    found: bool,
)
    ensures
        ({
            let bucket = lattice_bucket_name(prefix, id);
            let key = LATTICE_BUCKET_STATE_KEY@;
            let storing = after(
                WritingView::begin(obj, id, bucket, expected),
                opening_replies(found),
            ).next(ReplyView::Encoded(Ok(value))).request();
            let fetching = after(ReadingView::begin(bucket), opening_replies(found)).request();
            let removing = after(DeletingView::begin(bucket), opening_replies(found)).request();
            &&& storing is Some && storing->0.bucket() == Some(bucket) && storing->0.key() == Some(
                key,
            )
            &&& fetching == Some(RequestView::FetchEntry { bucket, key })
            &&& removing == Some(RequestView::Delete { bucket, key })
        }),
{
    let bucket = lattice_bucket_name(prefix, id);
    lemma_write_opens(obj, id, bucket, expected, found);
    lemma_read_opens(bucket, found);
    lemma_delete_opens(bucket, found);
}

/// What a refused request is answered: where the service refuses to fetch, store or delete, or
/// holds no state or only what a deletion left, and where a state cannot be encoded or decoded,
/// the operation ends with the error that says so.
pub proof fn law_refusals_are_reported(
    obj: LatticeState,
    id: Seq<char>,
    bucket: Seq<char>,
    expected: Option<u64>,
    value: Seq<u8>,
    entry: EntryView,
    found: bool,
    cause: Seq<char>,
    e: StorageErrorView,
)
    ensures
        ({
            let reading = after(ReadingView::begin(bucket), opening_replies(found));
            let fetched = reading.next(ReplyView::Fetched(Ok(Some(entry))));
            let opened = after(
                WritingView::begin(obj, id, bucket, expected),
                opening_replies(found),
            );
            let writing = opened.next(ReplyView::Encoded(Ok(value)));
            let deleting = after(DeletingView::begin(bucket), opening_replies(found));
            &&& reading.next(ReplyView::Fetched(Err(cause))).stage == ReadingStage::Done(
                Err(StorageErrorView::not_transferred(cause)),
            )
            &&& reading.next(ReplyView::Fetched(Ok(None))).stage == ReadingStage::Done(
                Err(StorageErrorView::no_state(bucket)),
            )
            &&& if entry.is_tombstone() {
                fetched.stage == ReadingStage::Done(
                    Err(StorageErrorView::not_transferred(empty_value_refusal())),
                )
            } else {
                fetched.next(ReplyView::Decoded(Err(e))).stage == ReadingStage::Done(Err(e))
            }
            &&& opened.next(ReplyView::Encoded(Err(e))).stage == WritingStage::Done(Err(e))
            &&& writing.next(ReplyView::Stored(Err(cause))).stage == WritingStage::Done(
                Err(StorageErrorView::not_transferred(cause)),
            )
            &&& deleting.next(ReplyView::Deleted(Err(cause))).stage == DeletingStage::Done(
                Err(StorageErrorView::not_deleted(cause)),
            )
        }),
{
    lemma_write_opens(obj, id, bucket, expected, found);
    lemma_read_opens(bucket, found);
    lemma_delete_opens(bucket, found);
}

/// A bucket is created only after it was looked up and not found.
pub proof fn law_bucket_is_created_only_if_missing(
    obj: LatticeState,
    id: Seq<char>,
    bucket: Seq<char>,
    expected: Option<u64>,
    replies: Seq<ReplyView>,
)
    ensures
        ({
            let missing = replies.contains(ReplyView::LookedUp { found: false });
            let reading = after(ReadingView::begin(bucket), replies).request();
            let writing = after(WritingView::begin(obj, id, bucket, expected), replies).request();
            let deleting = after(DeletingView::begin(bucket), replies).request();
            &&& reading is Some && reading->0 is CreateBucket ==> missing
            &&& writing is Some && writing->0 is CreateBucket ==> missing
            &&& deleting is Some && deleting->0 is CreateBucket ==> missing
        }),
    decreases replies.len(),
{
    if replies.len() > 0 {
        law_bucket_is_created_only_if_missing(obj, id, bucket, expected, replies.drop_last());
        lemma_earlier_replies_are_kept(replies);
    }
}

/// Where a bucket is missing and cannot be created, every operation ends with the error that says
/// so, and neither reads nor stores nor deletes anything.
pub proof fn law_refused_bucket_ends_the_operation(
    obj: LatticeState,
    id: Seq<char>,
    bucket: Seq<char>,
    expected: Option<u64>,
    cause: Seq<char>,
)
    ensures
        ({
            let replies = seq![
                ReplyView::LookedUp { found: false },
                ReplyView::Created(Err(cause)),
            ];
            let e = StorageErrorView::bucket_not_created(cause);
            &&& after(ReadingView::begin(bucket), replies).stage == ReadingStage::Done(Err(e))
            &&& after(WritingView::begin(obj, id, bucket, expected), replies).stage
                == WritingStage::Done(Err(e))
            &&& after(DeletingView::begin(bucket), replies).stage == DeletingStage::Done(Err(e))
        }),
{
    reveal_with_fuel(after::<ReadingView>, 3);
    reveal_with_fuel(after::<WritingView>, 3);
    reveal_with_fuel(after::<DeletingView>, 3);
    let replies = seq![ReplyView::LookedUp { found: false }, ReplyView::Created(Err(cause))];
    assert(replies.drop_last() =~= seq![ReplyView::LookedUp { found: false }]);
}

/// An operation has an outstanding request exactly as long as it has no result, and once it has
/// one, no reply changes it.
pub proof fn law_result_is_final(
    reading: ReadingView,
    writing: WritingView,
    deleting: DeletingView,
    reply: ReplyView,
)
    ensures
        reading.request() is None <==> reading.result() is Some,
        writing.request() is None <==> writing.result() is Some,
        deleting.request() is None <==> deleting.result() is Some,
        reading.result() is Some ==> reading.next(reply) == reading,
        writing.result() is Some ==> writing.next(reply) == writing,
        deleting.result() is Some ==> deleting.next(reply) == deleting,
{
}

/// A reply that does not answer the outstanding request changes nothing.
pub proof fn law_stray_replies_are_ignored(
    reading: ReadingView,
    writing: WritingView,
    deleting: DeletingView,
    reply: ReplyView,
)
    ensures
        reading.request() is Some && !reply.answers(reading.request()->0) ==> reading.next(reply)
            == reading,
        writing.request() is Some && !reply.answers(writing.request()->0) ==> writing.next(reply)
            == writing,
        deleting.request() is Some && !reply.answers(deleting.request()->0) ==> deleting.next(reply)
            == deleting,
{
}

/// The most answers that a read can still need.
spec fn reading_rank(reading: ReadingView) -> nat {
    match reading.stage {
        ReadingStage::Opening(Opening::LookUp) => 4,
        ReadingStage::Opening(Opening::Create) => 3,
        ReadingStage::Fetch => 2,
        ReadingStage::Decode(_) => 1,
        ReadingStage::Done(_) => 0,
    }
}

/// The most answers that a write can still need.
spec fn writing_rank(writing: WritingView) -> nat {
    match writing.stage {
        WritingStage::Opening(Opening::LookUp) => 4,
        WritingStage::Opening(Opening::Create) => 3,
        WritingStage::Encode => 2,
        WritingStage::Store(_) => 1,
        WritingStage::Done(_) => 0,
    }
}

/// The most answers that a deletion can still need.
spec fn deleting_rank(deleting: DeletingView) -> nat {
    match deleting.stage {
        DeletingStage::Opening(Opening::LookUp) => 3,
        DeletingStage::Opening(Opening::Create) => 2,
        DeletingStage::Delete => 1,
        DeletingStage::Done(_) => 0,
    }
}

proof fn lemma_reading_rank(reading: ReadingView, replies: Seq<ReplyView>)
    requires
        answered_by(reading, replies),
    ensures
        reading_rank(after(reading, replies)) == 0 || reading_rank(after(reading, replies))
            + replies.len() <= reading_rank(reading),
    decreases replies.len(),
{
    if replies.len() > 0 {
        lemma_reading_rank(reading, replies.drop_last());
    }
}

proof fn lemma_writing_rank(writing: WritingView, replies: Seq<ReplyView>)
    requires
        answered_by(writing, replies),
    ensures
        writing_rank(after(writing, replies)) == 0 || writing_rank(after(writing, replies))
            + replies.len() <= writing_rank(writing),
    decreases replies.len(),
{
    if replies.len() > 0 {
        lemma_writing_rank(writing, replies.drop_last());
    }
}

proof fn lemma_deleting_rank(deleting: DeletingView, replies: Seq<ReplyView>)
    requires
        answered_by(deleting, replies),
    ensures
        deleting_rank(after(deleting, replies)) == 0 || deleting_rank(after(deleting, replies))
            + replies.len() <= deleting_rank(deleting),
    decreases replies.len(),
{
    if replies.len() > 0 {
        lemma_deleting_rank(deleting, replies.drop_last());
    }
}

/// Whatever the answers are, a read is over after at most four of them.
pub proof fn law_read_ends(bucket: Seq<char>, replies: Seq<ReplyView>)
    requires
        answered_by(ReadingView::begin(bucket), replies),
        replies.len() >= 4,
    ensures
        after(ReadingView::begin(bucket), replies).result() is Some,
{
    lemma_reading_rank(ReadingView::begin(bucket), replies);
}

/// Whatever the answers are, a write is over after at most four of them.
pub proof fn law_write_ends(
    obj: LatticeState,
    id: Seq<char>,
    bucket: Seq<char>,
    expected: Option<u64>,
    replies: Seq<ReplyView>,
)
    requires
        answered_by(WritingView::begin(obj, id, bucket, expected), replies),
        replies.len() >= 4,
    ensures
        after(WritingView::begin(obj, id, bucket, expected), replies).result() is Some,
{
    lemma_writing_rank(WritingView::begin(obj, id, bucket, expected), replies);
}

/// Whatever the answers are, a deletion is over after at most three of them.
pub proof fn law_delete_ends(bucket: Seq<char>, replies: Seq<ReplyView>)
    requires
        answered_by(DeletingView::begin(bucket), replies),
        replies.len() >= 3,
    ensures
        after(DeletingView::begin(bucket), replies).result() is Some,
{
    lemma_deleting_rank(DeletingView::begin(bucket), replies);
}

/// A key that a login with a JWT accepted can sign.
pub proof fn law_jwt_key_can_sign(
    jwt: Seq<char>,
    seed: Seq<char>,
    credentials: JwtCredentialsView,
)
    requires
        is_jwt_login(
            jwt,
            nkeys_key_pair(seed),
            Ok::<JwtCredentialsView, StorageEngineErrorView>(credentials),
        ),
    ensures
        from_some_seed(credentials.key_pair),
        credentials.jwt == jwt,
{
    assert(nkeys_key_pair(seed) == Ok::<_, nkeys::error::Error>(credentials.key_pair));
}

/// A connection has an outstanding request exactly as long as it has no result. Once it has one,
/// no reply changes it, and neither does a reply that does not answer the outstanding request.
pub proof fn law_connecting_result_is_final(
    connecting: ConnectingView,
    reply: ConnectReplyView,
    next: ConnectingView,
)
    requires
        connecting.leads_to(reply, next),
    ensures
        connecting.request() is None <==> connecting.result() is Some,
        connecting.result() is Some ==> next == connecting,
        connecting.request() is Some && !reply.answers(connecting.request()->0) ==> next
            == connecting,
{
}

/// Whatever the two answers are, a connection is over after them; it is made only where the
/// server accepted it, and only to the configured URL.
pub proof fn law_connecting_ends(
    config: NatsKvStorageConfig,
    first: ConnectReplyView,
    middle: ConnectingView,
    second: ConnectReplyView,
    end: ConnectingView,
)
    requires
        first.answers(ConnectingView::begin(config).request()->0),
        ConnectingView::begin(config).leads_to(first, middle),
        middle.request() is Some ==> second.answers(middle.request()->0),
        middle.leads_to(second, end),
    ensures
        end.result() is Some,
        end.config == config,
        end.result() is Some && end.result()->0 is Ok ==> {
            ||| first is Connected && first->Connected_0 is Ok
            ||| second is Connected && second->Connected_0 is Ok
        },
        ConnectingView::begin(config).request()->0 is Connect
            ==> ConnectingView::begin(config).request()->0->url == config.nats_url@,
        middle.request() is Some && middle.request()->0 is Connect ==> middle.request()->0->url
            == config.nats_url@,
{
}

} // verus!
