//! A key-value service that keeps what it is given, and what the storage engine makes of it.
//!
//! The operations are proved for whatever the service answers. The laws here say what comes of
//! them where the service keeps every value, numbers the values of a bucket in the order in which
//! they come, and refuses an update that names another revision than the last one.
use crate::bucket::lattice_bucket_name;
use crate::delete::DeletingView;
use crate::error::StorageErrorView;
use crate::laws::law_lattices_have_their_own_buckets;
use crate::operation::Operation;
use crate::outside::empty_value_refusal;
use crate::read::{ReadResultView, ReadingView};
use crate::service::{EntryView, ReplyView, RequestView, LATTICE_BUCKET_STATE_KEY};
use crate::state::LatticeState;
use crate::store::WithStateMetadata;
use crate::write::WritingView;
use vstd::prelude::*;

verus! {

/// How states are encoded and decoded.
pub struct Codec {
    pub encode: spec_fn(LatticeState) -> Result<Seq<u8>, StorageErrorView>,
    pub decode: spec_fn(Seq<u8>) -> Result<LatticeState, StorageErrorView>,
}

/// A bucket: the last entry of each key, and the last revision that was given out.
pub struct Bucket {
    pub entries: Map<Seq<char>, EntryView>,
    pub last: u64,
}

/// The service: its buckets by their names, and the text with which it refuses an update.
pub struct Service {
    pub buckets: Map<Seq<char>, Bucket>,
    pub refusal: Seq<char>,
}

impl Bucket {
    /// A bucket without entries.
    pub open spec fn empty() -> Self {
        Bucket { entries: Map::empty(), last: 0 }
    }

    /// The revision of the last entry under `key`, and 0 where there is none.
    pub open spec fn revision(self, key: Seq<char>) -> u64 {
        if self.entries.dom().contains(key) {
            self.entries[key].revision
        } else {
            0
        }
    }

    /// The bucket after `value` was stored under `key`.
    pub open spec fn with(self, key: Seq<char>, value: Seq<u8>) -> Self {
        self.with_entry(key, value, false)
    }

    /// The bucket after what was under `key` was deleted, which leaves a mark without a value.
    pub open spec fn without(self, key: Seq<char>) -> Self {
        self.with_entry(key, Seq::empty(), true)
    }

    /// The bucket with a new last entry under `key`, under the next revision.
    pub open spec fn with_entry(self, key: Seq<char>, value: Seq<u8>, deleted: bool) -> Self {
        let revision = (self.last + 1) as u64;
        Bucket {
            entries: self.entries.insert(key, EntryView { value, revision, deleted }),
            last: revision,
        }
    }

    /// Revisions are given out in order.
    pub open spec fn is_ordered(self) -> bool {
        forall|key: Seq<char>| #[trigger]
            self.entries.dom().contains(key) ==> 0 < self.entries[key].revision <= self.last
    }

    /// Revisions are given out in order, and there is one left to give out.
    pub open spec fn wf(self) -> bool {
        &&& self.last < u64::MAX
        &&& self.is_ordered()
    }
}

impl Service {
    /// Each bucket is well formed.
    pub open spec fn wf(self) -> bool {
        forall|bucket: Seq<char>| #[trigger]
            self.buckets.dom().contains(bucket) ==> self.buckets[bucket].wf()
    }

    /// The bucket of the name `bucket`, which is empty where there is none.
    pub open spec fn bucket(self, bucket: Seq<char>) -> Bucket {
        if self.buckets.dom().contains(bucket) {
            self.buckets[bucket]
        } else {
            Bucket::empty()
        }
    }

    /// The service with `contents` as the bucket of the name `bucket`.
    pub open spec fn with_bucket(self, bucket: Seq<char>, contents: Bucket) -> Self {
        Service { buckets: self.buckets.insert(bucket, contents), refusal: self.refusal }
    }

    /// What the service answers to `request`, with states encoded and decoded by `codec`, and the
    /// service after it.
    pub open spec fn serve(self, codec: Codec, request: RequestView) -> (Service, ReplyView) {
        match request {
            RequestView::LookUpBucket { bucket } => (
                self,
                ReplyView::LookedUp { found: self.buckets.dom().contains(bucket) },
            ),
            RequestView::CreateBucket { bucket, .. } => (
                self.with_bucket(bucket, self.bucket(bucket)),
                ReplyView::Created(Ok(())),
            ),
            RequestView::FetchEntry { bucket, key } => (
                self,
                if self.bucket(bucket).entries.dom().contains(key) {
                    ReplyView::Fetched(Ok(Some(self.bucket(bucket).entries[key])))
                } else {
                    ReplyView::Fetched(Ok(None))
                },
            ),
            RequestView::Decode { value } => (self, ReplyView::Decoded((codec.decode)(value))),
            RequestView::Encode { state } => (self, ReplyView::Encoded((codec.encode)(state))),
            RequestView::Put { bucket, key, value } => {
                let contents = self.bucket(bucket).with(key, value);
                (self.with_bucket(bucket, contents), ReplyView::Stored(Ok(contents.last)))
            },
            RequestView::Update { bucket, key, value, revision } => {
                let contents = self.bucket(bucket).with(key, value);
                if self.bucket(bucket).revision(key) == revision {
                    (self.with_bucket(bucket, contents), ReplyView::Stored(Ok(contents.last)))
                } else {
                    (self, ReplyView::Stored(Err(self.refusal)))
                }
            },
            RequestView::Delete { bucket, key } => (
                self.with_bucket(bucket, self.bucket(bucket).without(key)),
                ReplyView::Deleted(Ok(())),
            ),
        }
    }

    /// The service after it was sent all of `requests`.
    pub open spec fn serve_all(self, codec: Codec, requests: Seq<RequestView>) -> Self
        decreases requests.len(),
    {
        if requests.len() == 0 {
            self
        } else {
            self.serve_all(codec, requests.drop_last()).serve(codec, requests.last()).0
        }
    }

    /// The operation `op` after it was served `steps` times, or as often as it asked, and the
    /// service after it.
    pub open spec fn run<O: Operation>(self, codec: Codec, op: O, steps: nat) -> (Service, O)
        decreases steps,
    {
        match op.request() {
            Some(request) if steps > 0 => {
                let (service, reply) = self.serve(codec, request);
                service.run(codec, op.next(reply), (steps - 1) as nat)
            },
            _ => (self, op),
        }
    }

    /// The service after the bucket of the name `bucket` was opened.
    pub open spec fn opened(self, bucket: Seq<char>) -> Self {
        if self.buckets.dom().contains(bucket) {
            self
        } else {
            self.with_bucket(bucket, Bucket::empty())
        }
    }
}

/// What a read finds in `service`: no state where the bucket has none or has it deleted, and
/// otherwise what the value decodes to, with its revision.
pub open spec fn found_in(service: Service, codec: Codec, bucket: Seq<char>) -> ReadResultView {
    let key = LATTICE_BUCKET_STATE_KEY@;
    let entries = service.bucket(bucket).entries;
    if !entries.dom().contains(key) {
        Err(StorageErrorView::no_state(bucket))
    } else if entries[key].is_tombstone() {
        Err(StorageErrorView::not_transferred(empty_value_refusal()))
    } else {
        match (codec.decode)(entries[key].value) {
            Ok(state) => Ok(WithStateMetadata { revision: Some(entries[key].revision), state }),
            Err(e) => Err(e),
        }
    }
}

/// A read gives back what the bucket of its lattice holds, and changes nothing but that the bucket
/// is there afterwards.
pub proof fn law_read_finds_what_is_kept(service: Service, codec: Codec, bucket: Seq<char>)
    ensures
        ({
            let (end, reading) = service.run(codec, ReadingView::begin(bucket), 4);
            &&& reading.result() == Some(found_in(service, codec, bucket))
            &&& end == service.opened(bucket)
        }),
{
    reveal_with_fuel(Service::run::<ReadingView>, 5);
    let begin = ReadingView::begin(bucket);
    assert(service.serve(codec, begin.request()->0).0 == service);
}

/// A write without an expected revision stores the encoded state under the next revision of the
/// bucket, and reports that revision. Where the state cannot be encoded, nothing is stored.
pub proof fn law_write_stores(
    service: Service,
    codec: Codec,
    obj: LatticeState,
    id: Seq<char>,
    bucket: Seq<char>,
)
    ensures
        ({
            let (end, writing) = service.run(codec, WritingView::begin(obj, id, bucket, None), 4);
            match (codec.encode)(obj) {
                Ok(value) => {
                    let contents = service.bucket(bucket).with(LATTICE_BUCKET_STATE_KEY@, value);
                    &&& writing.result() == Some(
                        Ok::<_, StorageErrorView>(
                            (WithStateMetadata { revision: Some(contents.last), state: id }),
                        ),
                    )
                    &&& end == service.with_bucket(bucket, contents)
                },
                Err(e) => writing.result() == Some(Err::<WithStateMetadata<Seq<char>>, _>(e)) && end
                    == service.opened(bucket),
            }
        }),
{
    reveal_with_fuel(Service::run::<WritingView>, 5);
    if let Ok(value) = (codec.encode)(obj) {
        let contents = service.bucket(bucket).with(LATTICE_BUCKET_STATE_KEY@, value);
        assert(service.opened(bucket).with_bucket(bucket, contents).buckets
            =~= service.with_bucket(bucket, contents).buckets);
    }
}

/// A write with an expected revision succeeds exactly where the state can be encoded and that
/// revision is the last one of the state, and then stores like any other write. Where the revision
/// is not the last one, the write reports the refusal; where the state cannot be encoded, it
/// reports that. In both cases what is stored stays as it is.
pub proof fn law_compare_and_set(
    service: Service,
    codec: Codec,
    obj: LatticeState,
    id: Seq<char>,
    bucket: Seq<char>,
    revision: u64,
)
    ensures
        ({
            let key = LATTICE_BUCKET_STATE_KEY@;
            let (end, writing) = service.run(
                codec,
                WritingView::begin(obj, id, bucket, Some(revision)),
                4,
            );
            match (codec.encode)(obj) {
                Ok(value) => {
                    let contents = service.bucket(bucket).with(key, value);
                    if service.bucket(bucket).revision(key) == revision {
                        &&& writing.result() == Some(
                            Ok::<_, StorageErrorView>(
                                (WithStateMetadata { revision: Some(contents.last), state: id }),
                            ),
                        )
                        &&& end == service.with_bucket(bucket, contents)
                    } else {
                        &&& writing.result() == Some(
                            Err::<WithStateMetadata<Seq<char>>, _>(
                                StorageErrorView::not_transferred(service.refusal),
                            ),
                        )
                        &&& end == service.opened(bucket)
                    }
                },
                Err(e) => writing.result() == Some(Err::<WithStateMetadata<Seq<char>>, _>(e)) && end
                    == service.opened(bucket),
            }
        }),
{
    reveal_with_fuel(Service::run::<WritingView>, 5);
    if let Ok(value) = (codec.encode)(obj) {
        let contents = service.bucket(bucket).with(LATTICE_BUCKET_STATE_KEY@, value);
        assert(service.opened(bucket).with_bucket(bucket, contents).buckets
            =~= service.with_bucket(bucket, contents).buckets);
    }
}

/// What was written is read back: a read after a write gives the state that the stored value
/// decodes to, with the revision that the write reported. Where decoding undoes encoding, that is
/// the written state. The write may expect a revision, as long as it is the last one.
pub proof fn law_read_after_write(
    service: Service,
    codec: Codec,
    prefix: Option<Seq<char>>,
    obj: LatticeState,
    id: Seq<char>,
    expected: Option<u64>,
    state: LatticeState,
)
    requires
        (codec.encode)(obj) is Ok,
        (codec.decode)((codec.encode)(obj)->Ok_0) == Ok::<_, StorageErrorView>(state),
        expected is Some ==> expected->0 == service.bucket(
            lattice_bucket_name(prefix, id),
        ).revision(LATTICE_BUCKET_STATE_KEY@),
    ensures
        ({
            let bucket = lattice_bucket_name(prefix, id);
            let (kept, writing) = service.run(
                codec,
                WritingView::begin(obj, id, bucket, expected),
                4,
            );
            let (end, reading) = kept.run(codec, ReadingView::begin(bucket), 4);
            let written = writing.result();
            &&& written is Some && written->0 is Ok && written->0->Ok_0.state == id
            &&& reading.result() == Some(
                Ok::<_, StorageErrorView>(
                    (WithStateMetadata { revision: written->0->Ok_0.revision, state }),
                ),
            )
            &&& end == kept
        }),
{
    let bucket = lattice_bucket_name(prefix, id);
    match expected {
        Some(revision) => law_compare_and_set(service, codec, obj, id, bucket, revision),
        None => law_write_stores(service, codec, obj, id, bucket),
    }
    let (kept, writing) = service.run(codec, WritingView::begin(obj, id, bucket, expected), 4);
    law_read_finds_what_is_kept(kept, codec, bucket);
}

/// No update is lost: of two writers that read the same revision and both write with it expected,
/// the second is refused, and what the first wrote stays.
pub proof fn law_no_lost_update(
    service: Service,
    codec: Codec,
    first: LatticeState,
    second: LatticeState,
    id: Seq<char>,
    bucket: Seq<char>,
)
    requires
        service.wf(),
        (codec.encode)(first) is Ok,
        (codec.encode)(second) is Ok,
    ensures
        ({
            let key = LATTICE_BUCKET_STATE_KEY@;
            let read = Some(service.bucket(bucket).revision(key));
            let (kept, winner) = service.run(codec, WritingView::begin(first, id, bucket, read), 4);
            let (end, loser) = kept.run(codec, WritingView::begin(second, id, bucket, read), 4);
            &&& winner.result() is Some && winner.result()->0 is Ok
            &&& loser.result() == Some(
                Err::<WithStateMetadata<Seq<char>>, _>(
                    StorageErrorView::not_transferred(service.refusal),
                ),
            )
            &&& end == kept
        }),
{
    let key = LATTICE_BUCKET_STATE_KEY@;
    let revision = service.bucket(bucket).revision(key);
    law_compare_and_set(service, codec, first, id, bucket, revision);
    let (kept, winner) = service.run(
        codec,
        WritingView::begin(first, id, bucket, Some(revision)),
        4,
    );
    assert(service.bucket(bucket).wf());
    assert(kept.bucket(bucket).revision(key) > revision);
    law_compare_and_set(kept, codec, second, id, bucket, revision);
}

/// No request takes a key of a bucket back to an earlier revision.
proof fn lemma_revisions_grow(
    service: Service,
    codec: Codec,
    request: RequestView,
    bucket: Seq<char>,
    key: Seq<char>,
)
    requires
        service.bucket(bucket).wf(),
    ensures
        ({
            let before = service.bucket(bucket);
            let next = service.serve(codec, request).0;
            let after = next.bucket(bucket);
            &&& after.is_ordered()
            &&& before.last <= after.last <= before.last + 1
            &&& before.revision(key) <= after.revision(key)
            &&& next.refusal == service.refusal
        }),
{
}

/// No requests take a key of a bucket back to an earlier revision, as long as it has revisions
/// left.
proof fn lemma_revisions_keep_growing(
    service: Service,
    codec: Codec,
    requests: Seq<RequestView>,
    bucket: Seq<char>,
    key: Seq<char>,
)
    requires
        service.bucket(bucket).is_ordered(),
        service.bucket(bucket).last + requests.len() <= u64::MAX,
    ensures
        ({
            let before = service.bucket(bucket);
            let end = service.serve_all(codec, requests);
            let after = end.bucket(bucket);
            &&& after.is_ordered()
            &&& before.last <= after.last <= before.last + requests.len()
            &&& before.revision(key) <= after.revision(key)
            &&& end.refusal == service.refusal
        }),
    decreases requests.len(),
{
    if requests.len() > 0 {
        let earlier = service.serve_all(codec, requests.drop_last());
        lemma_revisions_keep_growing(service, codec, requests.drop_last(), bucket, key);
        lemma_revisions_grow(earlier, codec, requests.last(), bucket, key);
    }
}

/// No update is lost where writers interleave: of two writes that are both about to store with the
/// same revision expected, the first is stored exactly if that revision is the last one, and once
/// it is, the second is refused. The second then ends with the error that says so, and what is
/// stored stays as it is. It does not matter what else the service is asked between the two, as
/// long as the bucket has revisions left.
pub proof fn law_no_lost_update_when_interleaved(
    service: Service,
    codec: Codec,
    first: WritingView,
    second: WritingView,
    between: Seq<RequestView>,
)
    requires
        service.wf(),
        first.stage is Store,
        second.stage is Store,
        first.expected is Some,
        second.expected == first.expected,
        second.bucket == first.bucket,
        service.bucket(first.bucket).last + 1 + between.len() <= u64::MAX,
    ensures
        ({
            let (stored, reply) = service.serve(codec, first.request()->0);
            let later = stored.serve_all(codec, between);
            let (end, refused) = later.serve(codec, second.request()->0);
            let is_stored = reply is Stored && reply->Stored_0 is Ok;
            &&& is_stored <==> first.expected->0 == service.bucket(first.bucket).revision(
                LATTICE_BUCKET_STATE_KEY@,
            )
            &&& is_stored ==> {
                &&& first.next(reply).result() is Some
                &&& first.next(reply).result()->0 is Ok
                &&& refused == ReplyView::Stored(Err(service.refusal))
                &&& second.next(refused).result() == Some(
                    Err::<WithStateMetadata<Seq<char>>, _>(
                        StorageErrorView::not_transferred(service.refusal),
                    ),
                )
                &&& end == later
            }
        }),
{
    let key = LATTICE_BUCKET_STATE_KEY@;
    let bucket = first.bucket;
    let (stored, reply) = service.serve(codec, first.request()->0);
    assert(service.bucket(bucket).wf());
    lemma_revisions_grow(service, codec, first.request()->0, bucket, key);
    lemma_revisions_keep_growing(stored, codec, between, bucket, key);
    if reply is Stored && reply->Stored_0 is Ok {
        assert(stored.bucket(bucket).revision(key) > first.expected->0);
    }
}

/// A deletion succeeds, and a read after it gives no state, whatever was stored before and however
/// states are decoded.
pub proof fn law_read_after_delete(service: Service, codec: Codec, bucket: Seq<char>)
    ensures
        ({
            let (kept, deleting) = service.run(codec, DeletingView::begin(bucket), 3);
            let (end, reading) = kept.run(codec, ReadingView::begin(bucket), 4);
            &&& deleting.result() == Some(Ok::<(), StorageErrorView>(()))
            &&& kept == service.with_bucket(
                bucket,
                service.bucket(bucket).without(LATTICE_BUCKET_STATE_KEY@),
            )
            &&& reading.result() == Some(
                Err::<WithStateMetadata<LatticeState>, _>(
                    StorageErrorView::not_transferred(empty_value_refusal()),
                ),
            )
            &&& end == kept
        }),
{
    reveal_with_fuel(Service::run::<DeletingView>, 4);
    let (kept, deleting) = service.run(codec, DeletingView::begin(bucket), 3);
    assert(kept.buckets =~= service.with_bucket(
        bucket,
        service.bucket(bucket).without(LATTICE_BUCKET_STATE_KEY@),
    ).buckets);
    law_read_finds_what_is_kept(kept, codec, bucket);
}

/// A deleted state is not returned: where a state was stored under some identifier and then
/// deleted under it, a read of that identifier fails.
pub proof fn law_deleted_state_is_not_returned(
    service: Service,
    codec: Codec,
    prefix: Option<Seq<char>>,
    obj: LatticeState,
    id: Seq<char>,
    expected: Option<u64>,
)
    ensures
        ({
            let bucket = lattice_bucket_name(prefix, id);
            let (stored, writing) = service.run(
                codec,
                WritingView::begin(obj, id, bucket, expected),
                4,
            );
            let (deleted, deleting) = stored.run(codec, DeletingView::begin(bucket), 3);
            let (end, reading) = deleted.run(codec, ReadingView::begin(bucket), 4);
            &&& deleting.result() == Some(Ok::<(), StorageErrorView>(()))
            &&& reading.result() is Some
            &&& reading.result()->0 is Err
        }),
{
    let bucket = lattice_bucket_name(prefix, id);
    let stored = service.run(codec, WritingView::begin(obj, id, bucket, expected), 4).0;
    law_read_after_delete(stored, codec, bucket);
}

/// What an operation on one lattice does is not seen by a read of another one.
pub proof fn law_other_lattices_are_untouched(
    service: Service,
    codec: Codec,
    prefix: Option<Seq<char>>,
    obj: LatticeState,
    id: Seq<char>,
    expected: Option<u64>,
    other: Seq<char>,
)
    requires
        id != other,
    ensures
        ({
            let bucket = lattice_bucket_name(prefix, id);
            let elsewhere = lattice_bucket_name(prefix, other);
            let written = service.run(codec, WritingView::begin(obj, id, bucket, expected), 4).0;
            let deleted = service.run(codec, DeletingView::begin(bucket), 3).0;
            &&& written.run(codec, ReadingView::begin(elsewhere), 4).1.result() == service.run(
                codec,
                ReadingView::begin(elsewhere),
                4,
            ).1.result()
            &&& deleted.run(codec, ReadingView::begin(elsewhere), 4).1.result() == service.run(
                codec,
                ReadingView::begin(elsewhere),
                4,
            ).1.result()
        }),
{
    let bucket = lattice_bucket_name(prefix, id);
    let elsewhere = lattice_bucket_name(prefix, other);
    law_lattices_have_their_own_buckets(prefix, id, other);
    reveal_with_fuel(Service::run::<WritingView>, 5);
    reveal_with_fuel(Service::run::<DeletingView>, 4);
    let written = service.run(codec, WritingView::begin(obj, id, bucket, expected), 4).0;
    let deleted = service.run(codec, DeletingView::begin(bucket), 3).0;
    law_read_finds_what_is_kept(service, codec, elsewhere);
    law_read_finds_what_is_kept(written, codec, elsewhere);
    law_read_finds_what_is_kept(deleted, codec, elsewhere);
}

} // verus!
