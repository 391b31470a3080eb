//! Where an engine keeps the state of a lattice.
//!
//! The laws speak of the engine itself, of the fields of its configuration and of the characters
//! of the names.
use crate::delete::DeletingView;
use crate::engine::NatsKvStorageEngine;
use crate::error::StorageErrorView;
use crate::model::{
    law_compare_and_set, law_read_after_delete, law_read_finds_what_is_kept, law_write_stores,
    Codec, Service,
};
use crate::operation::{after, Operation};
use crate::read::ReadingView;
use crate::service::{ReplyView, RequestView};
use crate::state::LatticeState;
use crate::store::WithStateMetadata;
use crate::write::WritingView;
use vstd::prelude::*;

verus! {

/// The bucket of a lattice is named `lattice_` and the whole identifier, after the prefix of the
/// engine and an underscore where it has a prefix. So the identifier can be read off the name.
pub proof fn law_bucket_name_holds_the_identifier(engine: NatsKvStorageEngine, id: Seq<char>)
    ensures
        engine.config().lattice_bucket_prefix is None ==> engine.bucket(id) == "lattice_"@ + id,
        engine.config().lattice_bucket_prefix is Some ==> engine.bucket(id)
            == engine.config().lattice_bucket_prefix->0@ + "_"@ + "lattice_"@ + id,
        engine.bucket(id).len() >= id.len() + 8,
        engine.bucket(id).skip(engine.bucket(id).len() - id.len()) == id,
        engine.bucket(id).take(engine.bucket(id).len() - id.len()) == engine.bucket(Seq::empty()),
{
    reveal_strlit("lattice_");
    if let Some(prefix) = engine.config().lattice_bucket_prefix {
        assert(engine.bucket(id) =~= prefix@ + "_"@ + "lattice_"@ + id);
        assert(engine.bucket(Seq::empty()) =~= prefix@ + "_"@ + "lattice_"@);
    } else {
        assert(engine.bucket(Seq::empty()) =~= "lattice_"@);
    }
}

/// Two lattices of one engine never share a bucket.
pub proof fn law_engine_separates_lattices(
    engine: NatsKvStorageEngine,
    id1: Seq<char>,
    id2: Seq<char>,
)
    requires
        id1 != id2,
    ensures
        engine.bucket(id1) != engine.bucket(id2),
{
    law_bucket_name_holds_the_identifier(engine, id1);
    law_bucket_name_holds_the_identifier(engine, id2);
    if engine.bucket(id1) == engine.bucket(id2) {
        let before = engine.bucket(Seq::empty());
        assert(before.len() == engine.bucket(id1).len() - id1.len());
        assert(before.len() == engine.bucket(id2).len() - id2.len());
    }
}

/// Two engines with different prefixes, or of which only one has a prefix, keep the state of one
/// lattice in different buckets.
pub proof fn law_prefixes_separate_engines(
    engine1: NatsKvStorageEngine,
    engine2: NatsKvStorageEngine,
    id: Seq<char>,
)
    requires
        match (engine1.config().lattice_bucket_prefix, engine2.config().lattice_bucket_prefix) {
            (Some(prefix1), Some(prefix2)) => prefix1@ != prefix2@,
            (Some(_), None) => true,
            (None, Some(_)) => true,
            (None, None) => false,
        },
    ensures
        engine1.bucket(id) != engine2.bucket(id),
{
    reveal_strlit("_");
    law_bucket_name_holds_the_identifier(engine1, id);
    law_bucket_name_holds_the_identifier(engine2, id);
    if let (Some(prefix1), Some(prefix2)) = (
        engine1.config().lattice_bucket_prefix,
        engine2.config().lattice_bucket_prefix,
    ) {
        if engine1.bucket(id) == engine2.bucket(id) {
            assert(prefix1@.len() == prefix2@.len());
            assert(prefix1@ =~= engine1.bucket(id).take(prefix1@.len() as int));
            assert(prefix2@ =~= engine2.bucket(id).take(prefix2@.len() as int));
        }
    }
}

/// The request concerns the bucket `bucket` and in it the state of the lattice, and a bucket that
/// it creates keeps ten values of each key. A request to encode or to decode concerns no bucket.
pub open spec fn concerns_state_in(request: RequestView, bucket: Seq<char>) -> bool {
    match request {
        RequestView::LookUpBucket { bucket: name } => name == bucket,
        RequestView::CreateBucket { bucket: name, history } => name == bucket && history == 10,
        RequestView::FetchEntry { bucket: name, key } => name == bucket && key == "state"@,
        RequestView::Put { bucket: name, key, .. } => name == bucket && key == "state"@,
        RequestView::Update { bucket: name, key, .. } => name == bucket && key == "state"@,
        RequestView::Delete { bucket: name, key } => name == bucket && key == "state"@,
        RequestView::Decode { .. } => true,
        RequestView::Encode { .. } => true,
    }
}

/// Whatever it is answered, each request of an operation concerns the state in the bucket that the
/// operation was begun with, and a bucket that is created keeps ten values of each key. A read
/// stores and deletes nothing, a write fetches and deletes nothing, and a deletion fetches and
/// stores nothing.
pub proof fn law_requests_concern_the_state(
    obj: LatticeState,
    id: Seq<char>,
    bucket: Seq<char>,
    expected: Option<u64>,
    replies: Seq<ReplyView>,
)
    ensures
        ({
            let reading = after(ReadingView::begin(bucket), replies).request();
            let writing = after(WritingView::begin(obj, id, bucket, expected), replies).request();
            let deleting = after(DeletingView::begin(bucket), replies).request();
            &&& reading is Some ==> {
                &&& concerns_state_in(reading->0, bucket)
                &&& reading->0 is LookUpBucket || reading->0 is CreateBucket || reading->0
                    is FetchEntry || reading->0 is Decode
            }
            &&& writing is Some ==> {
                &&& concerns_state_in(writing->0, bucket)
                &&& writing->0 is LookUpBucket || writing->0 is CreateBucket || writing->0
                    is Encode || writing->0 is Put || writing->0 is Update
                &&& writing->0 is Encode ==> writing->0->state == obj
                &&& writing->0 is Put ==> expected is None
                &&& writing->0 is Update ==> expected == Some(writing->0->revision)
            }
            &&& deleting is Some ==> {
                &&& concerns_state_in(deleting->0, bucket)
                &&& deleting->0 is LookUpBucket || deleting->0 is CreateBucket || deleting->0
                    is Delete
            }
        }),
{
    lemma_target_stays(obj, id, bucket, expected, replies);
}

proof fn lemma_target_stays(
    obj: LatticeState,
    id: Seq<char>,
    bucket: Seq<char>,
    expected: Option<u64>,
    replies: Seq<ReplyView>,
)
    ensures
        after(ReadingView::begin(bucket), replies).bucket == bucket,
        after(DeletingView::begin(bucket), replies).bucket == bucket,
        after(WritingView::begin(obj, id, bucket, expected), replies).obj == obj,
        after(WritingView::begin(obj, id, bucket, expected), replies).bucket == bucket,
        after(WritingView::begin(obj, id, bucket, expected), replies).expected == expected,
    decreases replies.len(),
{
    if replies.len() > 0 {
        lemma_target_stays(obj, id, bucket, expected, replies.drop_last());
    }
}

/// An engine that stores a state for one lattice gets it back, whatever it stores for another
/// lattice and deletes there in between: the get ends with the state that the stored value decodes
/// to, under the revision that the store reported.
pub proof fn law_get_gives_back_what_was_stored(
    engine: NatsKvStorageEngine,
    service: Service,
    codec: Codec,
    obj: LatticeState,
    id: Seq<char>,
    other_obj: LatticeState,
    other_id: Seq<char>,
    other_expected: Option<u64>,
    decoded: LatticeState,
)
    requires
        id != other_id,
        (codec.encode)(obj) is Ok,
        (codec.decode)((codec.encode)(obj)->Ok_0) == Ok::<_, StorageErrorView>(decoded),
    ensures
        ({
            let (stored, store) = service.run(
                codec,
                WritingView::begin(obj, id, engine.bucket(id), None),
                4,
            );
            let elsewhere = engine.bucket(other_id);
            let written = stored.run(
                codec,
                WritingView::begin(other_obj, other_id, elsewhere, other_expected),
                4,
            ).0;
            let deleted = written.run(codec, DeletingView::begin(elsewhere), 3).0;
            let get = deleted.run(codec, ReadingView::begin(engine.bucket(id)), 4).1;
            &&& store.result() is Some && store.result()->0 is Ok
            &&& store.result()->0->Ok_0.state == id
            &&& store.result()->0->Ok_0.revision is Some
            &&& get.result() == Some(
                Ok::<_, StorageErrorView>(
                    (WithStateMetadata {
                        revision: store.result()->0->Ok_0.revision,
                        state: decoded,
                    }),
                ),
            )
        }),
{
    let bucket = engine.bucket(id);
    let elsewhere = engine.bucket(other_id);
    law_engine_separates_lattices(engine, id, other_id);
    law_write_stores(service, codec, obj, id, bucket);
    let stored = service.run(codec, WritingView::begin(obj, id, bucket, None), 4).0;
    match other_expected {
        Some(revision) => law_compare_and_set(
            stored,
            codec,
            other_obj,
            other_id,
            elsewhere,
            revision,
        ),
        None => law_write_stores(stored, codec, other_obj, other_id, elsewhere),
    }
    let written = stored.run(
        codec,
        WritingView::begin(other_obj, other_id, elsewhere, other_expected),
        4,
    ).0;
    assert(written.bucket(bucket) == stored.bucket(bucket));
    law_read_after_delete(written, codec, elsewhere);
    let deleted = written.run(codec, DeletingView::begin(elsewhere), 3).0;
    assert(deleted.bucket(bucket) == stored.bucket(bucket));
    law_read_finds_what_is_kept(deleted, codec, bucket);
}

} // verus!
