//! What errors say.
//!
//! Every error keeps the whole text of its cause, behind words that say what failed.
use crate::error::{StorageEngineErrorView, StorageErrorView};
use crate::outside::empty_value_refusal;
use crate::state::LatticeStateBuilderErrorView;
use vstd::prelude::*;

verus! {

/// The error of an engine says what failed, and then the whole cause.
pub proof fn law_engine_errors_hold_their_cause(reason: Seq<char>)
    ensures
        StorageEngineErrorView::seed_refused(reason) == StorageEngineErrorView::Engine(
            "failed to process nkeys: "@ + reason,
        ),
        StorageEngineErrorView::file_unreadable(reason) == StorageEngineErrorView::Engine(
            "unexpected I/O error: "@ + reason,
        ),
        StorageEngineErrorView::credentials_refused(reason) == StorageEngineErrorView::Engine(
            "Failed to connect NATS: "@ + reason,
        ),
        StorageEngineErrorView::connection_failed(reason) == StorageEngineErrorView::Engine(
            "failed to connect: "@ + reason,
        ),
{
}

/// The error of an operation says what failed, and then the whole cause. Where a bucket holds no
/// state, it names the bucket.
pub proof fn law_storage_errors_hold_their_cause(reason: Seq<char>)
    ensures
        StorageErrorView::bucket_not_created(reason) == StorageErrorView::Engine(
            "failed to create jetstream kv: "@ + reason,
        ),
        StorageErrorView::no_state(reason) == StorageErrorView::Engine(
            "No lattice state in bucket ["@ + reason + "]"@,
        ),
        StorageErrorView::not_deleted(reason) == StorageErrorView::Engine(
            "failed to delete lattice state: "@ + reason,
        ),
        StorageErrorView::not_transferred(reason) == StorageErrorView::Unknown(
            "de/serialization error occurred: "@ + reason,
        ),
        StorageErrorView::not_built(reason) == StorageErrorView::Unknown(
            "failed to build lattice: "@ + reason,
        ),
        empty_value_refusal() == "EOF while parsing a value at line 1 column 0"@,
{
}

/// The message of an error holds its whole text, behind or between the words of its kind.
pub proof fn law_messages_hold_the_text(text: Seq<char>)
    ensures
        StorageEngineErrorView::Engine(text).message() == "Storage engine encountered an error: "@
            + text,
        StorageEngineErrorView::NotConnected(text).message() == "Storage engine ["@ + text
            + "] not connected"@,
        StorageEngineErrorView::NotImplemented(text).message() == "Operation not implemented: "@
            + text,
        StorageEngineErrorView::Unknown.message() == "Unknown error has occured"@,
        StorageErrorView::Engine(text).message() == "Storage error: "@ + text,
        StorageErrorView::NetworkError(text).message() == "Network error: "@ + text,
        StorageErrorView::Unknown(text).message() == "Unknown error has occured: "@ + text,
        LatticeStateBuilderErrorView::UninitializedField(text).message() == "`"@ + text
            + "` must be initialized"@,
        LatticeStateBuilderErrorView::ValidationError(text).message() == text,
{
}

proof fn lemma_suffixes_differ(before: Seq<char>, text1: Seq<char>, text2: Seq<char>)
    requires
        text1 != text2,
    ensures
        before + text1 != before + text2,
{
    assert((before + text1).skip(before.len() as int) =~= text1);
    assert((before + text2).skip(before.len() as int) =~= text2);
}

/// Different errors have different messages, so a message says all that its error holds.
pub proof fn law_messages_tell_errors_apart(e1: StorageErrorView, e2: StorageErrorView)
    requires
        e1 != e2,
    ensures
        e1.message() != e2.message(),
{
    reveal_strlit("Storage error: ");
    reveal_strlit("Network error: ");
    reveal_strlit("Unknown error has occured: ");
    match (e1, e2) {
        (StorageErrorView::Engine(text1), StorageErrorView::Engine(text2)) => {
            lemma_suffixes_differ("Storage error: "@, text1, text2);
        },
        (StorageErrorView::NetworkError(text1), StorageErrorView::NetworkError(text2)) => {
            lemma_suffixes_differ("Network error: "@, text1, text2);
        },
        (StorageErrorView::Unknown(text1), StorageErrorView::Unknown(text2)) => {
            lemma_suffixes_differ("Unknown error has occured: "@, text1, text2);
        },
        _ => {
            assert(e1.message()[0] != e2.message()[0]);
        },
    }
}

} // verus!
