use vstd::prelude::*;

use crate::query::{
    kind_text,
    message_of,
    offset_nanos,
    query_result,
    EpochOffset,
    FailureKind,
    IoFailure,
    MetadataOutcome,
    QueryError,
};
use crate::timestamp::{lemma_positive_unless_epoch, Timestamp};

verus! {

/// The timestamp inside a recorded modification time is well formed.
pub open spec fn offset_wf(x: EpochOffset) -> bool {
    match x {
        EpochOffset::After(t) => t.wf(),
        EpochOffset::Before(d) => d.wf(),
    }
}

/// A recorded modification time gives a timestamp exactly when it is not
/// before the epoch, and that timestamp names the same instant.
pub proof fn lemma_offset_result(x: EpochOffset)
    requires
        offset_wf(x),
    ensures
        query_result(MetadataOutcome::Modified(x)) is Ok <==> offset_nanos(x) >= 0,
        query_result(MetadataOutcome::Modified(x)) matches Ok(t) ==> t.wf() && t.total_nanos()
            == offset_nanos(x),
{
    match x {
        EpochOffset::After(t) => lemma_positive_unless_epoch(t),
        EpochOffset::Before(d) => lemma_positive_unless_epoch(d),
    }
}

/// Where the filesystem reports a modification time at or after the epoch,
/// the query succeeds with exactly that time.
pub proof fn lemma_reported_time_is_returned(t: Timestamp)
    ensures
        query_result(MetadataOutcome::Modified(EpochOffset::After(t))) == Ok::<
            Timestamp,
            QueryError,
        >(t),
{
}

/// Every class of failure has a description that is not empty.
pub proof fn lemma_kind_text_nonempty(k: FailureKind)
    ensures
        kind_text(k).len() > 0,
{
    reveal_strlit("entity not found");
    reveal_strlit("permission denied");
    reveal_strlit("invalid input parameter");
    reveal_strlit("operation not supported on this platform");
    reveal_strlit("other error");
}

/// Every error reports a text that is not empty.
pub proof fn lemma_error_text_nonempty(e: QueryError)
    ensures
        message_of(e).len() > 0,
{
    reveal_strlit("modification time lies before the Unix epoch");
    match e {
        QueryError::Metadata(f) => lemma_kind_text_nonempty(f.kind),
        QueryError::ModifiedUnavailable(f) => lemma_kind_text_nonempty(f.kind),
        QueryError::BeforeEpoch(_) => {},
    }
}

/// A failed metadata read, whatever its cause (a missing entry, a denied
/// permission, an empty or malformed path), never yields a timestamp: it
/// yields an error that carries the failure and reports a text that is not
/// empty.
pub proof fn lemma_failed_read_is_error(f: IoFailure)
    ensures
        query_result(MetadataOutcome::MetadataFailed(f)) == Err::<Timestamp, QueryError>(
            QueryError::Metadata(f),
        ),
        message_of(QueryError::Metadata(f)).len() > 0,
{
    lemma_error_text_nonempty(QueryError::Metadata(f));
}

/// Metadata without a modification time never yields a made-up timestamp.
pub proof fn lemma_missing_time_is_error(f: IoFailure)
    ensures
        query_result(MetadataOutcome::ModifiedUnavailable(f)) is Err,
        message_of(QueryError::ModifiedUnavailable(f)).len() > 0,
{
    lemma_error_text_nonempty(QueryError::ModifiedUnavailable(f));
}

/// Two queries of an entry whose recorded modification time has not changed
/// give the same answer, however the instant is written.
pub proof fn lemma_unchanged_time_same_result(x: EpochOffset, y: EpochOffset)
    requires
        offset_wf(x),
        offset_wf(y),
        offset_nanos(x) == offset_nanos(y),
    ensures
        query_result(MetadataOutcome::Modified(x)) == query_result(MetadataOutcome::Modified(y)),
{
    lemma_offset_result(x);
    lemma_offset_result(y);
    match (x, y) {
        (EpochOffset::Before(a), EpochOffset::Before(b)) => {
            crate::timestamp::lemma_order_by_fields(a, b);
        },
        (EpochOffset::After(a), EpochOffset::After(b)) => {
            crate::timestamp::lemma_order_by_fields(a, b);
        },
        _ => {},
    }
}

/// Where the recorded modification time moves later between two queries and
/// the first gave a timestamp, the second gives a strictly later one.
pub proof fn lemma_later_time_later_result(x: EpochOffset, y: EpochOffset)
    requires
        offset_wf(x),
        offset_wf(y),
        offset_nanos(x) < offset_nanos(y),
        query_result(MetadataOutcome::Modified(x)) is Ok,
    ensures
        query_result(MetadataOutcome::Modified(y)) is Ok,
        query_result(MetadataOutcome::Modified(y))->Ok_0.total_nanos() > query_result(
            MetadataOutcome::Modified(x),
        )->Ok_0.total_nanos(),
{
    lemma_offset_result(x);
    lemma_offset_result(y);
}

} // verus!
