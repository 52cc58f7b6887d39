use vstd::prelude::*;

use crate::timestamp::Timestamp;

verus! {

/// The broad class of a filesystem failure.
#[derive(PartialEq, Eq, Structural, Clone, Copy, Debug)]
pub enum FailureKind {
    NotFound,
    PermissionDenied,
    InvalidInput,
    Unsupported,
    Other,
}

/// A filesystem failure: its class and the description the platform gave.
#[derive(Clone, Debug)]
pub struct IoFailure {
    pub kind: FailureKind,
    pub description: String,
}

/// A modification time as the filesystem recorded it: a distance after or
/// before the Unix epoch.
#[derive(PartialEq, Eq, Structural, Clone, Copy, Debug)]
pub enum EpochOffset {
    After(Timestamp),
    Before(Timestamp),
}

/// What a metadata read for one path produced.
#[derive(Clone, Debug)]
pub enum MetadataOutcome {
    /// The metadata could not be read.
    MetadataFailed(IoFailure),
    /// The metadata was read, but it holds no modification time.
    ModifiedUnavailable(IoFailure),
    /// The metadata was read and holds this modification time.
    Modified(EpochOffset),
}

/// Why no timestamp could be given for a path.
#[derive(Clone, Debug)]
pub enum QueryError {
    /// Reading the metadata failed.
    Metadata(IoFailure),
    /// The platform supplies no modification time for the entry.
    ModifiedUnavailable(IoFailure),
    /// The modification time lies this far before the Unix epoch, which no
    /// timestamp can hold.
    BeforeEpoch(Timestamp),
}

/// The signed distance of a recorded modification time from the epoch.
pub open spec fn offset_nanos(x: EpochOffset) -> int {
    match x {
        EpochOffset::After(t) => t.total_nanos(),
        EpochOffset::Before(d) => -d.total_nanos(),
    }
}

/// The timestamp for a recorded modification time, or the error when it lies
/// before the epoch. A distance of zero before the epoch is the epoch itself.
pub open spec fn offset_result(x: EpochOffset) -> Result<Timestamp, QueryError> {
    match x {
        EpochOffset::After(t) => Ok(t),
        EpochOffset::Before(d) => if d.secs == 0 && d.nanos == 0 {
            Ok(Timestamp { secs: 0, nanos: 0 })
        } else {
            Err(QueryError::BeforeEpoch(d))
        },
    }
}

/// The answer owed for a metadata read.
pub open spec fn query_result(o: MetadataOutcome) -> Result<Timestamp, QueryError> {
    match o {
        MetadataOutcome::MetadataFailed(f) => Err(QueryError::Metadata(f)),
        MetadataOutcome::ModifiedUnavailable(f) => Err(QueryError::ModifiedUnavailable(f)),
        MetadataOutcome::Modified(x) => offset_result(x),
    }
}

/// A fixed description of each class of failure.
pub open spec fn kind_text(k: FailureKind) -> Seq<char> {
    match k {
        FailureKind::NotFound => "entity not found"@,
        FailureKind::PermissionDenied => "permission denied"@,
        FailureKind::InvalidInput => "invalid input parameter"@,
        FailureKind::Unsupported => "operation not supported on this platform"@,
        FailureKind::Other => "other error"@,
    }
}

/// The text of a failure: the platform's description, or the description of
/// its class where the platform gave none.
pub open spec fn failure_text(f: IoFailure) -> Seq<char> {
    if f.description@.len() > 0 {
        f.description@
    } else {
        kind_text(f.kind)
    }
}

/// The text of an error as the boundary reports it.
pub open spec fn message_of(e: QueryError) -> Seq<char> {
    match e {
        QueryError::Metadata(f) => failure_text(f),
        QueryError::ModifiedUnavailable(f) => failure_text(f),
        QueryError::BeforeEpoch(_) => "modification time lies before the Unix epoch"@,
    }
}

impl FailureKind {
    /// The fixed description of this class of failure.
    pub fn text(&self) -> (r: String)
        ensures
            r@ == kind_text(*self),
    {
        match self {
            FailureKind::NotFound => String::from_str("entity not found"),
            FailureKind::PermissionDenied => String::from_str("permission denied"),
            FailureKind::InvalidInput => String::from_str("invalid input parameter"),
            FailureKind::Unsupported => String::from_str(
                "operation not supported on this platform",
            ),
            FailureKind::Other => String::from_str("other error"),
        }
    }
}

impl IoFailure {
    /// The text of this failure, never empty.
    pub fn text(&self) -> (r: String)
        ensures
            r@ == failure_text(*self),
    {
        if self.description.as_str().unicode_len() > 0 {
            self.description.clone()
        } else {
            self.kind.text()
        }
    }
}

impl QueryError {
    /// Flattens the error to the text that the boundary reports.
    pub fn message(&self) -> (r: String)
        ensures
            r@ == message_of(*self),
    {
        match self {
            QueryError::Metadata(f) => f.text(),
            QueryError::ModifiedUnavailable(f) => f.text(),
            QueryError::BeforeEpoch(_) => String::from_str(
                "modification time lies before the Unix epoch",
            ),
        }
    }
}

/// Decides the timestamp for a recorded modification time.
pub fn timestamp_of_offset(x: EpochOffset) -> (r: Result<Timestamp, QueryError>)
    ensures
        r == offset_result(x),
{
    match x {
        EpochOffset::After(t) => Ok(t),
        EpochOffset::Before(d) => {
            if d.secs == 0 && d.nanos == 0 {
                Ok(Timestamp { secs: 0, nanos: 0 })
            } else {
                Err(QueryError::BeforeEpoch(d))
            }
        },
    }
}

/// The last-modified timestamp from a metadata read, or the structured error.
pub fn modified_time_of(o: MetadataOutcome) -> (r: Result<Timestamp, QueryError>)
    ensures
        r == query_result(o),
{
    match o {
        MetadataOutcome::MetadataFailed(f) => Err(QueryError::Metadata(f)),
        MetadataOutcome::ModifiedUnavailable(f) => Err(QueryError::ModifiedUnavailable(f)),
        MetadataOutcome::Modified(x) => timestamp_of_offset(x),
    }
}

/// The last-modified timestamp from a metadata read, or the error flattened
/// to its text.
pub fn modified_time(o: MetadataOutcome) -> (r: Result<Timestamp, String>)
    ensures
        match query_result(o) {
            Ok(t) => r == Ok::<Timestamp, String>(t),
            Err(e) => r matches Err(m) && m@ == message_of(e),
        },
{
    match modified_time_of(o) {
        Ok(t) => Ok(t),
        Err(e) => Err(e.message()),
    }
}

} // verus!
