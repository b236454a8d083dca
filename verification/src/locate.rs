//! Locating a table by its signature, one enumeration answer at a time.
//!
//! The firmware's table enumeration is queried by index: 0, 1, 2, and so on.
//! Each answer either carries a table or reports failure. The locator walks
//! the answers in order and stops at the first that decides: a failure ends
//! the search with an error, a table with the requested signature ends it
//! with that table. Every other answer moves the cursor to the next index.
//!
//! A failure is final whatever its cause: the enumeration reports the end of
//! its tables in the same way as a genuine error, and the locator does not
//! tell the two apart.

use crate::efi::{is_success, status_is_success};
use crate::AcpiHeadeds;
use vstd::prelude::*;

verus! {

/// The code that `EfiAcpiTableVersion::VersionNone` stands for: the version that a
/// fresh cursor hands to the enumeration.
pub const VERSION_NONE: u32 = 1;

/// One answer of the table enumeration.
#[derive(Debug, PartialEq, Eq)]
pub struct TableReply {
    /// The raw status code of the call. Any code but 0 is a failure.
    pub status: usize,
    /// The memory region of the table that the call pointed at. It means
    /// nothing where the call failed.
    pub bytes: Vec<u8>,
    /// The ACPI versions that the call tagged the table with, as a bitmap.
    pub version: u32,
    /// The token that the call issued for the table.
    pub table_key: usize,
}

/// The state of one search: where to query next, and the version and token
/// that the last answer carried, which go back into the next query unread.
#[derive(Clone, Copy, Debug, PartialEq, Eq)]
pub struct EnumerationCursor {
    pub index: usize,
    pub version: u32,
    pub table_key: usize,
}

/// Why a search ended without a table.
#[derive(Clone, Copy, Debug, PartialEq, Eq)]
pub enum LocateError {
    /// The enumeration reported failure, with this status code. This is also
    /// how a search for a table that does not exist ends.
    EnumerationFailed { status: usize },
}

/// What the locator decides after one answer.
#[derive(Debug, PartialEq, Eq)]
pub enum LocateStep<T> {
    /// The answer held another table: query the enumeration at the cursor.
    Query(EnumerationCursor),
    /// The answer held the requested table.
    Found(T),
    /// The answer was a failure.
    Failed(LocateError),
}

/// The outcome of a whole search and the number of queries that it took.
#[derive(Debug, PartialEq, Eq)]
pub struct LocateReport<T> {
    pub result: Result<T, LocateError>,
    pub calls: usize,
}

/// Whether `reply` can be decoded as a `T` wherever it carries a table: the
/// region of a successful answer must hold a whole table of that type.
pub open spec fn fits<T: AcpiHeadeds>(reply: TableReply) -> bool {
    is_success(reply.status) ==> reply.bytes@.len() >= T::SIZE
}

/// Whether `reply` carries a table with the signature of `T`.
pub open spec fn matches<T: AcpiHeadeds>(reply: TableReply) -> bool {
    is_success(reply.status) && T::decoded(reply.bytes@).spec_header().signature == T::ACPI_TYPE
}

/// Whether the search goes on after `reply`: it carries a table, but with
/// another signature.
pub open spec fn passes_over<T: AcpiHeadeds>(reply: TableReply) -> bool {
    is_success(reply.status) && !matches::<T>(reply)
}

/// The result that a deciding answer gives the search.
pub open spec fn verdict<T: AcpiHeadeds>(reply: TableReply) -> Result<T, LocateError>
    recommends
        !passes_over::<T>(reply),
{
    if is_success(reply.status) {
        Ok(T::decoded(reply.bytes@))
    } else {
        Err(LocateError::EnumerationFailed { status: reply.status })
    }
}

/// What the locator decides when `reply` answers the query at `cursor`.
pub open spec fn step_spec<T: AcpiHeadeds>(cursor: EnumerationCursor, reply: TableReply)
    -> LocateStep<T> {
    if !is_success(reply.status) {
        LocateStep::Failed(LocateError::EnumerationFailed { status: reply.status })
    } else if matches::<T>(reply) {
        LocateStep::Found(T::decoded(reply.bytes@))
    } else {
        LocateStep::Query(
            EnumerationCursor {
                index: (cursor.index + 1) as usize,
                version: reply.version,
                table_key: reply.table_key,
            },
        )
    }
}

/// The position of the first answer at or after `from` that decides the
/// search, or the number of answers if none does.
pub open spec fn decision_index<T: AcpiHeadeds>(replies: Seq<TableReply>, from: int) -> int
    decreases replies.len() - from,
{
    if from < 0 || from >= replies.len() || !passes_over::<T>(replies[from]) {
        from
    } else {
        decision_index::<T>(replies, from + 1)
    }
}

/// Whether the search over `replies` is decided by the answer at `k`: all
/// earlier answers are passed over, and this one is not.
pub open spec fn decides_at<T: AcpiHeadeds>(replies: Seq<TableReply>, k: int) -> bool {
    &&& 0 <= k < replies.len()
    &&& forall|j: int| 0 <= j < k ==> passes_over::<T>(#[trigger] replies[j])
    &&& !passes_over::<T>(replies[k])
}

/// The result of the search over `replies`, which holds a deciding answer.
pub open spec fn located<T: AcpiHeadeds>(replies: Seq<TableReply>) -> Result<T, LocateError> {
    verdict::<T>(replies[decision_index::<T>(replies, 0)])
}

/// The number of queries that the search over `replies` makes: one for each
/// answer up to the deciding one.
pub open spec fn calls_made<T: AcpiHeadeds>(replies: Seq<TableReply>) -> int {
    decision_index::<T>(replies, 0) + 1
}

impl EnumerationCursor {
    /// The cursor of a fresh search: index 0, no version, token 0.
    pub fn new() -> (cursor: EnumerationCursor)
        ensures
            cursor == (EnumerationCursor { index: 0, version: VERSION_NONE, table_key: 0 }),
    {
        EnumerationCursor { index: 0, version: VERSION_NONE, table_key: 0 }
    }

    /// Decides what follows from `reply`, the answer to the query at this
    /// cursor.
    ///
    /// The region of a successful answer must hold a whole `T`, and a search
    /// cannot go on beyond the last index that exists.
    pub fn step<T: AcpiHeadeds>(self, reply: &TableReply) -> (next: LocateStep<T>)
        requires
            fits::<T>(*reply),
            passes_over::<T>(*reply) ==> self.index < usize::MAX,
        ensures
            next == step_spec::<T>(self, *reply),
    {
        if !status_is_success(reply.status) {
            return LocateStep::Failed(LocateError::EnumerationFailed { status: reply.status });
        }
        let table = T::decode(reply.bytes.as_slice()).unwrap();
        if table.get_header().signature() == T::ACPI_TYPE {
            LocateStep::Found(table)
        } else {
            LocateStep::Query(
                EnumerationCursor {
                    index: self.index + 1,
                    version: reply.version,
                    table_key: reply.table_key,
                },
            )
        }
    }
}

/// Whether every answer that the search over `replies` consults can be
/// decoded as a `T` where it carries a table. Answers after the deciding one
/// are never consulted.
pub open spec fn fits_until_decided<T: AcpiHeadeds>(replies: Seq<TableReply>) -> bool {
    forall|i: int|
        0 <= i <= decision_index::<T>(replies, 0) && i < replies.len() ==> fits::<T>(
            #[trigger] replies[i],
        )
}

/// Whether the enumeration that answers with `replies` comes to an end: its
/// last answer is a failure.
pub open spec fn ends_in_failure(replies: Seq<TableReply>) -> bool {
    replies.len() > 0 && !is_success(replies.last().status)
}

/// The decision index from `from` on does not lie before `from`.
pub proof fn lemma_decision_index_from<T: AcpiHeadeds>(replies: Seq<TableReply>, from: int)
    ensures
        decision_index::<T>(replies, from) >= from,
    decreases replies.len() - from,
{
    if 0 <= from < replies.len() && passes_over::<T>(replies[from]) {
        lemma_decision_index_from::<T>(replies, from + 1);
    }
}

/// The answer at `k` decides the search if all answers from `from` up to it
/// are passed over and it is not.
pub proof fn lemma_decision_index<T: AcpiHeadeds>(replies: Seq<TableReply>, from: int, k: int)
    requires
        0 <= from <= k < replies.len(),
        forall|j: int| from <= j < k ==> passes_over::<T>(#[trigger] replies[j]),
        !passes_over::<T>(replies[k]),
    ensures
        decision_index::<T>(replies, from) == k,
    decreases k - from,
{
    if from < k {
        assert(passes_over::<T>(replies[from]));
        lemma_decision_index::<T>(replies, from + 1, k);
    }
}

/// First match wins. Where the enumeration answers its first `n` queries
/// with tables, of which only the one at `k` carries the signature of `T`,
/// the search returns that table, decoded, and makes exactly `k + 1` queries.
pub proof fn lemma_first_match_wins<T: AcpiHeadeds>(replies: Seq<TableReply>, n: int, k: int)
    requires
        0 <= k < n <= replies.len(),
        forall|i: int| 0 <= i < n ==> is_success((#[trigger] replies[i]).status),
        forall|i: int| 0 <= i < n ==> (matches::<T>(#[trigger] replies[i]) <==> i == k),
    ensures
        decides_at::<T>(replies, k),
        located::<T>(replies) == Ok::<T, LocateError>(T::decoded(replies[k].bytes@)),
        calls_made::<T>(replies) == k + 1,
{
    assert forall|j: int| 0 <= j < k implies passes_over::<T>(#[trigger] replies[j]) by {
        assert(is_success(replies[j].status));
        assert(!matches::<T>(replies[j]));
    }
    assert(matches::<T>(replies[k]));
    lemma_decision_index::<T>(replies, 0, k);
}

/// No match exhausts to failure. Where the enumeration answers its first `n`
/// queries with tables, none of which carries the signature of `T`, and fails
/// on the next, the search returns `EnumerationFailed` with the status of
/// that failure, after exactly `n + 1` queries.
pub proof fn lemma_no_match_fails<T: AcpiHeadeds>(replies: Seq<TableReply>, n: int)
    requires
        0 <= n < replies.len(),
        forall|i: int| 0 <= i < n ==> passes_over::<T>(#[trigger] replies[i]),
        !is_success(replies[n].status),
    ensures
        decides_at::<T>(replies, n),
        located::<T>(replies) == Err::<T, LocateError>(
            LocateError::EnumerationFailed { status: replies[n].status },
        ),
        calls_made::<T>(replies) == n + 1,
{
    lemma_decision_index::<T>(replies, 0, n);
}

/// Immediate failure propagates. Where the enumeration fails on the very
/// first query, the search returns `EnumerationFailed` with the status of
/// that failure and makes no second query.
pub proof fn lemma_immediate_failure<T: AcpiHeadeds>(replies: Seq<TableReply>)
    requires
        replies.len() > 0,
        !is_success(replies[0].status),
    ensures
        located::<T>(replies) == Err::<T, LocateError>(
            LocateError::EnumerationFailed { status: replies[0].status },
        ),
        calls_made::<T>(replies) == 1,
{
    lemma_no_match_fails::<T>(replies, 0);
}

/// The answer that decides a search is the only one that could: a search is
/// decided at `k` exactly if `k` is its decision index.
pub proof fn lemma_decision_is_unique<T: AcpiHeadeds>(replies: Seq<TableReply>, k: int)
    requires
        decides_at::<T>(replies, k),
    ensures
        decision_index::<T>(replies, 0) == k,
{
    lemma_decision_index::<T>(replies, 0, k);
}

/// The locator moves on exactly over the answers that are passed over, and
/// then to the next index; every other answer ends the search with its
/// verdict.
pub proof fn lemma_step_follows_verdict<T: AcpiHeadeds>(cursor: EnumerationCursor, reply: TableReply)
    ensures
        passes_over::<T>(reply) <==> step_spec::<T>(cursor, reply) is Query,
        step_spec::<T>(cursor, reply) matches LocateStep::Query(next) ==> next.index == (
        cursor.index + 1) as usize,
        step_spec::<T>(cursor, reply) matches LocateStep::Found(table) ==> verdict::<T>(reply)
            == Ok::<T, LocateError>(table),
        step_spec::<T>(cursor, reply) matches LocateStep::Failed(error) ==> verdict::<T>(reply)
            == Err::<T, LocateError>(error),
{
}

} // verus!
