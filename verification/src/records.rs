//! The data that flows through a sync run: record summaries and details,
//! the outcome of one detail fetch, and the spec-level projection that says
//! which details a sequence of outcomes keeps.

use vstd::prelude::*;

verus! {

/// A lightweight reference to one remote record: just enough to request its
/// full detail.
#[derive(Clone, Copy, PartialEq, Eq, Structural, Debug)]
pub struct RecordSummary {
    pub id: u64,
}

/// A fully hydrated record, resolved from one summary. This is the unit that
/// is handed to storage.
#[derive(Clone, Copy, PartialEq, Eq, Structural, Debug)]
pub struct RecordDetail {
    pub id: u64,
    pub amount: u64,
}

/// A transport-level failure of a listing or detail request.
#[derive(Clone, Copy, PartialEq, Eq, Structural, Debug)]
pub struct FetchError {
}

/// A failure of the storage collaborator's bulk write.
#[derive(Clone, Copy, PartialEq, Eq, Structural, Debug)]
pub struct StorageError {
}

/// One page of the remote listing: the total number of records matching the
/// range (independent of the requested page size) and the summaries of the
/// requested window.
#[derive(PartialEq, Eq, Debug)]
pub struct PageResult {
    pub total_count: i32,
    pub items: Vec<RecordSummary>,
}

/// The outcome of resolving one summary into its detail.
///
/// A detail call can succeed with a payload, succeed at the transport level
/// but carry no usable payload, succeed with a payload variant the sync does
/// not consume, or fail at the transport level.
#[derive(Clone, Copy, PartialEq, Eq, Structural, Debug)]
pub enum DetailOutcome {
    WithDetail(RecordDetail),
    NoData,
    Ignored,
    TransportError,
}

/// The details that a sequence of outcomes keeps: the payloads of the
/// `WithDetail` outcomes, in the order the outcomes stand. `NoData` and
/// `Ignored` outcomes are simply absent, never reordered.
pub open spec fn kept_details(s: Seq<DetailOutcome>) -> Seq<RecordDetail>
    decreases s.len(),
{
    if s.len() == 0 {
        Seq::empty()
    } else {
        match s.last() {
            DetailOutcome::WithDetail(d) => kept_details(s.drop_last()).push(d),
            _ => kept_details(s.drop_last()),
        }
    }
}

/// Whether any outcome in the sequence is a transport-level failure.
pub open spec fn has_transport_error(s: Seq<DetailOutcome>) -> bool {
    exists|i: int| 0 <= i < s.len() && s[i] is TransportError
}

/// How many outcomes in the sequence carry no usable payload.
pub open spec fn no_data_count(s: Seq<DetailOutcome>) -> nat
    decreases s.len(),
{
    if s.len() == 0 {
        0
    } else {
        no_data_count(s.drop_last()) + if s.last() is NoData {
            1nat
        } else {
            0nat
        }
    }
}

/// Order preservation across windows: resolving the outcomes window by
/// window and concatenating what each window keeps yields exactly what the
/// whole outcome sequence keeps, in the same order.
pub proof fn lemma_kept_details_concat(a: Seq<DetailOutcome>, b: Seq<DetailOutcome>)
    ensures
        kept_details(a + b) == kept_details(a) + kept_details(b),
    decreases b.len(),
{
    if b.len() == 0 {
        assert(a + b =~= a);
        assert(kept_details(a) + kept_details(b) =~= kept_details(a));
    } else {
        lemma_kept_details_concat(a, b.drop_last());
        assert((a + b).drop_last() =~= a + b.drop_last());
        match b.last() {
            DetailOutcome::WithDetail(d) => {
                assert(kept_details(a) + kept_details(b) =~= (kept_details(a) + kept_details(
                    b.drop_last(),
                )).push(d));
            },
            _ => {},
        }
    }
}

/// Completeness under all-success: when every outcome carries a detail, the
/// kept sequence is as long as the outcome sequence.
pub proof fn lemma_all_success_complete(s: Seq<DetailOutcome>)
    requires
        forall|i: int| 0 <= i < s.len() ==> s[i] is WithDetail,
    ensures
        kept_details(s).len() == s.len(),
    decreases s.len(),
{
    if s.len() > 0 {
        lemma_all_success_complete(s.drop_last());
    }
}

/// Partial-failure exclusion: when every outcome either carries a detail or
/// reports no data, the kept sequence is shorter than the outcome sequence by
/// exactly the number of no-data outcomes, and no transport error occurs.
pub proof fn lemma_no_data_excluded(s: Seq<DetailOutcome>)
    requires
        forall|i: int| 0 <= i < s.len() ==> (s[i] is WithDetail || s[i] is NoData),
    ensures
        kept_details(s).len() + no_data_count(s) == s.len(),
        !has_transport_error(s),
    decreases s.len(),
{
    if s.len() > 0 {
        lemma_no_data_excluded(s.drop_last());
    }
}

} // verus!
