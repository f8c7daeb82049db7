//! The sync run's state machine. It drives the two-call listing protocol
//! (a minimal probe to learn the total count, then one full-size fetch),
//! resolves the listing window by window, accumulates the kept details in
//! listing order, and releases the complete batch to storage exactly once.
//!
//! The machine only decides; it performs no request itself. A driver asks it
//! for the next request or window, performs the outside work, and hands the
//! outcome back.

use vstd::prelude::*;

use crate::commands::DateRange;
use crate::records::has_transport_error;
use crate::records::kept_details;
use crate::records::DetailOutcome;
use crate::records::FetchError;
use crate::records::PageResult;
use crate::records::RecordDetail;
use crate::records::RecordSummary;
use crate::records::StorageError;
use crate::window::window_end;
use crate::window::window_end_spec;
use crate::window::Window;

verus! {

/// Where a run stands. Every run moves forward through these phases and
/// never back; any fatal error lands it in `Failed`.
#[derive(Clone, Copy, PartialEq, Eq, Structural, Debug)]
pub enum Phase {
    /// Probing the listing API for the total record count.
    DiscoveringCount,
    /// Fetching the complete listing in one full-size call.
    FetchingListing,
    /// Resolving summaries into details, one window at a time.
    Hydrating,
    /// Handing the accumulated batch to storage.
    Persisting,
    /// The run concluded.
    Done,
    /// A fatal error stopped the run; storage was never invoked.
    Failed,
}

/// One listing request: a 1-based page index and a page size that also caps
/// how many summaries come back.
#[derive(Clone, Copy, PartialEq, Eq, Structural, Debug)]
pub struct FetchRequest {
    pub page: i32,
    pub page_size: i32,
}

/// The sum of a sequence of increments.
pub open spec fn seq_sum(s: Seq<int>) -> int
    decreases s.len(),
{
    if s.len() == 0 {
        0
    } else {
        seq_sum(s.drop_last()) + s.last()
    }
}

/// The state of one sync run.
///
/// Beside the executable state, three ghost fields record the run's history:
/// every detail outcome ever handed in, in order; every progress increment
/// reported; and how often the batch was released to storage.
pub struct SyncRun {
    /// The inclusive date range the run covers, immutable for its lifetime.
    pub range: DateRange,
    pub phase: Phase,
    /// Width of the concurrency window.
    pub window_size: usize,
    /// The total record count the probe discovered.
    pub total_count: i32,
    /// The full listing, once fetched.
    pub listing: Vec<RecordSummary>,
    /// The details kept so far, in listing order.
    pub accumulated: Vec<RecordDetail>,
    /// How many summaries have been resolved so far.
    pub next_index: usize,
    /// Every detail outcome handed in so far, in order.
    pub history: Ghost<Seq<DetailOutcome>>,
    /// Every progress increment reported so far, in order.
    pub increments: Ghost<Seq<int>>,
    /// How often the accumulated batch was released to storage.
    pub persist_calls: Ghost<nat>,
}

impl SyncRun {
    /// The run's invariant, established by `new` and preserved by every
    /// transition.
    pub open spec fn inv(self) -> bool {
        &&& self.window_size >= 1
        &&& match self.phase {
            Phase::DiscoveringCount | Phase::FetchingListing => {
                &&& self.listing@.len() == 0
                &&& self.accumulated@.len() == 0
                &&& self.next_index == 0
                &&& self.history@.len() == 0
                &&& self.increments@.len() == 0
                &&& self.persist_calls@ == 0
            },
            Phase::Hydrating => {
                &&& self.hydration_inv()
                &&& self.persist_calls@ == 0
            },
            Phase::Persisting | Phase::Done => {
                &&& self.hydration_inv()
                &&& self.next_index == self.listing@.len()
                &&& self.persist_calls@ == 1
            },
            Phase::Failed => self.persist_calls@ == 0,
        }
    }

    /// What holds of the accumulated state from the first window on: the
    /// history covers exactly the resolved prefix of the listing, holds no
    /// transport error, and the accumulated details are exactly what it
    /// keeps; the increments are positive and sum to the resolved count.
    pub open spec fn hydration_inv(self) -> bool {
        &&& self.next_index <= self.listing@.len()
        &&& self.history@.len() == self.next_index
        &&& !has_transport_error(self.history@)
        &&& self.accumulated@ == kept_details(self.history@)
        &&& seq_sum(self.increments@) == self.next_index
        &&& forall|i: int| 0 <= i < self.increments@.len() ==> #[trigger] self.increments@[i] >= 1
    }

    /// A fresh run over the given range, about to probe for the count.
    pub fn new(range: DateRange, window_size: usize) -> (r: SyncRun)
        requires
            window_size >= 1,
        ensures
            r.inv(),
            r.phase is DiscoveringCount,
            r.range == range,
            r.window_size == window_size,
    {
        SyncRun {
            range,
            phase: Phase::DiscoveringCount,
            window_size,
            total_count: 0,
            listing: Vec::new(),
            accumulated: Vec::new(),
            next_index: 0,
            history: Ghost(Seq::empty()),
            increments: Ghost(Seq::empty()),
            persist_calls: Ghost(0),
        }
    }

    /// The minimal-cost probe of the two-call protocol: page 1 with page
    /// size 1, issued purely to learn the total count. Its listing content
    /// is discarded.
    pub fn count_probe_request(&self) -> (r: FetchRequest)
        requires
            self.phase is DiscoveringCount,
        ensures
            r.page == 1,
            r.page_size == 1,
    {
        FetchRequest { page: 1, page_size: 1 }
    }

    /// Take the probe's answer. On success only the total count is kept and
    /// the run moves on to fetching the listing; a failed probe is fatal.
    pub fn on_count_response(&mut self, response: Result<PageResult, FetchError>)
        requires
            old(self).inv(),
            old(self).phase is DiscoveringCount,
        ensures
            final(self).inv(),
            response matches Ok(p) ==> final(self).phase is FetchingListing
                && final(self).total_count == p.total_count,
            response is Err ==> final(self).phase is Failed,
            final(self).range == old(self).range,
            final(self).window_size == old(self).window_size,
            final(self).persist_calls@ == 0,
    {
        match response {
            Ok(p) => {
                self.total_count = p.total_count;
                self.phase = Phase::FetchingListing;
            },
            Err(_) => {
                self.phase = Phase::Failed;
            },
        }
    }

    /// The second call of the protocol: page 1 again, with the discovered
    /// total count as the page size, so the whole listing comes in one call.
    pub fn listing_request(&self) -> (r: FetchRequest)
        requires
            self.phase is FetchingListing,
        ensures
            r.page == 1,
            r.page_size == self.total_count,
    {
        FetchRequest { page: 1, page_size: self.total_count }
    }

    /// Take the full listing. On success hydration begins at its start; a
    /// failed listing fetch is fatal.
    pub fn on_listing_response(&mut self, response: Result<PageResult, FetchError>)
        requires
            old(self).inv(),
            old(self).phase is FetchingListing,
        ensures
            final(self).inv(),
            response matches Ok(p) ==> final(self).phase is Hydrating
                && final(self).listing@ == p.items@ && final(self).next_index == 0
                && final(self).accumulated@.len() == 0,
            response is Err ==> final(self).phase is Failed,
            final(self).range == old(self).range,
            final(self).window_size == old(self).window_size,
            final(self).total_count == old(self).total_count,
            final(self).persist_calls@ == 0,
    {
        match response {
            Ok(p) => {
                self.listing = p.items;
                self.phase = Phase::Hydrating;
                proof {
                    assert(self.accumulated@ =~= kept_details(self.history@));
                }
            },
            Err(_) => {
                self.phase = Phase::Failed;
            },
        }
    }

    /// The bounds of the next window of detail fetches, or `None` once every
    /// summary is resolved. The window never holds more than `window_size`
    /// summaries, so no more than `window_size` requests run at once.
    pub fn next_window(&self) -> (r: Option<Window>)
        requires
            self.inv(),
            self.phase is Hydrating,
        ensures
            self.next_index < self.listing@.len() ==> (r matches Some(win) && win.start
                == self.next_index && win.end == window_end_spec(
                self.next_index as int,
                self.listing@.len() as int,
                self.window_size as int,
            ) && win.start < win.end <= self.listing@.len() && win.end - win.start
                <= self.window_size),
            self.next_index >= self.listing@.len() ==> r is None,
    {
        if self.next_index < self.listing.len() {
            let end = window_end(self.next_index, self.listing.len(), self.window_size);
            Some(Window { start: self.next_index, end })
        } else {
            None
        }
    }

    /// Take one window's outcomes, in the order the window's requests were
    /// issued. A transport-level failure anywhere in the window is fatal for
    /// the whole run and nothing of the window is accumulated. Otherwise
    /// every kept detail is appended in order, the resolved count advances
    /// past the window, and the window's size comes back as the progress
    /// increment.
    pub fn on_window_outcomes(&mut self, outcomes: Vec<DetailOutcome>) -> (r: Result<
        usize,
        FetchError,
    >)
        requires
            old(self).inv(),
            old(self).phase is Hydrating,
            old(self).next_index < old(self).listing@.len(),
            outcomes@.len() == window_end_spec(
                old(self).next_index as int,
                old(self).listing@.len() as int,
                old(self).window_size as int,
            ) - old(self).next_index,
        ensures
            final(self).inv(),
            has_transport_error(outcomes@) ==> (r is Err && final(self).phase is Failed),
            !has_transport_error(outcomes@) ==> (r matches Ok(inc) && inc == outcomes@.len()
                && final(self).phase is Hydrating && final(self).accumulated@ == old(
                self,
            ).accumulated@ + kept_details(outcomes@) && final(self).next_index == old(
                self,
            ).next_index + outcomes@.len() && final(self).history@ == old(self).history@
                + outcomes@ && final(self).increments@ == old(self).increments@.push(
                outcomes@.len() as int,
            )),
            final(self).range == old(self).range,
            final(self).window_size == old(self).window_size,
            final(self).total_count == old(self).total_count,
            final(self).listing@ == old(self).listing@,
            final(self).persist_calls@ == 0,
    {
        let n = outcomes.len();
        let mut j: usize = 0;
        while j < n
            invariant
                n == outcomes@.len(),
                j <= n,
                forall|k: int| 0 <= k < j ==> !(#[trigger] outcomes@[k] is TransportError),
                *self == *old(self),
                old(self).inv(),
                old(self).phase is Hydrating,
            decreases n - j,
        {
            match outcomes[j] {
                DetailOutcome::TransportError => {
                    self.phase = Phase::Failed;
                    return Err(FetchError {  });
                },
                _ => {},
            }
            j += 1;
        }

        let mut j: usize = 0;
        proof {
            assert(outcomes@.take(0int) =~= Seq::<DetailOutcome>::empty());
            assert(self.accumulated@ =~= self.accumulated@ + kept_details(outcomes@.take(0int)));
        }
        while j < n
            invariant
                n == outcomes@.len(),
                j <= n,
                self.accumulated@ == old(self).accumulated@ + kept_details(
                    outcomes@.take(j as int),
                ),
                self.phase == old(self).phase,
                self.range == old(self).range,
                self.window_size == old(self).window_size,
                self.total_count == old(self).total_count,
                self.listing@ == old(self).listing@,
                self.next_index == old(self).next_index,
                self.history@ == old(self).history@,
                self.increments@ == old(self).increments@,
                self.persist_calls@ == old(self).persist_calls@,
                old(self).inv(),
                old(self).phase is Hydrating,
                old(self).next_index < old(self).listing@.len(),
                n == window_end_spec(
                    old(self).next_index as int,
                    old(self).listing@.len() as int,
                    old(self).window_size as int,
                ) - old(self).next_index,
            decreases n - j,
        {
            proof {
                assert(outcomes@.take(j + 1).drop_last() =~= outcomes@.take(j as int));
                assert(outcomes@.take(j + 1).last() == outcomes@[j as int]);
            }
            match outcomes[j] {
                DetailOutcome::WithDetail(d) => {
                    self.accumulated.push(d);
                    proof {
                        assert(self.accumulated@ =~= old(self).accumulated@ + kept_details(
                            outcomes@.take(j + 1),
                        ));
                    }
                },
                _ => {
                    proof {
                        assert(self.accumulated@ =~= old(self).accumulated@ + kept_details(
                            outcomes@.take(j + 1),
                        ));
                    }
                },
            }
            j += 1;
        }
        proof {
            assert(outcomes@.take(n as int) =~= outcomes@);
            crate::records::lemma_kept_details_concat(old(self).history@, outcomes@);
            assert(!has_transport_error(old(self).history@ + outcomes@)) by {
                if has_transport_error(old(self).history@ + outcomes@) {
                    let h = old(self).history@;
                    let i = choose|i: int|
                        0 <= i < (h + outcomes@).len() && (h + outcomes@)[i] is TransportError;
                    if i < h.len() {
                        assert(h[i] is TransportError);
                    } else {
                        assert(outcomes@[i - h.len()] is TransportError);
                    }
                }
            }
            assert(self.increments@.push(n as int).drop_last() =~= self.increments@);
            assert(old(self).accumulated@ == kept_details(old(self).history@));
        }
        let len = self.listing.len();
        proof {
            assert(old(self).next_index + n <= len);
        }
        self.next_index = self.next_index + n;
        proof {
            self.history@ = self.history@ + outcomes@;
            self.increments@ = self.increments@.push(n as int);
        }
        Ok(n)
    }

    /// Whether every summary of the listing has been resolved.
    pub fn hydration_complete(&self) -> (r: bool)
        requires
            self.inv(),
            self.phase is Hydrating,
        ensures
            r == (self.next_index == self.listing@.len()),
    {
        self.next_index == self.listing.len()
    }

    /// Move to persistence. Callable only once hydration has resolved the
    /// whole listing; the run records that the batch is now released.
    pub fn begin_persist(&mut self)
        requires
            old(self).inv(),
            old(self).phase is Hydrating,
            old(self).next_index == old(self).listing@.len(),
        ensures
            final(self).inv(),
            final(self).phase is Persisting,
            final(self).persist_calls@ == old(self).persist_calls@ + 1,
            final(self).accumulated@ == old(self).accumulated@,
            final(self).range == old(self).range,
            final(self).window_size == old(self).window_size,
            final(self).total_count == old(self).total_count,
            final(self).listing@ == old(self).listing@,
            final(self).history@ == old(self).history@,
            final(self).increments@ == old(self).increments@,
    {
        self.phase = Phase::Persisting;
        proof {
            self.persist_calls@ = self.persist_calls@ + 1;
        }
    }

    /// The one batch that goes to storage: exactly the details the whole
    /// run's outcome history keeps, in listing order.
    pub fn batch(&self) -> (r: &Vec<RecordDetail>)
        requires
            self.inv(),
            self.phase is Persisting,
        ensures
            r@ == self.accumulated@,
            r@ == kept_details(self.history@),
    {
        &self.accumulated
    }

    /// Take the storage collaborator's answer and conclude the run. A
    /// storage failure is reported back for logging but does not open a
    /// distinct fatal path: the run still concludes.
    pub fn on_persist_response(&mut self, response: Result<(), StorageError>) -> (storage_failed:
        bool)
        requires
            old(self).inv(),
            old(self).phase is Persisting,
        ensures
            final(self).inv(),
            final(self).phase is Done,
            storage_failed == (response is Err),
            final(self).accumulated@ == old(self).accumulated@,
            final(self).range == old(self).range,
            final(self).total_count == old(self).total_count,
    {
        self.phase = Phase::Done;
        match response {
            Ok(()) => false,
            Err(_) => true,
        }
    }
}

/// Single persistence: any run satisfying the invariant has released its
/// batch to storage exactly once if it stands in `Persisting` or `Done`, and
/// not at all in any other phase — in particular never in `Failed`.
pub proof fn lemma_single_persistence(run: SyncRun)
    requires
        run.inv(),
    ensures
        (run.phase is Persisting || run.phase is Done) ==> run.persist_calls@ == 1,
        !(run.phase is Persisting || run.phase is Done) ==> run.persist_calls@ == 0,
{
}

/// Progress monotonicity: every reported increment is positive, and once
/// hydration has resolved the whole listing the increments sum exactly to
/// the listing length.
pub proof fn lemma_progress_total(run: SyncRun)
    requires
        run.inv(),
        run.phase is Hydrating || run.phase is Persisting || run.phase is Done,
    ensures
        forall|i: int| 0 <= i < run.increments@.len() ==> #[trigger] run.increments@[i] >= 1,
        run.next_index == run.listing@.len() ==> seq_sum(run.increments@) == run.listing@.len(),
{
}

} // verus!
