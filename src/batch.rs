//! Bounded-parallel dispatch of one request per identifier, with results kept
//! by input position whatever order the requests finish in.
use vstd::prelude::*;

verus! {

/// What one request produced.
#[derive(Debug, PartialEq, Eq)]
pub enum FetchOutcome {
    /// A successful response, with its raw payload.
    Body(String),
    /// A transport failure or a non-success status other than 401.
    Failed,
    /// HTTP 401: the credentials were refused; fatal for the whole run.
    Unauthorized,
}

/// How many requests a batch keeps in flight when none is configured.
pub const DEFAULT_PARALLEL_REQUESTS: usize = 8;

/// Number of requests among the first `k` slots that have no outcome yet.
pub open spec fn pending_in(s: Seq<Option<FetchOutcome>>, k: int) -> int
    decreases k,
{
    if k <= 0 {
        0
    } else {
        pending_in(s, k - 1) + if s[k - 1] is None { 1int } else { 0int }
    }
}

/// The slots after recording `o` as the outcome of request `i`, where
/// requests `0 .. started` have been dispatched: a slot that already holds an
/// outcome, or whose request has not been dispatched, is left as it was.
pub open spec fn record(s: Seq<Option<FetchOutcome>>, started: int, i: int, o: FetchOutcome) -> Seq<
    Option<FetchOutcome>,
> {
    if 0 <= i < started && i < s.len() && s[i] is None {
        s.update(i, Some(o))
    } else {
        s
    }
}

/// The slots of `n` requests after the completions `events` (request index,
/// outcome), recorded in the order given.
pub open spec fn record_all(n: nat, events: Seq<(int, FetchOutcome)>) -> Seq<Option<FetchOutcome>>
    decreases events.len(),
{
    if events.len() == 0 {
        Seq::new(n, |i: int| None)
    } else {
        let last = events.last();
        record(record_all(n, events.drop_last()), n as int, last.0, last.1)
    }
}

/// Every event names a request below `n`, and no two name the same one.
pub open spec fn distinct_in_range(n: nat, events: Seq<(int, FetchOutcome)>) -> bool {
    &&& forall|j: int| 0 <= j < events.len() ==> 0 <= #[trigger] events[j].0 < n
    &&& forall|j: int, l: int|
        0 <= j < events.len() && 0 <= l < events.len() && j != l ==> #[trigger] events[j].0
            != #[trigger] events[l].0
}

proof fn lemma_pending_update(s: Seq<Option<FetchOutcome>>, k: int, i: int, o: FetchOutcome)
    requires
        0 <= i < k <= s.len(),
        s[i] is None,
    ensures
        pending_in(s.update(i, Some(o)), k) == pending_in(s, k) - 1,
    decreases k,
{
    if k - 1 > i {
        lemma_pending_update(s, k - 1, i, o);
    } else {
        lemma_pending_unchanged(s, s.update(i, Some(o)), k - 1);
    }
}

proof fn lemma_pending_unchanged(s: Seq<Option<FetchOutcome>>, t: Seq<Option<FetchOutcome>>, k: int)
    requires
        0 <= k <= s.len(),
        k <= t.len(),
        forall|j: int| 0 <= j < k ==> s[j] == t[j],
    ensures
        pending_in(s, k) == pending_in(t, k),
    decreases k,
{
    if k > 0 {
        lemma_pending_unchanged(s, t, k - 1);
    }
}

proof fn lemma_no_pending(s: Seq<Option<FetchOutcome>>, k: int)
    requires
        0 <= k <= s.len(),
        pending_in(s, k) == 0,
    ensures
        forall|j: int| 0 <= j < k ==> s[j] is Some,
    decreases k,
{
    if k > 0 {
        lemma_pending_nonneg(s, k - 1);
        lemma_no_pending(s, k - 1);
    }
}

proof fn lemma_pending_nonneg(s: Seq<Option<FetchOutcome>>, k: int)
    ensures
        pending_in(s, k) >= 0,
    decreases k,
{
    if k > 0 {
        lemma_pending_nonneg(s, k - 1);
    }
}

/// Dispatch state for one batch of requests: which request starts next, how
/// many are in flight, and the outcome slot of each request.
pub struct FetchBatch {
    limit: usize,
    next: usize,
    active: usize,
    halted: bool,
    outcomes: Vec<Option<FetchOutcome>>,
}

impl FetchBatch {
    /// The number of requests in the batch.
    pub closed spec fn len(&self) -> nat {
        self.outcomes@.len()
    }

    /// The most requests that may be in flight at once.
    pub closed spec fn limit(&self) -> nat {
        self.limit as nat
    }

    /// Requests `0 .. started()` have been dispatched.
    pub closed spec fn started(&self) -> nat {
        self.next as nat
    }

    /// Requests dispatched and not yet completed.
    pub closed spec fn in_flight(&self) -> nat {
        self.active as nat
    }

    /// A request was answered with 401: nothing more is started.
    pub closed spec fn halted(&self) -> bool {
        self.halted
    }

    /// The outcome slot of each request, by input position.
    pub closed spec fn slots(&self) -> Seq<Option<FetchOutcome>> {
        self.outcomes@
    }

    pub closed spec fn wf(&self) -> bool {
        &&& self.limit >= 1
        &&& self.next <= self.outcomes@.len()
        &&& self.active <= self.limit
        &&& self.active == pending_in(self.outcomes@, self.next as int)
        &&& forall|j: int| self.next <= j < self.outcomes@.len() ==> #[trigger] self.outcomes@[j] is None
    }

    /// A batch of `len` requests, at most `limit` of them in flight at once.
    pub fn new(len: usize, limit: usize) -> (r: FetchBatch)
        requires
            limit >= 1,
        ensures
            r.wf(),
            r.len() == len,
            r.limit() == limit,
            r.started() == 0,
            r.in_flight() == 0,
            !r.halted(),
            r.slots() == Seq::new(len as nat, |i: int| None::<FetchOutcome>),
    {
        let mut outcomes: Vec<Option<FetchOutcome>> = Vec::new();
        let mut i: usize = 0;
        while i < len
            invariant
                i <= len,
                outcomes@.len() == i,
                forall|j: int| 0 <= j < i ==> #[trigger] outcomes@[j] is None,
            decreases len - i,
        {
            outcomes.push(None);
            i = i + 1;
        }
        let r = FetchBatch { limit, next: 0, active: 0, halted: false, outcomes };
        assert(r.outcomes@ =~= Seq::new(len as nat, |i: int| None::<FetchOutcome>));
        r
    }

    /// Starts the next request if one is waiting, fewer than the limit are
    /// in flight, and no request has been refused with 401; returns its
    /// input position.
    pub fn start_next(&mut self) -> (r: Option<usize>)
        requires
            old(self).wf(),
        ensures
            final(self).wf(),
            final(self).len() == old(self).len(),
            final(self).limit() == old(self).limit(),
            final(self).slots() == old(self).slots(),
            final(self).halted() == old(self).halted(),
            if !old(self).halted() && old(self).in_flight() < old(self).limit() && old(self).started()
                < old(self).len() {
                &&& r == Some(old(self).started() as usize)
                &&& final(self).started() == old(self).started() + 1
                &&& final(self).in_flight() == old(self).in_flight() + 1
            } else {
                &&& r is None
                &&& final(self).started() == old(self).started()
                &&& final(self).in_flight() == old(self).in_flight()
            },
    {
        if !self.halted && self.active < self.limit && self.next < self.outcomes.len() {
            let i = self.next;
            proof {
                lemma_pending_nonneg(self.outcomes@, i as int);
            }
            self.next = i + 1;
            self.active = self.active + 1;
            Some(i)
        } else {
            None
        }
    }

    /// Records `outcome` as the result of the request at position `index`.
    /// Returns false, and changes nothing, unless that request is in flight.
    /// A recorded 401 halts the batch.
    pub fn complete(&mut self, index: usize, outcome: FetchOutcome) -> (r: bool)
        requires
            old(self).wf(),
        ensures
            final(self).wf(),
            final(self).len() == old(self).len(),
            final(self).limit() == old(self).limit(),
            final(self).started() == old(self).started(),
            r == (index < old(self).started() && old(self).slots()[index as int] is None),
            final(self).slots() == record(old(self).slots(), old(self).started() as int, index as int, outcome),
            final(self).in_flight() == if r { old(self).in_flight() - 1 } else { old(self).in_flight() as int },
            final(self).halted() == (old(self).halted() || (r && outcome == FetchOutcome::Unauthorized)),
    {
        if index < self.next && self.outcomes[index].is_none() {
            let refused = match &outcome {
                FetchOutcome::Unauthorized => true,
                _ => false,
            };
            proof {
                lemma_pending_update(self.outcomes@, self.next as int, index as int, outcome);
                lemma_pending_nonneg(self.outcomes@.update(index as int, Some(outcome)), self.next as int);
            }
            self.outcomes.set(index, Some(outcome));
            self.active = self.active - 1;
            self.halted = self.halted || refused;
            true
        } else {
            false
        }
    }

    /// True once a request has been refused with 401.
    pub fn is_halted(&self) -> (r: bool)
        ensures
            r == self.halted(),
    {
        self.halted
    }

    /// True once every request has been started and has completed.
    pub fn is_done(&self) -> (r: bool)
        requires
            self.wf(),
        ensures
            r == (self.started() == self.len() && self.in_flight() == 0),
            r ==> forall|j: int| 0 <= j < self.len() ==> #[trigger] self.slots()[j] is Some,
    {
        proof {
            if self.next == self.outcomes@.len() && self.active == 0 {
                lemma_no_pending(self.outcomes@, self.next as int);
            }
        }
        self.next == self.outcomes.len() && self.active == 0
    }

    /// The outcomes in input order, one per request, once the batch is done;
    /// `None` while a request is still waiting or in flight.
    pub fn into_outcomes(self) -> (r: Option<Vec<FetchOutcome>>)
        requires
            self.wf(),
        ensures
            r is Some <==> (self.started() == self.len() && self.in_flight() == 0),
            r matches Some(v) ==> {
                &&& v@.len() == self.len()
                &&& forall|j: int| 0 <= j < v@.len() ==> self.slots()[j] == Some(#[trigger] v@[j])
            },
    {
        if !self.is_done() {
            return None;
        }
        let ghost orig = self.outcomes@;
        let mut slots = self.outcomes;
        let mut out: Vec<FetchOutcome> = Vec::new();
        let mut i: usize = 0;
        while i < slots.len()
            invariant
                slots@.len() == orig.len(),
                i <= orig.len(),
                out@.len() == i,
                forall|j: int| i <= j < orig.len() ==> #[trigger] slots@[j] == orig[j],
                forall|j: int| 0 <= j < orig.len() ==> #[trigger] orig[j] is Some,
                forall|j: int| 0 <= j < i ==> orig[j] == Some(#[trigger] out@[j]),
            decreases orig.len() - i,
        {
            let mut slot: Option<FetchOutcome> = None;
            slots.set_and_swap(i, &mut slot);
            match slot {
                Some(o) => out.push(o),
                None => {
                    assert(false);
                },
            }
            i = i + 1;
        }
        Some(out)
    }
}

/// Whatever the limit, a well-formed batch never has more requests in flight
/// than its limit, and each in-flight request is one started and not yet
/// recorded.
pub proof fn lemma_in_flight_within_limit(b: &FetchBatch)
    requires
        b.wf(),
    ensures
        b.limit() >= 1,
        b.in_flight() <= b.limit(),
        b.in_flight() == pending_in(b.slots(), b.started() as int),
        b.started() <= b.len(),
{
}

/// Recording completions puts each outcome in the slot of the request it
/// belongs to, whatever order they arrive in: with distinct request indices,
/// a request's slot holds exactly the outcome given for it, and the slot of a
/// request not named is empty.
pub proof fn lemma_outcomes_by_position(n: nat, events: Seq<(int, FetchOutcome)>)
    requires
        distinct_in_range(n, events),
    ensures
        record_all(n, events).len() == n,
        forall|j: int| 0 <= j < events.len() ==> record_all(n, events)[#[trigger] events[j].0] == Some(events[j].1),
        forall|k: int|
            0 <= k < n && (forall|j: int| 0 <= j < events.len() ==> #[trigger] events[j].0 != k)
                ==> record_all(n, events)[k] is None,
    decreases events.len(),
{
    if events.len() > 0 {
        let init = events.drop_last();
        assert(distinct_in_range(n, init)) by {
            assert forall|j: int, l: int|
                0 <= j < init.len() && 0 <= l < init.len() && j != l implies #[trigger] init[j].0
                != #[trigger] init[l].0 by {
                assert(init[j] == events[j] && init[l] == events[l]);
            }
            assert forall|j: int| 0 <= j < init.len() implies 0 <= #[trigger] init[j].0 < n by {
                assert(init[j] == events[j]);
            }
        }
        lemma_outcomes_by_position(n, init);
        let last = events.last();
        let li = events.len() - 1;
        assert(forall|j: int| 0 <= j < init.len() ==> #[trigger] init[j].0 != last.0) by {
            assert forall|j: int| 0 <= j < init.len() implies #[trigger] init[j].0 != last.0 by {
                assert(init[j] == events[j]);
                assert(events[j].0 != events[li].0);
            }
        }
        assert forall|j: int| 0 <= j < events.len() implies record_all(n, events)[#[trigger] events[j].0] == Some(events[j].1) by {
            if j < li {
                assert(init[j] == events[j]);
            }
        }
        assert forall|k: int|
            0 <= k < n && (forall|j: int| 0 <= j < events.len() ==> #[trigger] events[j].0 != k)
            implies record_all(n, events)[k] is None by {
            assert forall|j: int| 0 <= j < init.len() implies #[trigger] init[j].0 != k by {
                assert(init[j] == events[j]);
            }
            assert(events[li].0 != k);
        }
    }
}

/// The order in which requests complete does not matter: recording the same
/// completions, each for a distinct request, in two different orders gives
/// the same slots.
pub proof fn lemma_completion_order_irrelevant(
    n: nat,
    first: Seq<(int, FetchOutcome)>,
    second: Seq<(int, FetchOutcome)>,
)
    requires
        distinct_in_range(n, first),
        distinct_in_range(n, second),
        first.to_multiset() == second.to_multiset(),
    ensures
        record_all(n, first) == record_all(n, second),
{
    lemma_outcomes_by_position(n, first);
    lemma_outcomes_by_position(n, second);
    let a = record_all(n, first);
    let b = record_all(n, second);
    assert forall|k: int| 0 <= k < n implies a[k] == b[k] by {
        if exists|j: int| 0 <= j < first.len() && #[trigger] first[j].0 == k {
            let j = choose|j: int| 0 <= j < first.len() && #[trigger] first[j].0 == k;
            let ev = first[j];
            assert(first.contains(ev));
            vstd::seq_lib::to_multiset_contains(first, ev);
            vstd::seq_lib::to_multiset_contains(second, ev);
            let l = choose|l: int| 0 <= l < second.len() && second[l] == ev;
            assert(b[second[l].0] == Some(second[l].1));
        } else {
            if exists|l: int| 0 <= l < second.len() && #[trigger] second[l].0 == k {
                let l = choose|l: int| 0 <= l < second.len() && #[trigger] second[l].0 == k;
                let ev = second[l];
                assert(second.contains(ev));
                vstd::seq_lib::to_multiset_contains(second, ev);
                vstd::seq_lib::to_multiset_contains(first, ev);
                let j = choose|j: int| 0 <= j < first.len() && first[j] == ev;
                assert(first[j].0 == k);
            }
        }
    }
    assert(a =~= b);
}

} // verus!
