//! Session state: the shared document index, the generation limit, and the
//! work-distribution model.
//!
//! A session owns one monotonically increasing index counter and, when
//! configured, one generation limit. Every worker performs a single
//! indivisible check-and-increment against the limit before each document it
//! emits, and pulls the index counter once per document that renders it.
//! `run_session` models a whole session under an arbitrary interleaving of
//! worker turns and shows that the guarantees hold whatever the schedule:
//! exactly `min(total, limit)` documents, and index values `0..total-1` with
//! none skipped and none repeated.
use vstd::prelude::*;

verus! {

use core::sync::atomic::AtomicU64;
use core::sync::atomic::Ordering;
use std::sync::Arc;

use crate::scheduler::split;
use crate::scheduler::sum_spec;

/// Session-scoped monotonically increasing document index.
///
/// This is the owned form the contracts speak of; `SharedIndex` is the
/// handle that lets several workers pull from one counter.
pub struct IndexCounter {
    value: u64,
}

impl IndexCounter {
    /// The value the next pull will return.
    pub closed spec fn spec_value(&self) -> u64 {
        self.value
    }

    /// A fresh counter; the first pull of a session returns 0.
    pub fn new() -> (r: IndexCounter)
        ensures
            r.spec_value() == 0,
    {
        IndexCounter { value: 0 }
    }

    /// Returns the current index and advances it by one: over a session no
    /// value is skipped and none is repeated.
    pub fn next(&mut self) -> (r: u64)
        requires
            old(self).spec_value() < u64::MAX,
        ensures
            r == old(self).spec_value(),
            final(self).spec_value() == old(self).spec_value() + 1,
    {
        let v = self.value;
        self.value = self.value + 1;
        v
    }
}

/// Pulls the index `n` times and returns the values in pull order: they are
/// exactly `start, start + 1, ..., start + n - 1`, where `start` is the
/// counter's value before the first pull. A fresh counter pulled `n` times
/// therefore yields exactly `0, 1, ..., n - 1`, in order.
pub fn index_sequence(counter: &mut IndexCounter, n: u64) -> (r: Vec<u64>)
    requires
        old(counter).spec_value() + n <= u64::MAX,
    ensures
        r@ == Seq::new(n as nat, |i: int| (old(counter).spec_value() + i) as u64),
        final(counter).spec_value() == old(counter).spec_value() + n,
{
    let ghost start = counter.spec_value();
    let mut r: Vec<u64> = Vec::new();
    let mut k: u64 = 0;
    while k < n
        invariant
            k <= n,
            start + n <= u64::MAX,
            counter.spec_value() == start + k,
            r@ == Seq::new(k as nat, |i: int| (start + i) as u64),
        decreases n - k,
    {
        let v = counter.next();
        r.push(v);
        k = k + 1;
        proof {
            assert(r@ =~= Seq::new(k as nat, |i: int| (start + i) as u64));
        }
    }
    r
}

/// True when the limit is configured and `total` has reached it.
pub open spec fn cap_reached(cap: Option<u64>, total: u64) -> bool {
    match cap {
        Some(c) => total == c,
        None => false,
    }
}

/// How many documents a session may emit: the requested total, bounded by
/// the configured limit when there is one.
pub open spec fn effective_total_spec(requested: int, cap: Option<u64>) -> int {
    match cap {
        None => requested,
        Some(c) => if requested <= c {
            requested
        } else {
            c as int
        },
    }
}

/// Session-wide cap on emitted documents (owned model form).
///
/// The check of the cap and the increment of the use count form one
/// indivisible operation, so no two acquisitions can both pass the check
/// before either is counted.
pub struct GenerationLimit {
    cap: Option<u64>,
    used: u64,
}

impl GenerationLimit {
    /// The configured cap, if any.
    pub closed spec fn spec_cap(&self) -> Option<u64> {
        self.cap
    }

    /// How many acquisitions have been granted.
    pub closed spec fn spec_used(&self) -> u64 {
        self.used
    }

    /// Whether the next acquisition will be granted.
    pub open spec fn granted_spec(&self) -> bool {
        match self.spec_cap() {
            None => true,
            Some(c) => self.spec_used() < c,
        }
    }

    /// A fresh limit with nothing acquired yet; `None` means unbounded.
    pub fn new(cap: Option<u64>) -> (r: GenerationLimit)
        ensures
            r.spec_cap() == cap,
            r.spec_used() == 0,
    {
        GenerationLimit { cap, used: 0 }
    }

    /// The single indivisible check-and-increment: grants exactly when the
    /// use count is still below the cap, and counts the grant in the same
    /// step. Once the cap is reached every later call is denied.
    pub fn try_acquire(&mut self) -> (granted: bool)
        requires
            old(self).spec_used() < u64::MAX,
        ensures
            granted == old(self).granted_spec(),
            final(self).spec_cap() == old(self).spec_cap(),
            granted ==> final(self).spec_used() == old(self).spec_used() + 1,
            !granted ==> final(self).spec_used() == old(self).spec_used(),
    {
        let granted = match self.cap {
            None => true,
            Some(c) => self.used < c,
        };
        if granted {
            self.used = self.used + 1;
        }
        granted
    }
}

/// Handle to a session's shared index counter. Clones of one handle pull
/// from the same counter, so a value observed by one worker is never seen
/// by another.
#[derive(Clone)]
pub struct SharedIndex {
    inner: Arc<AtomicU64>,
}

impl SharedIndex {
    /// A fresh shared counter; the first pull of the session returns 0.
    pub fn new() -> SharedIndex {
        SharedIndex { inner: Arc::new(AtomicU64::new(0)) }
    }

    /// Returns the current index and advances it.
    ///
    /// Relies on `core::sync::atomic::AtomicU64::fetch_add`: the read and
    /// the increment are one atomic operation, so concurrent holders of
    /// clones of this handle never observe a skipped or repeated value.
    /// Nothing is promised of the value itself: it depends on what the
    /// other holders have pulled so far.
    #[verifier::external_body]
    pub fn fetch_next(&self) -> u64 {
        self.inner.fetch_add(1, Ordering::SeqCst)
    }
}

/// Handle to a session's shared generation limit. Clones of one handle
/// draw on the same budget of `cap` grants.
#[derive(Clone)]
pub struct SharedLimit {
    cap: u64,
    used: Arc<AtomicU64>,
}

impl SharedLimit {
    /// The configured cap.
    pub closed spec fn spec_cap(&self) -> u64 {
        self.cap
    }

    /// A fresh shared limit of `cap` total grants.
    pub fn new(cap: u64) -> (r: SharedLimit)
        ensures
            r.spec_cap() == cap,
    {
        SharedLimit { cap, used: Arc::new(AtomicU64::new(0)) }
    }

    /// The single indivisible check-and-increment against the shared use
    /// count: a caller is granted exactly when its drawn ticket is below
    /// the cap. The tickets are distinct across all clones of this handle,
    /// so at most `cap` calls are ever granted, whatever the thread
    /// interleaving; which callers they are depends on it. A grant is only
    /// possible under a positive cap.
    pub fn try_acquire(&self) -> (granted: bool)
        ensures
            granted ==> self.spec_cap() > 0,
    {
        let ticket = self.next_ticket();
        ticket < self.cap
    }

    /// Draws the next ticket: the count of draws over all clones of this
    /// handle before this one.
    ///
    /// Relies on `core::sync::atomic::AtomicU64::fetch_add`: the read and
    /// the increment are one atomic operation, so no two draws over the
    /// session observe the same ticket. Nothing is promised of the value:
    /// it depends on the other holders' draws.
    #[verifier::external_body]
    fn next_ticket(&self) -> u64 {
        self.used.fetch_add(1, Ordering::SeqCst)
    }
}

/// The sum of a sequence of zeros is zero.
proof fn lemma_sum_zero(s: Seq<u64>)
    requires
        forall|i: int| 0 <= i < s.len() ==> s[i] == 0,
    ensures
        sum_spec(s) == 0,
    decreases s.len(),
{
    if s.len() > 0 {
        lemma_sum_zero(s.drop_last());
    }
}

/// Replacing one element changes the sum by the difference.
proof fn lemma_sum_update(s: Seq<u64>, i: int, v: u64)
    requires
        0 <= i < s.len(),
    ensures
        sum_spec(s.update(i, v)) == sum_spec(s) - s[i] + v,
    decreases s.len(),
{
    if i == s.len() - 1 {
        assert(s.update(i, v).drop_last() =~= s.drop_last());
    } else {
        lemma_sum_update(s.drop_last(), i, v);
        assert(s.update(i, v).drop_last() =~= s.drop_last().update(i, v));
        assert(s.update(i, v).last() == s.last());
    }
}

/// A pointwise bound on the elements bounds the sums.
proof fn lemma_sum_le(a: Seq<u64>, b: Seq<u64>)
    requires
        a.len() == b.len(),
        forall|i: int| 0 <= i < a.len() ==> a[i] <= b[i],
    ensures
        sum_spec(a) <= sum_spec(b),
    decreases a.len(),
{
    if a.len() > 0 {
        lemma_sum_le(a.drop_last(), b.drop_last());
    }
}

/// A pointwise bound that is strict somewhere makes the sums strictly
/// ordered.
proof fn lemma_sum_lt(a: Seq<u64>, b: Seq<u64>, k: int)
    requires
        a.len() == b.len(),
        forall|i: int| 0 <= i < a.len() ==> a[i] <= b[i],
        0 <= k < a.len(),
        a[k] < b[k],
    ensures
        sum_spec(a) < sum_spec(b),
    decreases a.len(),
{
    if k == a.len() - 1 {
        lemma_sum_le(a.drop_last(), b.drop_last());
    } else {
        lemma_sum_lt(a.drop_last(), b.drop_last(), k);
    }
}

/// How many documents worker `i` still owes: none once it observed the
/// reached limit and halted.
pub open spec fn rem_spec(shares: Seq<u64>, emitted: Seq<u64>, halted: Seq<bool>, i: int) -> int {
    if halted[i] {
        0
    } else {
        shares[i] - emitted[i]
    }
}

/// The in-flight state of one session run.
struct RunState {
    emitted: Vec<u64>,
    halted: Vec<bool>,
    limit: GenerationLimit,
    counter: IndexCounter,
    issued: Vec<u64>,
    total: u64,
}

impl RunState {
    /// What holds of a session at every instant, whatever the worker
    /// interleaving so far.
    spec fn inv(&self, shares: Seq<u64>, cap: Option<u64>) -> bool {
        &&& self.emitted@.len() == shares.len()
        &&& self.halted@.len() == shares.len()
        &&& forall|i: int| 0 <= i < shares.len() ==> self.emitted@[i] <= shares[i]
        &&& forall|i: int|
            0 <= i < shares.len() && self.halted@[i] ==> self.emitted@[i] < shares[i]
        &&& self.total as int == sum_spec(self.emitted@)
        &&& self.counter.spec_value() == self.total
        &&& self.issued@ == Seq::new(self.total as nat, |i: int| i as u64)
        &&& self.limit.spec_cap() == cap
        &&& self.limit.spec_used() == self.total
        &&& match cap {
            Some(c) => self.total <= c,
            None => true,
        }
        &&& forall|i: int|
            0 <= i < shares.len() && self.halted@[i] ==> cap_reached(cap, self.total)
    }

    /// One turn of worker `w`: if the worker still owes documents it
    /// performs the check-and-increment; on a grant it pulls the index and
    /// emits, on a denial it halts for good.
    fn step(&mut self, shares: &Vec<u64>, w: usize, Ghost(cap): Ghost<Option<u64>>)
        requires
            old(self).inv(shares@, cap),
            w < shares@.len(),
            sum_spec(shares@) <= u64::MAX,
        ensures
            final(self).inv(shares@, cap),
            forall|j: int|
                0 <= j < shares@.len() && j != w ==> final(self).emitted@[j] == old(
                    self,
                ).emitted@[j] && final(self).halted@[j] == old(self).halted@[j],
            rem_spec(shares@, old(self).emitted@, old(self).halted@, w as int) == 0 ==> *final(self)
                == *old(self),
            rem_spec(shares@, old(self).emitted@, old(self).halted@, w as int) > 0 ==> rem_spec(
                shares@,
                final(self).emitted@,
                final(self).halted@,
                w as int,
            ) < rem_spec(shares@, old(self).emitted@, old(self).halted@, w as int),
    {
        if self.halted[w] {
            return ;
        }
        let e = self.emitted[w];
        if e >= shares[w] {
            return ;
        }
        proof {
            lemma_sum_lt(self.emitted@, shares@, w as int);
        }
        let granted = self.limit.try_acquire();
        if granted {
            let idx = self.counter.next();
            self.issued.push(idx);
            self.emitted[w] = e + 1;
            self.total = self.total + 1;
            proof {
                lemma_sum_update(old(self).emitted@, w as int, (e + 1) as u64);
                assert(self.issued@ =~= Seq::new(self.total as nat, |i: int| i as u64));
            }
        } else {
            self.halted[w] = true;
        }
    }
}

/// The outcome of one modeled session run.
pub struct SessionOutcome {
    /// How many documents each worker emitted.
    pub emitted: Vec<u64>,
    /// The index values handed out, in emission order.
    pub issued: Vec<u64>,
}

/// At a completed run the totals are forced: the session emitted exactly
/// the requested total, or exactly the limit when the requested total
/// exceeds it.
proof fn lemma_session_final(
    shares: Seq<u64>,
    emitted: Seq<u64>,
    halted: Seq<bool>,
    cap: Option<u64>,
    total: u64,
)
    requires
        emitted.len() == shares.len(),
        halted.len() == shares.len(),
        forall|i: int| 0 <= i < shares.len() ==> emitted[i] <= shares[i],
        forall|i: int| 0 <= i < shares.len() && halted[i] ==> emitted[i] < shares[i],
        forall|i: int| 0 <= i < shares.len() && halted[i] ==> cap_reached(cap, total),
        forall|i: int| 0 <= i < shares.len() ==> rem_spec(shares, emitted, halted, i) == 0,
        total as int == sum_spec(emitted),
        match cap {
            Some(c) => total <= c,
            None => true,
        },
    ensures
        sum_spec(emitted) == effective_total_spec(sum_spec(shares), cap),
        cap is None ==> emitted == shares,
{
    if exists|i: int| 0 <= i < shares.len() && halted[i] {
        let i = choose|i: int| 0 <= i < shares.len() && halted[i];
        lemma_sum_lt(emitted, shares, i);
    } else {
        assert forall|i: int| 0 <= i < shares.len() implies emitted[i] == shares[i] by {
            assert(!halted[i]);
            assert(rem_spec(shares, emitted, halted, i) == 0);
        }
        assert(emitted =~= shares);
    }
}

/// Runs a whole generation session under an arbitrary worker interleaving.
///
/// Each entry of `schedule` gives one worker a turn (entries naming no
/// worker are skipped); when the schedule is exhausted every worker runs to
/// completion. On each turn a worker that still owes documents performs the
/// single indivisible check-and-increment against the limit: granted, it
/// pulls the shared index once and emits one document; denied, it stops for
/// good even if its share is not exhausted.
///
/// Whatever the interleaving:
/// - the session emits exactly `min(sum(shares), limit)` documents;
/// - the index values handed out are exactly `0, 1, ..., total - 1`, in
///   order — none skipped, none repeated;
/// - without a limit every worker emits exactly its share, so an aggregate
///   collection of all documents has exactly the requested length.
pub fn run_session(shares: &Vec<u64>, limit: Option<u64>, schedule: &Vec<usize>) -> (out:
    SessionOutcome)
    requires
        sum_spec(shares@) <= u64::MAX,
    ensures
        out.emitted@.len() == shares@.len(),
        forall|i: int| 0 <= i < shares@.len() ==> out.emitted@[i] <= shares@[i],
        sum_spec(out.emitted@) == effective_total_spec(sum_spec(shares@), limit),
        out.issued@ == Seq::new(
            effective_total_spec(sum_spec(shares@), limit) as nat,
            |i: int| i as u64,
        ),
        limit is None ==> out.emitted@ == shares@,
{
    let n = shares.len();
    let mut st = RunState {
        emitted: vec![0u64; n],
        halted: vec![false; n],
        limit: GenerationLimit::new(limit),
        counter: IndexCounter::new(),
        issued: Vec::new(),
        total: 0,
    };
    proof {
        lemma_sum_zero(st.emitted@);
        assert(st.issued@ =~= Seq::new(0nat, |i: int| i as u64));
    }
    let mut k: usize = 0;
    while k < schedule.len()
        invariant
            st.inv(shares@, limit),
            sum_spec(shares@) <= u64::MAX,
            k <= schedule@.len(),
        decreases schedule@.len() - k,
    {
        let w = schedule[k];
        if w < shares.len() {
            st.step(shares, w, Ghost(limit));
        }
        k = k + 1;
    }
    let mut i: usize = 0;
    while i < shares.len()
        invariant
            st.inv(shares@, limit),
            sum_spec(shares@) <= u64::MAX,
            i <= shares@.len(),
            forall|j: int| 0 <= j < i ==> rem_spec(shares@, st.emitted@, st.halted@, j) == 0,
        decreases shares@.len() - i,
    {
        while !st.halted[i] && st.emitted[i] < shares[i]
            invariant
                st.inv(shares@, limit),
                sum_spec(shares@) <= u64::MAX,
                i < shares@.len(),
                forall|j: int| 0 <= j < i ==> rem_spec(shares@, st.emitted@, st.halted@, j) == 0,
            decreases rem_spec(shares@, st.emitted@, st.halted@, i as int),
        {
            let ghost oe = st.emitted@;
            let ghost oh = st.halted@;
            st.step(shares, i, Ghost(limit));
            proof {
                assert forall|j: int| 0 <= j < i implies rem_spec(
                    shares@,
                    st.emitted@,
                    st.halted@,
                    j,
                ) == 0 by {
                    assert(rem_spec(shares@, oe, oh, j) == 0);
                }
            }
        }
        proof {
            assert(rem_spec(shares@, st.emitted@, st.halted@, i as int) == 0);
        }
        i = i + 1;
    }
    proof {
        lemma_session_final(shares@, st.emitted@, st.halted@, limit, st.total);
    }
    SessionOutcome { emitted: st.emitted, issued: st.issued }
}


/// The first fatal outcome in worker-spawn order, if any.
pub open spec fn first_error_spec(outcomes: Seq<Option<String>>) -> Option<String>
    decreases outcomes.len(),
{
    if outcomes.len() == 0 {
        None
    } else if outcomes.first() is Some {
        outcomes.first()
    } else {
        first_error_spec(outcomes.drop_first())
    }
}

/// Selects the first fatal outcome in worker-spawn order: a session joins
/// every worker, and what it surfaces to the caller is the earliest
/// error, or nothing when every worker finished cleanly.
pub fn first_error(outcomes: &Vec<Option<String>>) -> (r: Option<String>)
    ensures
        r == first_error_spec(outcomes@),
{
    let mut i: usize = 0;
    proof {
        assert(outcomes@.skip(0int) =~= outcomes@);
    }
    while i < outcomes.len()
        invariant
            i <= outcomes@.len(),
            first_error_spec(outcomes@.skip(i as int)) == first_error_spec(outcomes@),
        decreases outcomes@.len() - i,
    {
        proof {
            assert(outcomes@.skip(i as int).first() == outcomes@[i as int]);
        }
        match &outcomes[i] {
            Some(m) => {
                return Some(m.clone());
            },
            None => {},
        }
        proof {
            assert(outcomes@.skip(i as int).drop_first() =~= outcomes@.skip(i + 1int));
        }
        i = i + 1;
    }
    proof {
        assert(outcomes@.skip(outcomes@.len() as int) =~= Seq::<Option<String>>::empty());
    }
    None
}

/// The whole-session guarantee: distributing `total` documents over
/// `workers` workers and running the session under any interleaving of
/// worker turns emits exactly `total` documents — or exactly the limit,
/// when the requested total exceeds it — and hands out the index values
/// `0, 1, ...` up to that count, in order, none skipped and none repeated.
pub fn run_split_session(total: u64, workers: u64, limit: Option<u64>, schedule: &Vec<
    usize,
>) -> (out: SessionOutcome)
    requires
        workers >= 1,
    ensures
        out.emitted@.len() == workers,
        sum_spec(out.emitted@) == effective_total_spec(total as int, limit),
        out.issued@ == Seq::new(
            effective_total_spec(total as int, limit) as nat,
            |i: int| i as u64,
        ),
        limit is None ==> sum_spec(out.emitted@) == total,
{
    let shares = split(total, workers);
    run_session(&shares, limit, schedule)
}

} // verus!
