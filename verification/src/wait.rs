use vstd::prelude::*;

use crate::outcome::{outcome_of, TimedOut, Waited};

verus! {

/// One poll of the awaited operation, as the executor observed it: resolved
/// with the operation's own result, or not ready yet.
pub enum Polled<I, E> {
    Ready(Result<I, E>),
    Pending,
}

/// What the executor does after one poll: return a terminal outcome, park the
/// calling thread for at most the given number of nanoseconds (the time left
/// until the deadline), or park it with no time bound.
pub enum WaitStep<I, E> {
    Done(Result<I, Waited<E>>),
    ParkFor(u64),
    Park,
}

/// The deadline of a bounded wait: the entry instant plus the requested
/// duration, in nanoseconds of a monotonic clock; absent when no timeout was
/// requested.
pub open spec fn spec_deadline(now: u64, timeout: Option<u64>) -> Option<u64> {
    match timeout {
        Some(d) => Some((now + d) as u64),
        None => None,
    }
}

/// Computes the optional deadline, once at entry: "now + duration" if a
/// timeout was requested, absent otherwise. Immutable afterwards.
pub fn compute_deadline(now: u64, timeout: Option<u64>) -> (r: Option<u64>)
    requires
        timeout matches Some(d) ==> now + d <= u64::MAX,
    ensures
        r == spec_deadline(now, timeout),
{
    match timeout {
        Some(d) => Some(now + d),
        None => None,
    }
}

/// The decision owed after one poll, given the optional deadline and the
/// clock reading of this iteration: a resolved operation wins immediately
/// (even when the deadline has also passed: readiness is checked first); a
/// pending one times out once the clock reaches the deadline, and otherwise
/// parks the thread — bounded by the time left, or unbounded without a
/// deadline.
pub open spec fn spec_step<I, E>(
    polled: Polled<I, E>,
    deadline: Option<u64>,
    now: u64,
) -> WaitStep<I, E> {
    match polled {
        Polled::Ready(res) => WaitStep::Done(outcome_of(res)),
        Polled::Pending => match deadline {
            Some(d) => if now >= d {
                WaitStep::Done(Err(Waited::TimedOut(TimedOut)))
            } else {
                WaitStep::ParkFor((d - now) as u64)
            },
            None => WaitStep::Park,
        },
    }
}

/// One iteration of the polling loop: decides, from this poll's result and
/// the clock, whether the wait is over and with which outcome, or how the
/// thread parks before the next poll.
pub fn step<I, E>(polled: Polled<I, E>, deadline: Option<u64>, now: u64) -> (r: WaitStep<I, E>)
    ensures
        r == spec_step(polled, deadline, now),
{
    match polled {
        Polled::Ready(res) => WaitStep::Done(crate::outcome::resolve_direct(res)),
        Polled::Pending => match deadline {
            Some(d) => if now >= d {
                WaitStep::Done(Err(Waited::TimedOut(TimedOut)))
            } else {
                WaitStep::ParkFor(d - now)
            },
            None => WaitStep::Park,
        },
    }
}

/// Which of the two interchangeable execution strategies drives the wait:
/// hand the operation to the ambient runtime, or poll it on the calling
/// thread. Decided once at entry, never re-evaluated mid-wait.
#[derive(PartialEq, Eq, Structural, Debug)]
pub enum Strategy {
    Delegated,
    SelfContained,
}

/// Picks the execution strategy from whether an ambient asynchronous runtime
/// handle is bound to the calling thread: delegate when one is, act as a
/// self-contained executor when none is.
pub fn choose_strategy(runtime_available: bool) -> (r: Strategy)
    ensures
        r == (if runtime_available {
            Strategy::Delegated
        } else {
            Strategy::SelfContained
        }),
{
    if runtime_available {
        Strategy::Delegated
    } else {
        Strategy::SelfContained
    }
}

/// One iteration of the polling loop as the executor observed it: the result
/// of polling the operation, then the reading of the monotonic clock at the
/// waiting check (nanoseconds since entry).
pub struct Observation<I, E> {
    pub polled: Polled<I, E>,
    pub now: u64,
}

/// The outcome of the polling loop over a sequence of observations: the
/// terminal outcome of the first observation whose decision is terminal, or
/// `None` when every observation only parked the thread again (the executor
/// is still waiting).
pub open spec fn spec_drive<I, E>(
    s: Seq<Observation<I, E>>,
    deadline: Option<u64>,
) -> Option<Result<I, Waited<E>>>
    decreases s.len(),
{
    if s.len() == 0 {
        None
    } else {
        match spec_step(s[0].polled, deadline, s[0].now) {
            WaitStep::Done(out) => Some(out),
            WaitStep::ParkFor(_) => spec_drive(s.drop_first(), deadline),
            WaitStep::Park => spec_drive(s.drop_first(), deadline),
        }
    }
}

/// Runs the polling loop against an injected schedule of poll results and
/// clock readings, in place of a live operation and a real timer. Each
/// observation is one wake of the loop — caused by the wakeup handle, an
/// elapsed park, or a spurious wake alike — and the loop re-checks readiness
/// first and the deadline second before deciding. Returns `None` when the
/// schedule ends with the executor still parked.
#[verifier::loop_isolation(false)]
pub fn drive<I, E>(
    schedule: Vec<Observation<I, E>>,
    deadline: Option<u64>,
) -> (r: Option<Result<I, Waited<E>>>)
    ensures
        r == spec_drive(schedule@, deadline),
{
    let ghost full = schedule@;
    let mut rest = schedule;
    while rest.len() > 0
        invariant
            spec_drive(rest@, deadline) == spec_drive(full, deadline),
        decreases rest@.len(),
    {
        let ghost before = rest@;
        let ob = rest.remove(0);
        assert(before.drop_first() =~= rest@);
        match step(ob.polled, deadline, ob.now) {
            WaitStep::Done(out) => {
                return Some(out);
            },
            WaitStep::ParkFor(_) => {},
            WaitStep::Park => {},
        }
    }
    None
}

/// An unbounded wait never reports a timeout: with no deadline, the loop can
/// only return the operation's own outcome — its success value unchanged, or
/// its own failure wrapped as `Inner` — or keep waiting.
pub proof fn lemma_no_deadline_never_times_out<I, E>(s: Seq<Observation<I, E>>)
    ensures
        spec_drive(s, None) matches Some(r) ==> !(r matches Err(Waited::TimedOut(_))),
    decreases s.len(),
{
    if s.len() > 0 {
        lemma_no_deadline_never_times_out::<I, E>(s.drop_first());
    }
}

/// Race determinism: when the operation resolves at an iteration before which
/// every poll was still pending and no deadline had been reached, the wait
/// returns the operation's own outcome — never `TimedOut` — however close to
/// the deadline the resolution came. At the resolving iteration itself the
/// operation wins even if the deadline has passed too: readiness is checked
/// first, so ties break in the operation's favor.
pub proof fn lemma_resolution_wins_race<I, E>(
    s: Seq<Observation<I, E>>,
    deadline: Option<u64>,
    i: int,
)
    requires
        0 <= i < s.len(),
        s[i].polled is Ready,
        forall|j: int| 0 <= j < i ==> s[j].polled is Pending,
        forall|j: int| 0 <= j < i ==> (deadline matches Some(d) ==> (#[trigger] s[j]).now < d),
    ensures
        spec_drive(s, deadline) == Some(outcome_of(s[i].polled->Ready_0)),
    decreases i,
{
    if i > 0 {
        let t = s.drop_first();
        assert forall|j: int| 0 <= j < i - 1 implies t[j].polled is Pending && (
        deadline matches Some(d) ==> t[j].now < d) by {
            assert(t[j] == s[j + 1]);
        }
        assert(t[i - 1] == s[i]);
        lemma_resolution_wins_race::<I, E>(t, deadline, i - 1);
    }
}

/// An operation that never resolves, under a deadline the clock eventually
/// reaches, makes the wait report `TimedOut` — and nothing else.
pub proof fn lemma_never_resolving_times_out<I, E>(s: Seq<Observation<I, E>>, d: u64)
    requires
        forall|j: int| 0 <= j < s.len() ==> s[j].polled is Pending,
        exists|i: int| 0 <= i < s.len() && s[i].now >= d,
    ensures
        spec_drive(s, Some(d)) == Some(Err::<I, Waited<E>>(Waited::TimedOut(TimedOut))),
    decreases s.len(),
{
    let i = choose|i: int| 0 <= i < s.len() && s[i].now >= d;
    assert(s[0].polled is Pending);
    if s[0].now < d {
        let t = s.drop_first();
        assert forall|j: int| 0 <= j < t.len() implies t[j].polled is Pending by {
            assert(t[j] == s[j + 1]);
        }
        assert(t[i - 1] == s[i]);
        assert(0 <= i - 1 < t.len() && t[i - 1].now >= d);
        lemma_never_resolving_times_out::<I, E>(t, d);
    }
}

/// A bounded wait never overshoots its deadline by its own choice: a pending
/// check before the deadline parks for exactly the time left, never longer,
/// and a pending check at or past the deadline ends the wait at once. Beyond
/// the requested duration the wait lasts only as long as the platform lets a
/// timed park run over.
pub proof fn lemma_overshoot_bounded<I, E>(d: u64, now: u64)
    ensures
        now < d ==> spec_step::<I, E>(Polled::Pending, Some(d), now) == WaitStep::<I, E>::ParkFor((d - now) as u64),
        now >= d ==> spec_step::<I, E>(Polled::Pending, Some(d), now) == WaitStep::<I, E>::Done(
            Err(Waited::TimedOut(TimedOut)),
        ),
{
}

/// A bounded wait never times out early: `TimedOut` is reported only when a
/// waiting check observed the clock at or past the deadline while the
/// operation was still pending — so at least the requested duration elapsed
/// before the timeout outcome.
pub proof fn lemma_timeout_not_early<I, E>(s: Seq<Observation<I, E>>, d: u64)
    requires
        spec_drive(s, Some(d)) matches Some(Err(Waited::TimedOut(_))),
    ensures
        exists|i: int| 0 <= i < s.len() && s[i].polled is Pending && s[i].now >= d,
    decreases s.len(),
{
    if s[0].polled is Pending && s[0].now >= d {
        assert(0 <= 0 < s.len() && s[0].polled is Pending && s[0].now >= d);
    } else {
        let t = s.drop_first();
        lemma_timeout_not_early::<I, E>(t, d);
        let i0 = choose|i: int| 0 <= i < t.len() && t[i].polled is Pending && t[i].now >= d;
        assert(t[i0] == s[i0 + 1]);
        assert(0 <= i0 + 1 < s.len() && s[i0 + 1].polled is Pending && s[i0 + 1].now >= d);
    }
}

/// Spurious-wake tolerance: an unrelated wake re-polls to `Pending` and, with
/// the deadline not yet reached, only parks the thread again. Inserting such an
/// observation anywhere into the loop's schedule leaves the outcome
/// unchanged: a spurious wake can cause neither a premature outcome nor a
/// wrong `TimedOut`, because the loop re-checks both readiness and deadline
/// after every wake.
pub proof fn lemma_spurious_wake_harmless<I, E>(
    s: Seq<Observation<I, E>>,
    deadline: Option<u64>,
    ob: Observation<I, E>,
    k: int,
)
    requires
        0 <= k <= s.len(),
        ob.polled is Pending,
        deadline matches Some(d) ==> ob.now < d,
    ensures
        spec_drive(s.insert(k, ob), deadline) == spec_drive(s, deadline),
    decreases k,
{
    let u = s.insert(k, ob);
    if k == 0 {
        assert(u[0] == ob);
        assert(u.drop_first() =~= s);
    } else {
        assert(u[0] == s[0]);
        assert(u.drop_first() =~= s.drop_first().insert(k - 1, ob));
        lemma_spurious_wake_harmless::<I, E>(s.drop_first(), deadline, ob, k - 1);
    }
}

} // verus!
