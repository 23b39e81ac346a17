use vstd::prelude::*;

verus! {

/// Whether a wake is pending after one more wake signal: always, whatever was
/// pending before. Repeated signals coalesce into the same state.
pub open spec fn notified_after_wake(notified: bool) -> bool {
    true
}

/// Whether a park with the given pending-wake state actually blocks the
/// thread: exactly when no wake is pending.
pub open spec fn park_blocks(notified: bool) -> bool {
    !notified
}

/// Model of the wakeup handle's notification protocol: one pending-wake token
/// bound to the single parked thread. Waking sets the token; parking consumes
/// it and skips blocking when a wake was already pending. The token records
/// only that a wake happened since the last park, never how many or from
/// where, so concurrent or repeated wakes are safe to coalesce.
pub struct ParkToken {
    notified: bool,
}

impl ParkToken {
    /// Whether a wake is pending.
    pub closed spec fn notified(&self) -> bool {
        self.notified
    }

    /// A fresh token: no wake pending yet.
    pub fn new() -> (r: ParkToken)
        ensures
            !r.notified(),
    {
        ParkToken { notified: false }
    }

    /// Signals the bound thread. Always safe: waking an already-notified (or
    /// running) thread only leaves the same wake pending.
    pub fn wake(&mut self)
        ensures
            final(self).notified() == notified_after_wake(old(self).notified()),
    {
        self.notified = true;
    }

    /// The parking decision of one loop iteration: consumes any pending wake
    /// and reports whether the thread actually blocks. A wake delivered
    /// before the park is never lost: it makes this park return immediately,
    /// so the loop re-checks readiness and deadline right away.
    pub fn park(&mut self) -> (blocked: bool)
        ensures
            !final(self).notified(),
            blocked == park_blocks(old(self).notified()),
    {
        let blocked = !self.notified;
        self.notified = false;
        blocked
    }
}

/// Idempotence of wakeup: wake signals coalesce — a second signal leaves the
/// token exactly as the first did — and after at least one signal the next
/// park does not block, so the thread cannot miss its next resolution check.
pub proof fn lemma_wake_idempotent(notified: bool)
    ensures
        notified_after_wake(notified_after_wake(notified)) == notified_after_wake(notified),
        !park_blocks(notified_after_wake(notified)),
{
}

} // verus!
