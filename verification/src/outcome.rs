use vstd::prelude::*;

verus! {

/// Marker carried by a timeout outcome: the bound duration elapsed before the
/// awaited operation finished. It carries no further data.
#[derive(Debug)]
pub struct TimedOut;

/// The two failure outcomes of a wait, beyond success: the bound duration
/// elapsed first (`TimedOut`), or the awaited operation failed with its own
/// error, passed through unchanged (`Inner`).
#[derive(Debug)]
pub enum Waited<E> {
    TimedOut(TimedOut),
    Inner(E),
}

/// The outcome a wait owes the caller once the operation has resolved: its
/// success value unchanged, or its own failure wrapped as `Waited::Inner`.
pub open spec fn outcome_of<I, E>(res: Result<I, E>) -> Result<I, Waited<E>> {
    match res {
        Ok(v) => Ok(v),
        Err(e) => Err(Waited::Inner(e)),
    }
}

/// Translates the resolution of a wait with no timer in play: success passes
/// through, the operation's own failure is wrapped as `Inner`. This path can
/// never report `TimedOut`.
pub fn resolve_direct<I, E>(res: Result<I, E>) -> (r: Result<I, Waited<E>>)
    ensures
        r == outcome_of(res),
{
    match res {
        Ok(v) => Ok(v),
        Err(e) => Err(Waited::Inner(e)),
    }
}

/// Which side of the race between the awaited operation and its timer
/// finished first, as observed by the driver.
pub enum RaceWinner<I, E> {
    Operation(Result<I, E>),
    Timer,
}

/// Translates the winner of a bounded race: the operation's resolution maps
/// to its own outcome exactly; a timer win maps to `TimedOut`. Exactly one of
/// the three outcomes is produced, whichever side won.
pub fn resolve_race<I, E>(winner: RaceWinner<I, E>) -> (r: Result<I, Waited<E>>)
    ensures
        winner matches RaceWinner::Operation(res) ==> r == outcome_of(res),
        winner is Timer ==> r == Err::<I, Waited<E>>(Waited::TimedOut(TimedOut)),
{
    match winner {
        RaceWinner::Operation(res) => resolve_direct(res),
        RaceWinner::Timer => Err(Waited::TimedOut(TimedOut)),
    }
}

} // verus!
