//! A blocking bridge: the decision core that lets a synchronous call site
//! wait for the result of an asynchronous operation, optionally bounded by a
//! timeout. Polls, clock readings and park decisions are plain values here,
//! so an unverified shell can drive a real future and a real timer with these
//! decisions, and the loop's behavior can be examined with an injected clock.

pub mod outcome;
pub mod wait;
pub mod waker;
