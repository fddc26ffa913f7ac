//! The state behind awaiting a driver callback: one optional stored result
//! and one optional registered waiter. Whoever shares it keeps it behind one
//! lock, so each step below is atomic.

use vstd::prelude::*;

use crate::driver::RDBCError;

verus! {

/// A pending outcome and a registered waiter.
pub type BridgeState<T, W> = (Option<Result<T, RDBCError>>, Option<W>);

/// After a result is stored: the state, and the waiter to wake, if one was
/// registered.
pub open spec fn stored<T, W>(s: BridgeState<T, W>, result: Result<T, RDBCError>) -> (BridgeState<T, W>, Option<W>) {
    ((Some(result), None), s.1)
}

/// After a poll by `waker`: the state, and the result delivered, if one was
/// stored. Without a result the waiter is registered, replacing any earlier
/// one.
pub open spec fn polled<T, W>(s: BridgeState<T, W>, waker: W) -> (BridgeState<T, W>, Option<Result<T, RDBCError>>) {
    match s.0 {
        Some(r) => ((None, s.1), Some(r)),
        None => ((None, Some(waker)), None),
    }
}

/// Turns one driver callback into one awaited result.
pub struct AsyncDriver<T, W> {
    output: Option<Result<T, RDBCError>>,
    waker: Option<W>,
}

impl<T, W> View for AsyncDriver<T, W> {
    type V = BridgeState<T, W>;

    closed spec fn view(&self) -> BridgeState<T, W> {
        (self.output, self.waker)
    }
}

impl<T, W> AsyncDriver<T, W> {
    /// No result and no waiter.
    pub fn new() -> (r: Self)
        ensures
            r@ == (None::<Result<T, RDBCError>>, None::<W>),
    {
        AsyncDriver { output: None, waker: None }
    }

    /// What a completion handle runs: stores `result` and hands back the
    /// registered waiter, which the caller wakes.
    pub fn callback(&mut self, result: Result<T, RDBCError>) -> (woken: Option<W>)
        ensures
            (final(self)@, woken) == stored(old(self)@, result),
    {
        self.output = Some(result);
        let mut woken = None;
        std::mem::swap(&mut self.waker, &mut woken);
        woken
    }

    /// Takes the stored result if there is one; otherwise registers `waker`
    /// and reports that the result is still pending (`None`).
    pub fn poll(&mut self, waker: W) -> (r: Option<Result<T, RDBCError>>)
        ensures
            (final(self)@, r) == polled(old(self)@, waker),
    {
        let mut out = None;
        std::mem::swap(&mut self.output, &mut out);
        match out {
            Some(r) => Some(r),
            None => {
                self.waker = Some(waker);
                None
            },
        }
    }
}

/// In either order of registering a waiter and storing a result, the
/// result is delivered to exactly one poll: a waiter that came first is
/// handed back to be woken, the next poll gets the result, and a poll after
/// that gets nothing.
pub proof fn lemma_single_delivery<T, W>(result: Result<T, RDBCError>, w1: W, w2: W, w3: W)
    ensures
        ({
            let s0: BridgeState<T, W> = (None, None);
            let (s1, got1) = polled(s0, w1);
            let (s2, woken) = stored(s1, result);
            let (s3, got2) = polled(s2, w2);
            let (s4, got3) = polled(s3, w3);
            &&& got1 is None
            &&& woken == Some(w1)
            &&& got2 == Some(result)
            &&& got3 is None
        }),
        ({
            let s0: BridgeState<T, W> = (None, None);
            let (s1, woken) = stored(s0, result);
            let (s2, got1) = polled(s1, w1);
            let (s3, got2) = polled(s2, w2);
            &&& woken is None
            &&& got1 == Some(result)
            &&& got2 is None
        }),
{
}

} // verus!
