//! A one-shot completion handle: a driver hands the outcome of an
//! operation to the waiting caller through it.

use vstd::prelude::*;

verus! {

/// Carries exactly one pending continuation. `invoke` consumes the handle,
/// so the continuation runs at most once.
pub struct BoxedCallback<F> {
    f: F,
}

impl<F> BoxedCallback<F> {
    /// The continuation this handle runs.
    pub closed spec fn continuation(&self) -> F {
        self.f
    }

    /// Captures the continuation `f`.
    pub fn new(f: F) -> (r: Self)
        ensures
            r.continuation() == f,
    {
        BoxedCallback { f }
    }

    /// Runs the continuation once, handing it `result` unchanged.
    pub fn invoke<A>(self, result: A)
        where
            F: FnOnce(A),
        requires
            self.continuation().requires((result,)),
        ensures
            self.continuation().ensures((result,), ()),
    {
        (self.f)(result)
    }
}

} // verus!
