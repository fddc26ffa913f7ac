//! Pooled statements.

use vstd::prelude::*;

use super::shared::Shared;

verus! {

/// A driver statement shared by its references. One opened against the pool
/// owns its connection and hands it back when the last reference goes; one
/// prepared inside a transaction owns none.
pub type Statement<S, C> = Shared<S, C>;

} // verus!
