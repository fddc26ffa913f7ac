use vstd::prelude::*;

verus! {

/// Status of a driver connection.
#[derive(PartialEq, Eq, Structural, Clone, Copy, Debug)]
pub enum ConnStatus {
    Connected,
    Disconnected,
}

} // verus!
