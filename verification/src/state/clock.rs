use vstd::prelude::*;

verus! {

/// A reading of the cluster clock.
#[derive(Clone, Copy, Debug, PartialEq, Eq, Structural)]
pub struct Clock {
    /// Seconds since the Unix epoch, as the cluster estimates them.
    pub unix_timestamp: i64,
}

} // verus!
