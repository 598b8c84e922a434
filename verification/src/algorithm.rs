//! The native engine's two precomputation strategies.

use vstd::prelude::*;

verus! {

/// Which precomputed data set the engine was built from: multi-level
/// Dijkstra or contraction hierarchies.  The token handed to the native
/// constructor must match the data at the given path; a mismatch is a
/// native-side construction failure this layer cannot detect in advance.
#[derive(Clone, Copy, Debug, PartialEq, Eq, Structural)]
pub enum Algorithm {
    MLD,
    CH,
}

impl Algorithm {
    /// The literal token the native constructor expects for this strategy.
    pub fn as_str(&self) -> (r: &'static str)
        ensures
            *self is MLD ==> r@ == "MLD"@,
            *self is CH ==> r@ == "CH"@,
    {
        match self {
            Algorithm::MLD => "MLD",
            Algorithm::CH => "CH",
        }
    }
}

} // verus!
