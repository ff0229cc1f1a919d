use vstd::prelude::*;

verus! {

/// When a price alarm fires.
#[derive(Debug, Clone, Copy, PartialEq, Eq, Structural)]
pub enum AlarmCondition {
    CrossOver,
    CrossBellow,
    /// No condition (`None` in the wire format).
    NoCondition,
}

} // verus!
