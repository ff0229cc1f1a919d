use vstd::prelude::*;

verus! {

/// Whether a horizontal level acts as resistance or as support.
#[derive(Debug, Clone, Copy, PartialEq, Eq, Structural)]
pub enum HorizontalLevelType {
    Resistance,
    Support,
}

} // verus!
