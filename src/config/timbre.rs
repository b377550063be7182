use vstd::prelude::*;

verus! {

/// Settings of the `[timbre]` section, for timbre. The section declares no
/// fields yet, so the only document it accepts is an empty table.
#[derive(Clone, Copy, Debug, PartialEq, Eq, Structural)]
pub struct TimbreConfig {}

} // verus!
