use vstd::prelude::*;

verus! {

/// Settings of the `[tonality]` section, for tonality (notes, scales, keys). The section declares no
/// fields yet, so the only document it accepts is an empty table.
#[derive(Clone, Copy, Debug, PartialEq, Eq, Structural)]
pub struct TonalityConfig {}

} // verus!
