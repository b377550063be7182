use vstd::prelude::*;

verus! {

/// Settings that stand at the root of the document rather than in a section
/// of their own.
#[derive(Clone, Copy, Debug, PartialEq, Eq, Structural)]
pub struct CommonConfig {
    /// The acoustic reference frequency in hertz (key `hz`).
    pub hz: Frequency,
}

/// A frequency as the document writes it. Either form stands for the same
/// number of hertz; a reader takes it at single precision.
#[derive(Clone, Copy, Debug, PartialEq, Eq, Structural)]
pub enum Frequency {
    /// A floating-point number, as the bit pattern of its 64-bit IEEE-754
    /// form.
    Float(u64),
    /// A whole number.
    Integer(i64),
}

} // verus!
