//! The capability through which domain types read configuration.
use vstd::prelude::*;

use crate::config::{Config, MTConfig};

verus! {

/// A type that takes part in the toolkit and may read its configuration.
/// Every implementer reads through the same handle, and gets an owned
/// snapshot, so that no lock is held by the caller.
pub trait CoreMT {
    /// A snapshot of the configuration installed behind `handle`.
    fn config(handle: &Config) -> (r: MTConfig)
        ensures
            r == handle@,
    {
        handle.read()
    }
}

} // verus!
