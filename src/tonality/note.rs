use vstd::prelude::*;

use super::TonalityMT;
use crate::capability::CoreMT;

verus! {

/// A note, by name.
#[derive(Clone, Debug)]
pub struct Note {
    pub name: String,
}

impl Note {
    pub fn new(name: String) -> (r: Self)
        ensures
            r.name == name,
    {
        Self { name }
    }
}

impl CoreMT for Note {}

impl TonalityMT for Note {}

} // verus!
