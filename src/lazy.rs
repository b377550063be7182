//! A value built on first use.
use vstd::prelude::*;

use std::cell::OnceCell;

verus! {

#[verifier::external_type_specification]
#[verifier::external_body]
#[verifier::reject_recursive_types(T)]
pub struct ExOnceCell<T>(std::cell::OnceCell<T>);

/// A holder of one string.
pub struct B {
    pub a: String,
}

impl B {
    pub fn new(a: String) -> (r: Self)
        ensures
            r.a == a,
    {
        Self { a }
    }
}

/// Builds the `B` that an `A` holds.
pub fn default_b() -> (r: B)
    ensures
        r.a@ == "a"@,
{
    B::new("a".to_string())
}

/// Relies on `OnceCell::new`: a cell that holds nothing yet.
#[verifier::external_body]
fn empty_cell() -> OnceCell<B> {
    OnceCell::new()
}

/// Relies on `OnceCell::get_or_init`: the value the cell holds, which
/// `default_b` builds on the first call. The cell of an `A` is private to this
/// module, starts empty and is filled nowhere else, so it only ever holds what
/// `default_b` built.
#[verifier::external_body]
fn held_b(a: &A) -> (r: &B)
    ensures
        r.a@ == "a"@,
{
    a.b.get_or_init(default_b)
}

/// A holder of a `B` that is built on first access.
pub struct A {
    b: OnceCell<B>,
}

impl A {
    pub fn new() -> Self {
        Self { b: empty_cell() }
    }

    /// The held `B`, built by `default_b` on the first call.
    pub fn b(&self) -> (r: &B)
        ensures
            r.a@ == "a"@,
    {
        held_b(self)
    }
}

} // verus!
