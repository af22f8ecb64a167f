//! Sequences as mathematical sequences.
//!
//! The elements of a heterogeneous sequence have no common type, so the
//! sequence has no `Seq` of its elements as they are. It has one under every
//! reading of its elements in a common type `X`: the `Seq<X>` of the
//! readings, first element first. [`left::Elements`] and
//! [`right::Elements`] define it, and the laws in [`left`] and [`right`]
//! state what each operation of the two representations does to it. They
//! hold for every reading.

pub mod left;
pub mod right;

use vstd::prelude::*;

verus! {

/// A reading of the values of a type as values of `X`.
pub trait Observe<X> {
    /// What `self` is read as.
    spec fn observe(self) -> X;
}

/// Every value reads as itself.
impl<X> Observe<X> for X {
    open spec fn observe(self) -> X {
        self
    }
}

} // verus!
