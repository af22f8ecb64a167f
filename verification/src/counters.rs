//! Type-level natural numbers.
//!
//! A counter has no run-time content. It names one occurrence of an element
//! type inside a sequence: `Zero` is the occurrence nearest to the end at
//! which the representation grows, and `Successor<I>` skips one element more
//! than `I` does.

use std::marker::PhantomData;
use vstd::prelude::*;

verus! {

/// A type-level natural number.
pub trait Index {
    /// The ordinal as a compile-time constant.
    const INDEX: usize;

    /// The ordinal as a mathematical natural number.
    spec fn spec_index() -> nat;

    /// The ordinal as a run-time value.
    fn index() -> (n: usize)
        requires
            Self::spec_index() <= usize::MAX,
        ensures
            n == Self::spec_index(),
    ;
}

/// The counter 0.
pub struct Zero;

impl Index for Zero {
    const INDEX: usize = 0;

    open spec fn spec_index() -> nat {
        0
    }

    fn index() -> (n: usize) {
        0
    }
}

/// The counter that follows `I`.
pub struct Successor<I: Index>(PhantomData<I>);

impl<I: Index> Index for Successor<I> {
    const INDEX: usize = I::INDEX + 1;

    open spec fn spec_index() -> nat {
        I::spec_index() + 1
    }

    fn index() -> (n: usize) {
        I::index() + 1
    }
}

} // verus!
