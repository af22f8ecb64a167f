//! Tagged sequences.
//!
//! A tagged element carries a compile-time integer chosen by the caller. A
//! tagged sequence is a left- or right-folded sequence whose every element is
//! tagged. Tags are independent of positions: nothing here assigns them, and
//! nothing checks that they are distinct or increasing. Two elements may carry
//! the same tag, and both are kept.

pub mod lhlist;
pub mod rhlist;

use vstd::prelude::*;

verus! {

/// A value of type `T` that carries the tag `INDEX`.
pub struct Indexed<const INDEX: usize, T>(T);

impl<const INDEX: usize, T> View for Indexed<INDEX, T> {
    type V = T;

    /// The value that carries the tag.
    closed spec fn view(&self) -> T {
        self.0
    }
}

impl<const INDEX: usize, T> Indexed<INDEX, T> {
    /// The tag.
    pub open spec fn spec_tag() -> nat {
        INDEX as nat
    }

    /// The element that carries `value` under the tag `INDEX`.
    pub closed spec fn spec_new(value: T) -> Self {
        Indexed(value)
    }

    /// A tagged element is its value and nothing else: two elements with the
    /// same tag and the same value are the same element, the one that
    /// `spec_new` makes of that value.
    pub proof fn lemma_view_injective(self, other: Self)
        ensures
            self@ == other@ <==> self == other,
            self == Self::spec_new(self@),
            Self::spec_new(self@)@ == self@,
    {
    }

    /// Tags `value` with `INDEX`.
    pub fn new(value: T) -> (r: Self)
        ensures
            r == Self::spec_new(value),
            r@ == value,
    {
        Self(value)
    }

    /// The tag.
    pub fn tag(&self) -> (n: usize)
        ensures
            n == Self::spec_tag(),
    {
        INDEX
    }

    /// The value under the tag.
    pub fn get(&self) -> (r: &T)
        ensures
            *r == self@,
    {
        &self.0
    }

    /// Exclusive access to the value under the tag. The tag stays.
    pub fn get_mut(&mut self) -> (r: &mut T)
        ensures
            *r == old(self)@,
            final(self)@ == *final(r),
    {
        &mut self.0
    }

    /// Strips the tag.
    pub fn into_inner(self) -> (r: T)
        ensures
            r == self@,
    {
        self.0
    }
}

} // verus!
