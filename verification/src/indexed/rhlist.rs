//! Right-folded tagged sequences.

use crate::indexed::Indexed;
use vstd::prelude::*;

verus! {

/// A right-folded sequence whose every element is tagged.
pub trait Base: crate::rhlist::Base {
    /// The tags of the elements, first to last.
    spec fn spec_tags() -> Seq<nat>;

    /// There is one tag for each element.
    proof fn lemma_tags_len()
        ensures
            Self::spec_tags().len() == Self::spec_len(),
    ;
}

impl Base for () {
    open spec fn spec_tags() -> Seq<nat> {
        Seq::empty()
    }

    proof fn lemma_tags_len() {
    }
}

impl<const INDEX: usize, E, T: Base> Base for (Indexed<INDEX, E>, T) {
    open spec fn spec_tags() -> Seq<nat> {
        seq![INDEX as nat] + T::spec_tags()
    }

    proof fn lemma_tags_len() {
        T::lemma_tags_len();
    }
}

/// The right-folded tagged sequences without elements.
pub trait Empty: Base {
    /// The empty sequence.
    spec fn spec_default() -> Self;

    /// The empty sequence.
    fn default() -> (r: Self)
        ensures
            r == Self::spec_default(),
            Self::spec_len() == 0,
    ;

    /// Adds `value` to the empty sequence, under the tag 0.
    fn prepend_indexed<E>(self, value: E) -> (r: (Indexed<0, E>, Self))
        ensures
            r.0@ == value,
            r.1 == self,
    ;

    /// The sequence of the one element `value`, under the tag 0.
    fn new<E>(value: E) -> (r: (Indexed<0, E>, Self))
        ensures
            r.0@ == value,
            r.1 == Self::spec_default(),
    ;
}

impl Empty for () {
    open spec fn spec_default() -> Self {
        ()
    }

    fn default() -> (r: Self) {
        ()
    }

    fn new<E>(value: E) -> (r: (Indexed<0, E>, Self)) {
        (Indexed::new(value), ())
    }

    fn prepend_indexed<E>(self, value: E) -> (r: (Indexed<0, E>, Self)) {
        <Self as Empty>::new(value)
    }
}

/// Whether `s` is the empty sequence of its type.
pub open spec fn is_default<S: Empty>(s: S) -> bool {
    s == S::spec_default()
}

/// The empty right-folded tagged sequence.
pub fn new() -> (r: impl Empty)
    ensures
        is_default(r),
{
    <() as Empty>::default()
}

/// Insertion of a tagged element before the first element.
pub trait Append<E>: Base {
    /// Adds `value` before the first element, under the tag `INDEX`.
    fn prepend_indexed<const INDEX: usize>(self, value: E) -> (r: (Indexed<INDEX, E>, Self))
        ensures
            r.0@ == value,
            r.1 == self,
            <(Indexed<INDEX, E>, Self) as Base>::spec_tags() == seq![INDEX as nat]
                + Self::spec_tags(),
    ;
}

impl<E> Append<E> for () {
    fn prepend_indexed<const INDEX: usize>(self, value: E) -> (r: (Indexed<INDEX, E>, Self)) {
        (Indexed::new(value), self)
    }
}

impl<H, T, E> Append<E> for (H, T) where (H, T): Base {
    fn prepend_indexed<const INDEX: usize>(self, value: E) -> (r: (Indexed<INDEX, E>, Self)) {
        (Indexed::new(value), self)
    }
}

/// Projection to the ordinary right-folded sequence of the same values in the
/// same order, without the tags.
pub trait Untag: Base {
    /// The type of the sequence without tags.
    type Untagged: crate::rhlist::Base;

    /// The values of `self`, in the same order, without their tags.
    spec fn spec_untag(self) -> Self::Untagged;

    /// Stripping the tags keeps the length.
    proof fn lemma_untag_len()
        ensures
            <Self::Untagged as crate::rhlist::Base>::spec_len() == Self::spec_len(),
    ;

    /// Strips the tags.
    fn untag(self) -> (r: Self::Untagged)
        ensures
            r == self.spec_untag(),
            <Self::Untagged as crate::rhlist::Base>::spec_len() == Self::spec_len(),
    ;
}

impl Untag for () {
    type Untagged = ();

    open spec fn spec_untag(self) -> Self::Untagged {
        ()
    }

    proof fn lemma_untag_len() {
    }

    fn untag(self) -> (r: Self::Untagged) {
        ()
    }
}

impl<const INDEX: usize, E, T: Untag> Untag for (Indexed<INDEX, E>, T) {
    type Untagged = (E, T::Untagged);

    open spec fn spec_untag(self) -> Self::Untagged {
        (self.0@, self.1.spec_untag())
    }

    proof fn lemma_untag_len() {
        T::lemma_untag_len();
    }

    fn untag(self) -> (r: Self::Untagged) {
        let (elem, tail) = self;
        (elem.into_inner(), tail.untag())
    }
}

} // verus!
