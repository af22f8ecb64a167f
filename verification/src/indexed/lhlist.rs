//! Left-folded tagged sequences.

use crate::indexed::Indexed;
use vstd::prelude::*;

verus! {

/// A left-folded sequence whose every element is tagged.
pub trait Base: crate::lhlist::Base {
    /// The tags of the elements, first to last.
    spec fn spec_tags() -> Seq<nat>;

    /// There is one tag for each element.
    proof fn lemma_tags_len()
        ensures
            Self::spec_tags().len() == Self::spec_len(),
    ;
}

impl Base for () {
    open spec fn spec_tags() -> Seq<nat> {
        Seq::empty()
    }

    proof fn lemma_tags_len() {
    }
}

impl<const INDEX: usize, H: Base, E> Base for (H, Indexed<INDEX, E>) {
    open spec fn spec_tags() -> Seq<nat> {
        H::spec_tags().push(INDEX as nat)
    }

    proof fn lemma_tags_len() {
        H::lemma_tags_len();
    }
}

/// The left-folded tagged sequences without elements.
pub trait Empty: Base {
    /// The empty sequence.
    spec fn spec_default() -> Self;

    /// The empty sequence.
    fn default() -> (r: Self)
        ensures
            r == Self::spec_default(),
            Self::spec_len() == 0,
    ;

    /// Adds `value` to the empty sequence, under the tag 0.
    fn appned_indexed<E>(self, value: E) -> (r: (Self, Indexed<0, E>))
        ensures
            r.0 == self,
            r.1@ == value,
    ;

    /// The sequence of the one element `value`, under the tag 0.
    fn new<E>(value: E) -> (r: (Self, Indexed<0, E>))
        ensures
            r.0 == Self::spec_default(),
            r.1@ == value,
    ;
}

impl Empty for () {
    open spec fn spec_default() -> Self {
        ()
    }

    fn default() -> (r: Self) {
        ()
    }

    fn new<E>(value: E) -> (r: (Self, Indexed<0, E>)) {
        ((), Indexed::new(value))
    }

    fn appned_indexed<E>(self, value: E) -> (r: (Self, Indexed<0, E>)) {
        <Self as Empty>::new(value)
    }
}

/// Whether `s` is the empty sequence of its type.
pub open spec fn is_default<S: Empty>(s: S) -> bool {
    s == S::spec_default()
}

/// The empty left-folded tagged sequence.
pub fn new() -> (r: impl Empty)
    ensures
        is_default(r),
{
    <() as Empty>::default()
}

/// Insertion of a tagged element behind the last element.
pub trait Append<E>: Base {
    /// Adds `value` behind the last element, under the tag `INDEX`.
    fn append_indexed<const INDEX: usize>(self, value: E) -> (r: (Self, Indexed<INDEX, E>))
        ensures
            r.0 == self,
            r.1@ == value,
            <(Self, Indexed<INDEX, E>) as Base>::spec_tags() == Self::spec_tags().push(
                INDEX as nat,
            ),
    ;
}

impl<E> Append<E> for () {
    fn append_indexed<const INDEX: usize>(self, value: E) -> (r: (Self, Indexed<INDEX, E>)) {
        (self, Indexed::new(value))
    }
}

impl<H, T, E> Append<E> for (H, T) where (H, T): Base {
    fn append_indexed<const INDEX: usize>(self, value: E) -> (r: (Self, Indexed<INDEX, E>)) {
        (self, Indexed::new(value))
    }
}

/// Projection to the ordinary left-folded sequence of the same values in the
/// same order, without the tags.
pub trait Untag: Base {
    /// The type of the sequence without tags.
    type Untagged: crate::lhlist::Base;

    /// The values of `self`, in the same order, without their tags.
    spec fn spec_untag(self) -> Self::Untagged;

    /// Stripping the tags keeps the length.
    proof fn lemma_untag_len()
        ensures
            <Self::Untagged as crate::lhlist::Base>::spec_len() == Self::spec_len(),
    ;

    /// Strips the tags.
    fn untag(self) -> (r: Self::Untagged)
        ensures
            r == self.spec_untag(),
            <Self::Untagged as crate::lhlist::Base>::spec_len() == Self::spec_len(),
    ;
}

impl Untag for () {
    type Untagged = ();

    open spec fn spec_untag(self) -> Self::Untagged {
        ()
    }

    proof fn lemma_untag_len() {
    }

    fn untag(self) -> (r: Self::Untagged) {
        ()
    }
}

impl<const INDEX: usize, H: Untag, E> Untag for (H, Indexed<INDEX, E>) {
    type Untagged = (H::Untagged, E);

    open spec fn spec_untag(self) -> Self::Untagged {
        (self.0.spec_untag(), self.1@)
    }

    proof fn lemma_untag_len() {
        H::lemma_untag_len();
    }

    fn untag(self) -> (r: Self::Untagged) {
        let (head, elem) = self;
        (head.untag(), elem.into_inner())
    }
}

} // verus!
