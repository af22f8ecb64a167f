//! The model of left-folded sequences, and what each operation does to it.

use crate::counters::{Index, Successor, Zero};
use crate::lhlist::{Base, First, Invert, Last, Prepend, Reverse, Selector};
use crate::model::Observe;
use vstd::prelude::*;

verus! {

/// A left-folded sequence whose elements all read as values of `X`.
pub trait Elements<X>: Base {
    /// The readings of the elements, first to last.
    spec fn elements(self) -> Seq<X>;

    /// The model has one entry for each element.
    proof fn lemma_elements_len(self)
        ensures
            self.elements().len() == Self::spec_len(),
    ;
}

impl<X> Elements<X> for () {
    open spec fn elements(self) -> Seq<X> {
        Seq::empty()
    }

    proof fn lemma_elements_len(self) {
    }
}

impl<X, H: Elements<X>, E: Observe<X>> Elements<X> for (H, E) {
    open spec fn elements(self) -> Seq<X> {
        self.0.elements().push(self.1.observe())
    }

    proof fn lemma_elements_len(self) {
        self.0.lemma_elements_len();
    }
}

/// Appending pushes the new element's reading onto the model, and the last
/// element reads as the model's last entry.
pub proof fn lemma_append_elements<X, S: Elements<X>, E: Observe<X>>(s: S, e: E)
    ensures
        (s, e).elements() == s.elements().push(e.observe()),
        (s, e).spec_last().observe() == (s, e).elements().last(),
{
}

/// Writing the last element updates the model's last entry.
pub proof fn lemma_set_last_elements<X, S: Elements<X>, E: Observe<X>>(s: (S, E), v: E)
    ensures
        s.spec_set_last(v).elements() == s.elements().update(
            s.elements().len() - 1,
            v.observe(),
        ),
{
    assert(s.spec_set_last(v).elements() =~= s.elements().update(
        s.elements().len() - 1,
        v.observe(),
    ));
}

/// Prepending puts the new element's reading in front of the model.
pub trait PrependElements<E, X>: Prepend<E> + Elements<X> where
    E: Observe<X>,
    Self::Preprended: Elements<X>,
 {
    /// The model of `e` followed by `self` is the reading of `e` followed by
    /// the model of `self`.
    proof fn lemma_prepend_elements(self, e: E)
        ensures
            self.spec_prepend(e).elements() == seq![e.observe()] + self.elements(),
    ;
}

impl<E: Observe<X>, X> PrependElements<E, X> for () {
    proof fn lemma_prepend_elements(self, e: E) {
        assert(self.spec_prepend(e).elements() =~= seq![e.observe()] + Elements::<X>::elements(
            self,
        ));
    }
}

impl<E, X, H, T> PrependElements<E, X> for (H, T) where
    E: Observe<X>,
    T: Observe<X>,
    H: PrependElements<E, X>,
    H::Preprended: Elements<X>,
 {
    proof fn lemma_prepend_elements(self, e: E) {
        self.0.lemma_prepend_elements(e);
        assert(self.spec_prepend(e).elements() =~= seq![e.observe()] + self.elements());
    }
}

/// The first element reads as the model's first entry, and writing it
/// updates that entry.
pub trait FirstElements<X>: First + Elements<X> where Self::First: Observe<X> {
    /// `self` has a first element; it reads as the first entry of the model,
    /// and `self` with `v` written to it has the model with `v`'s reading as
    /// first entry.
    proof fn lemma_first_elements(self, v: Self::First)
        ensures
            self.elements().len() > 0,
            self.spec_first().observe() == self.elements().first(),
            self.spec_set_first(v).elements() == self.elements().update(0, v.observe()),
    ;
}

impl<X, E: Observe<X>> FirstElements<X> for ((), E) {
    proof fn lemma_first_elements(self, v: Self::First) {
        assert(self.spec_set_first(v).elements() =~= self.elements().update(0, v.observe()));
    }
}

impl<X, H, E, T> FirstElements<X> for ((H, E), T) where
    (H, E): FirstElements<X>,
    <(H, E) as First>::First: Observe<X>,
    T: Observe<X>,
 {
    proof fn lemma_first_elements(self, v: Self::First) {
        self.0.lemma_first_elements(v);
        assert(self.spec_set_first(v).elements() =~= self.elements().update(0, v.observe()));
    }
}

/// Inversion keeps the model: the right-folded sequence has the same
/// elements in the same order.
pub trait InvertElements<X>: Invert + Elements<X> where
    Self::Inverted: crate::model::right::Elements<X>,
 {
    /// The inverse of `self` has the model of `self`.
    proof fn lemma_invert_elements(self)
        ensures
            crate::model::right::Elements::elements(self.spec_invert()) == self.elements(),
    ;
}

impl<X> InvertElements<X> for () {
    proof fn lemma_invert_elements(self) {
    }
}

impl<X, H, E> InvertElements<X> for (H, E) where
    E: Observe<X>,
    H: InvertElements<X>,
    H::Inverted: crate::model::right::AppendElements<E, X>,
    <H::Inverted as crate::rhlist::Append<E>>::Appended: crate::model::right::Elements<X>,
 {
    proof fn lemma_invert_elements(self) {
        self.0.lemma_invert_elements();
        crate::model::right::AppendElements::lemma_append_elements(
            self.0.spec_invert(),
            self.1,
        );
    }
}

/// Reversal reverses the model.
pub trait ReverseElements<X>: Reverse + Elements<X> where Self::Reversed: Elements<X> {
    /// The reverse of `self` has the reversed model of `self`.
    proof fn lemma_reverse_elements(self)
        ensures
            self.spec_reverse().elements() == self.elements().reverse(),
    ;
}

impl<X> ReverseElements<X> for () {
    proof fn lemma_reverse_elements(self) {
        assert(Elements::<X>::elements(self.spec_reverse()) =~= Elements::<X>::elements(
            self,
        ).reverse());
    }
}

impl<X, H, E> ReverseElements<X> for (H, E) where
    E: Observe<X>,
    H: ReverseElements<X>,
    H::Reversed: PrependElements<E, X>,
    <H::Reversed as Prepend<E>>::Preprended: Elements<X>,
 {
    proof fn lemma_reverse_elements(self) {
        self.0.lemma_reverse_elements();
        self.0.spec_reverse().lemma_prepend_elements(self.1);
        assert(self.spec_reverse().elements() =~= self.elements().reverse());
    }
}

/// The element that the counter `I` selects reads as the model's entry
/// `I` places before the last, and writing it updates that entry.
pub trait SelectorElements<Needle, I, X>: Selector<Needle, I> + Elements<X> where
    I: Index,
    Needle: Observe<X>,
 {
    /// The model has an entry at the place that `I` names; the selected
    /// element reads as that entry, and `self` with `v` written to the
    /// selected element has the model with `v`'s reading at that place.
    proof fn lemma_selector_elements(self, v: Needle)
        ensures
            I::spec_index() < self.elements().len(),
            self.spec_get().observe() == self.elements()[self.elements().len() - 1
                - I::spec_index()],
            self.spec_set(v).elements() == self.elements().update(
                self.elements().len() - 1 - I::spec_index(),
                v.observe(),
            ),
    ;
}

impl<X, H: Elements<X>, Needle: Observe<X>> SelectorElements<Needle, Zero, X> for (H, Needle) {
    proof fn lemma_selector_elements(self, v: Needle) {
        assert(self.spec_set(v).elements() =~= self.elements().update(
            self.elements().len() - 1,
            v.observe(),
        ));
    }
}

impl<X, H, T, Needle, I> SelectorElements<Needle, Successor<I>, X> for (H, T) where
    H: SelectorElements<Needle, I, X>,
    T: Observe<X>,
    Needle: Observe<X>,
    I: Index,
 {
    proof fn lemma_selector_elements(self, v: Needle) {
        self.0.lemma_selector_elements(v);
        assert(self.spec_set(v).elements() =~= self.elements().update(
            self.elements().len() - 1 - <Successor<I> as Index>::spec_index(),
            v.observe(),
        ));
    }
}

/// A left-folded tagged sequence whose values all read as values of `X`.
pub trait Values<X>: crate::indexed::lhlist::Base {
    /// The readings of the values under the tags, first to last.
    spec fn values(self) -> Seq<X>;

    /// There is one value for each tag.
    proof fn lemma_values_len(self)
        ensures
            self.values().len() == Self::spec_tags().len(),
    ;
}

impl<X> Values<X> for () {
    open spec fn values(self) -> Seq<X> {
        Seq::empty()
    }

    proof fn lemma_values_len(self) {
    }
}

impl<const INDEX: usize, X, H: Values<X>, E: Observe<X>> Values<X> for (
    H,
    crate::indexed::Indexed<INDEX, E>,
) {
    open spec fn values(self) -> Seq<X> {
        self.0.values().push(self.1@.observe())
    }

    proof fn lemma_values_len(self) {
        self.0.lemma_values_len();
    }
}

/// Stripping the tags keeps the values and their order: the model of the
/// stripped sequence is the sequence of the values under the tags.
pub trait UntagElements<X>: crate::indexed::lhlist::Untag + Values<X> where
    Self::Untagged: Elements<X>,
 {
    /// The model of `self` without its tags is the sequence of the values of
    /// `self`.
    proof fn lemma_untag_elements(self)
        ensures
            self.spec_untag().elements() == self.values(),
    ;
}

impl<X> UntagElements<X> for () {
    proof fn lemma_untag_elements(self) {
    }
}

impl<const INDEX: usize, X, H, E> UntagElements<X> for (H, crate::indexed::Indexed<INDEX, E>) where
    H: UntagElements<X>,
    H::Untagged: Elements<X>,
    E: Observe<X>,
 {
    proof fn lemma_untag_elements(self) {
        self.0.lemma_untag_elements();
    }
}

} // verus!
