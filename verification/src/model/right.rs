//! The model of right-folded sequences, and what each operation does to it.

use crate::counters::{Index, Successor, Zero};
use crate::model::Observe;
use crate::rhlist::{Append, Base, First, Invert, Last, Reverse, Selector};
use vstd::prelude::*;

verus! {

/// A right-folded sequence whose elements all read as values of `X`.
pub trait Elements<X>: Base {
    /// The readings of the elements, first to last.
    spec fn elements(self) -> Seq<X>;

    /// The model has one entry for each element.
    proof fn lemma_elements_len(self)
        ensures
            self.elements().len() == Self::spec_len(),
    ;
}

impl<X> Elements<X> for () {
    open spec fn elements(self) -> Seq<X> {
        Seq::empty()
    }

    proof fn lemma_elements_len(self) {
    }
}

impl<X, E: Observe<X>, T: Elements<X>> Elements<X> for (E, T) {
    open spec fn elements(self) -> Seq<X> {
        seq![self.0.observe()] + self.1.elements()
    }

    proof fn lemma_elements_len(self) {
        self.1.lemma_elements_len();
    }
}

/// Prepending puts the new element's reading in front of the model, and the
/// first element reads as the model's first entry.
pub proof fn lemma_prepend_elements<X, S: Elements<X>, E: Observe<X>>(s: S, e: E)
    ensures
        (e, s).elements() == seq![e.observe()] + s.elements(),
        (e, s).spec_first().observe() == (e, s).elements().first(),
{
}

/// Writing the first element updates the model's first entry.
pub proof fn lemma_set_first_elements<X, S: Elements<X>, E: Observe<X>>(s: (E, S), v: E)
    ensures
        s.spec_set_first(v).elements() == s.elements().update(0, v.observe()),
{
    assert(s.spec_set_first(v).elements() =~= s.elements().update(0, v.observe()));
}

/// Appending pushes the new element's reading onto the model.
pub trait AppendElements<E, X>: Append<E> + Elements<X> where
    E: Observe<X>,
    Self::Appended: Elements<X>,
 {
    /// The model of `self` followed by `e` is the model of `self` followed by
    /// the reading of `e`.
    proof fn lemma_append_elements(self, e: E)
        ensures
            self.spec_append(e).elements() == self.elements().push(e.observe()),
    ;
}

impl<E: Observe<X>, X> AppendElements<E, X> for () {
    proof fn lemma_append_elements(self, e: E) {
        assert(self.spec_append(e).elements() =~= Elements::<X>::elements(self).push(
            e.observe(),
        ));
    }
}

impl<E, X, H, T> AppendElements<E, X> for (H, T) where
    E: Observe<X>,
    H: Observe<X>,
    T: AppendElements<E, X>,
    T::Appended: Elements<X>,
 {
    proof fn lemma_append_elements(self, e: E) {
        self.1.lemma_append_elements(e);
        assert(self.spec_append(e).elements() =~= self.elements().push(e.observe()));
    }
}

/// The last element reads as the model's last entry, and writing it updates
/// that entry.
pub trait LastElements<X>: Last + Elements<X> where Self::Last: Observe<X> {
    /// `self` has a last element; it reads as the last entry of the model,
    /// and `self` with `v` written to it has the model with `v`'s reading as
    /// last entry.
    proof fn lemma_last_elements(self, v: Self::Last)
        ensures
            self.elements().len() > 0,
            self.spec_last().observe() == self.elements().last(),
            self.spec_set_last(v).elements() == self.elements().update(
                self.elements().len() - 1,
                v.observe(),
            ),
    ;
}

impl<X, E: Observe<X>> LastElements<X> for (E, ()) {
    proof fn lemma_last_elements(self, v: Self::Last) {
        assert(self.spec_set_last(v).elements() =~= self.elements().update(0, v.observe()));
    }
}

impl<X, H, E, T> LastElements<X> for (H, (E, T)) where
    (E, T): LastElements<X>,
    <(E, T) as Last>::Last: Observe<X>,
    H: Observe<X>,
 {
    proof fn lemma_last_elements(self, v: Self::Last) {
        self.1.lemma_last_elements(v);
        assert(self.spec_set_last(v).elements() =~= self.elements().update(
            self.elements().len() - 1,
            v.observe(),
        ));
    }
}

/// Inversion keeps the model: the left-folded sequence has the same elements
/// in the same order.
pub trait InvertElements<X>: Invert + Elements<X> where
    Self::Inverted: crate::model::left::Elements<X>,
 {
    /// The inverse of `self` has the model of `self`.
    proof fn lemma_invert_elements(self)
        ensures
            crate::model::left::Elements::elements(self.spec_invert()) == self.elements(),
    ;
}

impl<X> InvertElements<X> for () {
    proof fn lemma_invert_elements(self) {
    }
}

impl<X, E, T> InvertElements<X> for (E, T) where
    E: Observe<X>,
    T: InvertElements<X>,
    T::Inverted: crate::model::left::PrependElements<E, X>,
    <T::Inverted as crate::lhlist::Prepend<E>>::Preprended: crate::model::left::Elements<X>,
 {
    proof fn lemma_invert_elements(self) {
        self.1.lemma_invert_elements();
        crate::model::left::PrependElements::lemma_prepend_elements(
            self.1.spec_invert(),
            self.0,
        );
    }
}

/// Reversal reverses the model.
pub trait ReverseElements<X>: Reverse + Elements<X> where Self::Reversed: Elements<X> {
    /// The reverse of `self` has the reversed model of `self`.
    proof fn lemma_reverse_elements(self)
        ensures
            self.spec_reverse().elements() == self.elements().reverse(),
    ;
}

impl<X> ReverseElements<X> for () {
    proof fn lemma_reverse_elements(self) {
        assert(Elements::<X>::elements(self.spec_reverse()) =~= Elements::<X>::elements(
            self,
        ).reverse());
    }
}

impl<X, E, T> ReverseElements<X> for (E, T) where
    E: Observe<X>,
    T: ReverseElements<X>,
    T::Reversed: AppendElements<E, X>,
    <T::Reversed as Append<E>>::Appended: Elements<X>,
 {
    proof fn lemma_reverse_elements(self) {
        self.1.lemma_reverse_elements();
        self.1.spec_reverse().lemma_append_elements(self.0);
        assert(self.spec_reverse().elements() =~= self.elements().reverse());
    }
}

/// The element that the counter `I` selects reads as the model's entry
/// `I` places behind the first, and writing it updates that entry.
pub trait SelectorElements<Needle, I, X>: Selector<Needle, I> + Elements<X> where
    I: Index,
    Needle: Observe<X>,
 {
    /// The model has an entry at the place that `I` names; the selected
    /// element reads as that entry, and `self` with `v` written to the
    /// selected element has the model with `v`'s reading at that place.
    proof fn lemma_selector_elements(self, v: Needle)
        ensures
            I::spec_index() < self.elements().len(),
            self.spec_get().observe() == self.elements()[I::spec_index() as int],
            self.spec_set(v).elements() == self.elements().update(
                I::spec_index() as int,
                v.observe(),
            ),
    ;
}

impl<X, Needle: Observe<X>, T: Elements<X>> SelectorElements<Needle, Zero, X> for (Needle, T) {
    proof fn lemma_selector_elements(self, v: Needle) {
        assert(self.spec_set(v).elements() =~= self.elements().update(0, v.observe()));
    }
}

impl<X, H, T, Needle, I> SelectorElements<Needle, Successor<I>, X> for (H, T) where
    T: SelectorElements<Needle, I, X>,
    H: Observe<X>,
    Needle: Observe<X>,
    I: Index,
 {
    proof fn lemma_selector_elements(self, v: Needle) {
        self.1.lemma_selector_elements(v);
        assert(self.spec_set(v).elements() =~= self.elements().update(
            <Successor<I> as Index>::spec_index() as int,
            v.observe(),
        ));
    }
}

/// A right-folded tagged sequence whose values all read as values of `X`.
pub trait Values<X>: crate::indexed::rhlist::Base {
    /// The readings of the values under the tags, first to last.
    spec fn values(self) -> Seq<X>;

    /// There is one value for each tag.
    proof fn lemma_values_len(self)
        ensures
            self.values().len() == Self::spec_tags().len(),
    ;
}

impl<X> Values<X> for () {
    open spec fn values(self) -> Seq<X> {
        Seq::empty()
    }

    proof fn lemma_values_len(self) {
    }
}

impl<const INDEX: usize, X, E: Observe<X>, T: Values<X>> Values<X> for (
    crate::indexed::Indexed<INDEX, E>,
    T,
) {
    open spec fn values(self) -> Seq<X> {
        seq![self.0@.observe()] + self.1.values()
    }

    proof fn lemma_values_len(self) {
        self.1.lemma_values_len();
    }
}

/// Stripping the tags keeps the values and their order: the model of the
/// stripped sequence is the sequence of the values under the tags.
pub trait UntagElements<X>: crate::indexed::rhlist::Untag + Values<X> where
    Self::Untagged: Elements<X>,
 {
    /// The model of `self` without its tags is the sequence of the values of
    /// `self`.
    proof fn lemma_untag_elements(self)
        ensures
            self.spec_untag().elements() == self.values(),
    ;
}

impl<X> UntagElements<X> for () {
    proof fn lemma_untag_elements(self) {
    }
}

impl<const INDEX: usize, X, E, T> UntagElements<X> for (crate::indexed::Indexed<INDEX, E>, T) where
    T: UntagElements<X>,
    T::Untagged: Elements<X>,
    E: Observe<X>,
 {
    proof fn lemma_untag_elements(self) {
        self.1.lemma_untag_elements();
    }
}

} // verus!
