//! Both representations under one roof, with prefixed names.
//!
//! This module offers the core of [`crate::lhlist`] and [`crate::rhlist`] as
//! one flat set of traits: `LHList…` for left-folded sequences
//! `(prior, element)` and `RHList…` for right-folded sequences
//! `(element, rest)`. It stands on its own: each trait has its own impls by
//! structural induction and its own `spec_*` function that defines the
//! result. [`crate::laws::flat`] proves that these results are those of
//! `lhlist` and `rhlist`. The counters and the tagged element are those of
//! [`crate::counters`] and [`crate::indexed`].

pub use crate::counters::{Index, Successor, Zero};
pub use crate::indexed::Indexed;
use vstd::prelude::*;

verus! {

/// A right-folded sequence.
pub trait RHList: Sized {
    /// The number of elements, as a compile-time constant.
    const LENGTH: usize;

    /// The number of elements.
    spec fn spec_len() -> nat;

    /// The number of elements, as a run-time value.
    fn length(&self) -> (n: usize)
        requires
            Self::spec_len() <= usize::MAX,
        ensures
            n == Self::spec_len(),
    ;

    /// Adds `h` before the first element.
    fn prepend<H>(self, h: H) -> (r: (H, Self))
        ensures
            r == (h, self),
    {
        (h, self)
    }
}

impl RHList for () {
    const LENGTH: usize = 0;

    open spec fn spec_len() -> nat {
        0
    }

    fn length(&self) -> (n: usize) {
        0
    }
}

impl<H, T: RHList> RHList for (H, T) {
    const LENGTH: usize = T::LENGTH + 1;

    open spec fn spec_len() -> nat {
        T::spec_len() + 1
    }

    fn length(&self) -> (n: usize) {
        self.1.length() + 1
    }
}

/// A left-folded sequence.
pub trait LHList: Sized {
    /// The number of elements, as a compile-time constant.
    const LENGTH: usize;

    /// The number of elements.
    spec fn spec_len() -> nat;

    /// The number of elements, as a run-time value.
    fn length(&self) -> (n: usize)
        requires
            Self::spec_len() <= usize::MAX,
        ensures
            n == Self::spec_len(),
    ;

    /// Adds `t` behind the last element.
    fn append<T>(self, t: T) -> (r: (Self, T))
        ensures
            r == (self, t),
    {
        (self, t)
    }
}

impl LHList for () {
    const LENGTH: usize = 0;

    open spec fn spec_len() -> nat {
        0
    }

    fn length(&self) -> (n: usize) {
        0
    }
}

impl<T: LHList, H> LHList for (T, H) {
    const LENGTH: usize = T::LENGTH + 1;

    open spec fn spec_len() -> nat {
        T::spec_len() + 1
    }

    fn length(&self) -> (n: usize) {
        self.0.length() + 1
    }
}

/// Insertion before the first element of a left-folded sequence.
pub trait LHListPrepend<E>: LHList {
    /// The type of the sequence with an `E` added at its head.
    type Preprended: LHList;

    /// The sequence `elem` followed by `self`.
    spec fn spec_prepend(self, elem: E) -> Self::Preprended;

    /// The prepended sequence is one element longer.
    proof fn lemma_prepend_len()
        ensures
            <Self::Preprended as LHList>::spec_len() == Self::spec_len() + 1,
    ;

    /// Adds `elem` before the first element.
    fn prepend(self, elem: E) -> (r: Self::Preprended)
        ensures
            r == self.spec_prepend(elem),
            <Self::Preprended as LHList>::spec_len() == Self::spec_len() + 1,
    ;
}

impl<E> LHListPrepend<E> for () {
    type Preprended = ((), E);

    open spec fn spec_prepend(self, elem: E) -> Self::Preprended {
        ((), elem)
    }

    proof fn lemma_prepend_len() {
    }

    fn prepend(self, elem: E) -> (r: Self::Preprended) {
        (self, elem)
    }
}

impl<E, H: LHListPrepend<E>, T> LHListPrepend<E> for (H, T) {
    type Preprended = (<H as LHListPrepend<E>>::Preprended, T);

    open spec fn spec_prepend(self, elem: E) -> Self::Preprended {
        (self.0.spec_prepend(elem), self.1)
    }

    proof fn lemma_prepend_len() {
        H::lemma_prepend_len();
    }

    fn prepend(self, elem: E) -> (r: Self::Preprended) {
        let (head, tail) = self;
        (head.prepend(elem), tail)
    }
}

/// Insertion behind the last element of a right-folded sequence.
pub trait RHListAppend<E>: RHList {
    /// The type of the sequence with an `E` added at its tail.
    type Appended: RHList;

    /// The sequence `self` followed by `elem`.
    spec fn spec_append(self, elem: E) -> Self::Appended;

    /// The appended sequence is one element longer.
    proof fn lemma_append_len()
        ensures
            <Self::Appended as RHList>::spec_len() == Self::spec_len() + 1,
    ;

    /// Adds `elem` behind the last element.
    fn append(self, elem: E) -> (r: Self::Appended)
        ensures
            r == self.spec_append(elem),
            <Self::Appended as RHList>::spec_len() == Self::spec_len() + 1,
    ;
}

impl<E> RHListAppend<E> for () {
    type Appended = (E, ());

    open spec fn spec_append(self, elem: E) -> Self::Appended {
        (elem, ())
    }

    proof fn lemma_append_len() {
    }

    fn append(self, elem: E) -> (r: Self::Appended) {
        (elem, ())
    }
}

impl<E, H, T: RHListAppend<E>> RHListAppend<E> for (H, T) {
    type Appended = (H, <T as RHListAppend<E>>::Appended);

    open spec fn spec_append(self, elem: E) -> Self::Appended {
        (self.0, self.1.spec_append(elem))
    }

    proof fn lemma_append_len() {
        T::lemma_append_len();
    }

    fn append(self, elem: E) -> (r: Self::Appended) {
        let (head, tail) = self;
        (head, tail.append(elem))
    }
}

/// Access to the last element of a right-folded sequence, the innermost one.
pub trait RHListLast: RHList {
    /// The type of the last element.
    type Last;

    /// The last element.
    spec fn spec_last(&self) -> Self::Last;

    /// The last element.
    fn last(&self) -> (r: &Self::Last)
        ensures
            *r == self.spec_last(),
    ;
}

impl<E> RHListLast for (E, ()) {
    type Last = E;

    open spec fn spec_last(&self) -> Self::Last {
        self.0
    }

    fn last(&self) -> (r: &Self::Last) {
        &self.0
    }
}

impl<H, E, T> RHListLast for (H, (E, T)) where (E, T): RHListLast {
    type Last = <(E, T) as RHListLast>::Last;

    open spec fn spec_last(&self) -> Self::Last {
        self.1.spec_last()
    }

    fn last(&self) -> (r: &Self::Last) {
        self.1.last()
    }
}

/// Access to the first element of a left-folded sequence, the innermost one.
pub trait LHListFirst: LHList {
    /// The type of the first element.
    type First;

    /// The first element.
    spec fn spec_first(&self) -> Self::First;

    /// The first element.
    fn first(&self) -> (r: &Self::First)
        ensures
            *r == self.spec_first(),
    ;
}

impl<E> LHListFirst for ((), E) {
    type First = E;

    open spec fn spec_first(&self) -> Self::First {
        self.1
    }

    fn first(&self) -> (r: &Self::First) {
        &self.1
    }
}

impl<H, E, T> LHListFirst for ((H, E), T) where (H, E): LHListFirst {
    type First = <(H, E) as LHListFirst>::First;

    open spec fn spec_first(&self) -> Self::First {
        self.0.spec_first()
    }

    fn first(&self) -> (r: &Self::First) {
        self.0.first()
    }
}

/// Conversion of a left-folded sequence to the right-folded representation,
/// keeping the order of the elements.
pub trait LHListInvert: LHList {
    /// The right-folded sequence type with the same elements in the same
    /// order.
    type Inverted: RHList;

    /// The right-folded sequence with the same elements in the same order.
    spec fn spec_invert(self) -> Self::Inverted;

    /// Inverting keeps the length.
    proof fn lemma_invert_len()
        ensures
            <Self::Inverted as RHList>::spec_len() == Self::spec_len(),
    ;

    /// Converts to the right-folded representation.
    fn invert(self) -> (r: Self::Inverted)
        ensures
            r == self.spec_invert(),
            <Self::Inverted as RHList>::spec_len() == Self::spec_len(),
    ;
}

impl LHListInvert for () {
    type Inverted = ();

    open spec fn spec_invert(self) -> Self::Inverted {
        ()
    }

    proof fn lemma_invert_len() {
    }

    fn invert(self) -> (r: Self::Inverted) {
        self
    }
}

impl<H: LHListInvert, E> LHListInvert for (H, E) where H::Inverted: RHListAppend<E> {
    type Inverted = <H::Inverted as RHListAppend<E>>::Appended;

    open spec fn spec_invert(self) -> Self::Inverted {
        self.0.spec_invert().spec_append(self.1)
    }

    proof fn lemma_invert_len() {
        H::lemma_invert_len();
        <H::Inverted as RHListAppend<E>>::lemma_append_len();
    }

    fn invert(self) -> (r: Self::Inverted) {
        let (head, elem) = self;
        head.invert().append(elem)
    }
}

/// Conversion of a right-folded sequence to the left-folded representation,
/// keeping the order of the elements.
pub trait RHListInvert: RHList {
    /// The left-folded sequence type with the same elements in the same
    /// order.
    type Inverted: LHList;

    /// The left-folded sequence with the same elements in the same order.
    spec fn spec_invert(self) -> Self::Inverted;

    /// Inverting keeps the length.
    proof fn lemma_invert_len()
        ensures
            <Self::Inverted as LHList>::spec_len() == Self::spec_len(),
    ;

    /// Converts to the left-folded representation.
    fn invert(self) -> (r: Self::Inverted)
        ensures
            r == self.spec_invert(),
            <Self::Inverted as LHList>::spec_len() == Self::spec_len(),
    ;
}

impl RHListInvert for () {
    type Inverted = ();

    open spec fn spec_invert(self) -> Self::Inverted {
        ()
    }

    proof fn lemma_invert_len() {
    }

    fn invert(self) -> (r: Self::Inverted) {
        ()
    }
}

impl<E, T: RHListInvert> RHListInvert for (E, T) where T::Inverted: LHListPrepend<E> {
    type Inverted = <T::Inverted as LHListPrepend<E>>::Preprended;

    open spec fn spec_invert(self) -> Self::Inverted {
        self.1.spec_invert().spec_prepend(self.0)
    }

    proof fn lemma_invert_len() {
        T::lemma_invert_len();
        <T::Inverted as LHListPrepend<E>>::lemma_prepend_len();
    }

    fn invert(self) -> (r: Self::Inverted) {
        let (elem, tail) = self;
        tail.invert().prepend(elem)
    }
}

/// Reversal of a left-folded sequence.
pub trait LHListReverse: LHList {
    /// The left-folded sequence type with the element types in opposite
    /// order.
    type Reversed: LHList;

    /// The left-folded sequence with the same elements in opposite order.
    spec fn spec_reverse(self) -> Self::Reversed;

    /// Reversing keeps the length.
    proof fn lemma_reverse_len()
        ensures
            <Self::Reversed as LHList>::spec_len() == Self::spec_len(),
    ;

    /// Reverses the order of the elements.
    fn reverse(self) -> (r: Self::Reversed)
        ensures
            r == self.spec_reverse(),
            <Self::Reversed as LHList>::spec_len() == Self::spec_len(),
    ;
}

impl LHListReverse for () {
    type Reversed = ();

    open spec fn spec_reverse(self) -> Self::Reversed {
        ()
    }

    proof fn lemma_reverse_len() {
    }

    fn reverse(self) -> (r: Self::Reversed) {
        self
    }
}

impl<H: LHListReverse, E> LHListReverse for (H, E) where H::Reversed: LHListPrepend<E> {
    type Reversed = <H::Reversed as LHListPrepend<E>>::Preprended;

    open spec fn spec_reverse(self) -> Self::Reversed {
        self.0.spec_reverse().spec_prepend(self.1)
    }

    proof fn lemma_reverse_len() {
        H::lemma_reverse_len();
        <H::Reversed as LHListPrepend<E>>::lemma_prepend_len();
    }

    fn reverse(self) -> (r: Self::Reversed) {
        let (head, elem) = self;
        head.reverse().prepend(elem)
    }
}

/// Reversal of a right-folded sequence.
pub trait RHListReverse {
    /// The right-folded sequence type with the element types in opposite
    /// order.
    type Reversed: RHList;

    /// The right-folded sequence with the same elements in opposite order.
    spec fn spec_reverse(self) -> Self::Reversed;

    /// Reverses the order of the elements.
    fn reverse(self) -> (r: Self::Reversed)
        ensures
            r == self.spec_reverse(),
    ;
}

impl RHListReverse for () {
    type Reversed = ();

    open spec fn spec_reverse(self) -> Self::Reversed {
        ()
    }

    fn reverse(self) -> (r: Self::Reversed) {
        self
    }
}

impl<E, T: RHList + RHListReverse> RHListReverse for (E, T) where T::Reversed: RHListAppend<E> {
    type Reversed = <T::Reversed as RHListAppend<E>>::Appended;

    open spec fn spec_reverse(self) -> Self::Reversed {
        self.1.spec_reverse().spec_append(self.0)
    }

    fn reverse(self) -> (r: Self::Reversed) {
        let (elem, tail) = self;
        tail.reverse().append(elem)
    }
}

/// Lookup of an element of a left-folded sequence by its type. `Zero` names
/// the last element, and each `Successor` steps one element towards the
/// first.
pub trait LHListSelector<Needle, I>: LHList where I: Index {
    /// The element of type `Needle` that `I` names.
    spec fn spec_get(&self) -> Needle;

    /// `self` with `v` in place of the element that `I` names.
    spec fn spec_set(self, v: Needle) -> Self;

    /// The selected element.
    fn get(&self) -> (r: &Needle)
        ensures
            *r == self.spec_get(),
    ;

    /// Exclusive access to the selected element. Nothing else changes.
    fn get_mut(&mut self) -> (r: &mut Needle)
        ensures
            *r == old(self).spec_get(),
            *final(self) == old(self).spec_set(*final(r)),
    ;
}

impl<H: LHList, Needle> LHListSelector<Needle, Zero> for (H, Needle) {
    open spec fn spec_get(&self) -> Needle {
        self.1
    }

    open spec fn spec_set(self, v: Needle) -> Self {
        (self.0, v)
    }

    fn get(&self) -> (r: &Needle) {
        &self.1
    }

    fn get_mut(&mut self) -> (r: &mut Needle) {
        &mut self.1
    }
}

impl<H, T, Needle, I> LHListSelector<Needle, Successor<I>> for (H, T) where
    H: LHListSelector<Needle, I>,
    I: Index,
 {
    open spec fn spec_get(&self) -> Needle {
        self.0.spec_get()
    }

    open spec fn spec_set(self, v: Needle) -> Self {
        (self.0.spec_set(v), self.1)
    }

    fn get(&self) -> (r: &Needle) {
        self.0.get()
    }

    fn get_mut(&mut self) -> (r: &mut Needle) {
        self.0.get_mut()
    }
}

/// Lookup of an element of a right-folded sequence by its type. `Zero` names
/// the first element, and each `Successor` steps one element towards the
/// last.
pub trait RHListSelector<Needle, I>: RHList where I: Index {
    /// The element of type `Needle` that `I` names.
    spec fn spec_get(&self) -> Needle;

    /// `self` with `v` in place of the element that `I` names.
    spec fn spec_set(self, v: Needle) -> Self;

    /// The selected element.
    fn get(&self) -> (r: &Needle)
        ensures
            *r == self.spec_get(),
    ;

    /// Exclusive access to the selected element. Nothing else changes.
    fn get_mut(&mut self) -> (r: &mut Needle)
        ensures
            *r == old(self).spec_get(),
            *final(self) == old(self).spec_set(*final(r)),
    ;
}

impl<Needle, T: RHList> RHListSelector<Needle, Zero> for (Needle, T) {
    open spec fn spec_get(&self) -> Needle {
        self.0
    }

    open spec fn spec_set(self, v: Needle) -> Self {
        (v, self.1)
    }

    fn get(&self) -> (r: &Needle) {
        &self.0
    }

    fn get_mut(&mut self) -> (r: &mut Needle) {
        &mut self.0
    }
}

impl<H, T, Needle, I> RHListSelector<Needle, Successor<I>> for (H, T) where
    T: RHListSelector<Needle, I>,
    I: Index,
 {
    open spec fn spec_get(&self) -> Needle {
        self.1.spec_get()
    }

    open spec fn spec_set(self, v: Needle) -> Self {
        (self.0, self.1.spec_set(v))
    }

    fn get(&self) -> (r: &Needle) {
        self.1.get()
    }

    fn get_mut(&mut self) -> (r: &mut Needle) {
        self.1.get_mut()
    }
}

/// A left-folded sequence whose every element is tagged.
pub trait LHListIndexed: LHList {

}

impl LHListIndexed for () {

}

impl<const INDEX: usize, H: LHListIndexed, E> LHListIndexed for (H, Indexed<INDEX, E>) {

}

/// A right-folded sequence whose every element is tagged.
pub trait RHListIndexed: RHList {

}

impl RHListIndexed for () {

}

impl<const INDEX: usize, E, T: RHListIndexed> RHListIndexed for (Indexed<INDEX, E>, T) {

}

/// Growth of a left-folded tagged sequence by one element under the tag
/// `INDEX`. The empty sequence takes its first element under the tag 0 only.
pub trait LHListAppendIndexed<const INDEX: usize, E>: LHListIndexed {
    /// The type of the sequence with an `E` tagged `INDEX` added at its
    /// tail.
    type AppendedIndexed: LHListIndexed;

    /// The sequence `self` followed by `value` under the tag `INDEX`.
    spec fn spec_append_indexed(self, value: E) -> Self::AppendedIndexed;

    /// Adds `value` behind the last element, under the tag `INDEX`.
    fn append_indexed(self, value: E) -> (r: Self::AppendedIndexed)
        ensures
            r == self.spec_append_indexed(value),
    ;
}

impl<E> LHListAppendIndexed<0, E> for () {
    type AppendedIndexed = ((), Indexed<0, E>);

    open spec fn spec_append_indexed(self, value: E) -> Self::AppendedIndexed {
        ((), Indexed::spec_new(value))
    }

    fn append_indexed(self, value: E) -> (r: Self::AppendedIndexed) {
        ((), Indexed::new(value))
    }
}

impl<const INDEX: usize, H, T, E> LHListAppendIndexed<INDEX, E> for (H, T) where
    (H, T): LHListIndexed,
 {
    type AppendedIndexed = ((H, T), Indexed<INDEX, E>);

    open spec fn spec_append_indexed(self, value: E) -> Self::AppendedIndexed {
        (self, Indexed::spec_new(value))
    }

    fn append_indexed(self, value: E) -> (r: Self::AppendedIndexed) {
        (self, Indexed::new(value))
    }
}

/// Growth of a right-folded tagged sequence by one element under the tag
/// `INDEX`, at its head. The empty sequence takes its first element under
/// the tag 0 only.
pub trait RHListAppendIndexed<const INDEX: usize, E>: RHListIndexed {
    /// The type of the sequence with an `E` tagged `INDEX` added at its
    /// head.
    type AppendedIndexed: RHListIndexed;

    /// The sequence `value` under the tag `INDEX`, followed by `self`.
    spec fn spec_append_indexed(self, value: E) -> Self::AppendedIndexed;

    /// Adds `value` before the first element, under the tag `INDEX`.
    fn append_indexed(self, value: E) -> (r: Self::AppendedIndexed)
        ensures
            r == self.spec_append_indexed(value),
    ;
}

impl<E> RHListAppendIndexed<0, E> for () {
    type AppendedIndexed = (Indexed<0, E>, ());

    open spec fn spec_append_indexed(self, value: E) -> Self::AppendedIndexed {
        (Indexed::spec_new(value), ())
    }

    fn append_indexed(self, value: E) -> (r: Self::AppendedIndexed) {
        (Indexed::new(value), ())
    }
}

impl<const INDEX: usize, H, T, E> RHListAppendIndexed<INDEX, E> for (H, T) where
    (H, T): RHListIndexed,
 {
    type AppendedIndexed = (Indexed<INDEX, E>, (H, T));

    open spec fn spec_append_indexed(self, value: E) -> Self::AppendedIndexed {
        (Indexed::spec_new(value), self)
    }

    fn append_indexed(self, value: E) -> (r: Self::AppendedIndexed) {
        (Indexed::new(value), self)
    }
}

} // verus!
