//! Right-folded sequences.
//!
//! A right-folded sequence is `()` or `(element, rest)`, where `rest` is the
//! right-folded sequence of everything after `element`. The sequence holding
//! `a`, `b`, `c` in that order is `(a, (b, (c, ())))`: the first element is
//! outermost, the last innermost.
//!
//! Each operation is a trait with one impl for the terminal and one for the
//! node. The `spec_*` function of a trait defines the operation's result; the
//! executable method is verified to return exactly that value.

use crate::counters::{Index, Successor, Zero};
use vstd::prelude::*;

verus! {

/// A right-folded sequence.
pub trait Base: Sized {
    /// The number of elements, as a compile-time constant.
    const LENGTH: usize;

    /// The number of elements.
    spec fn spec_len() -> nat;

    /// The number of elements, as a run-time value.
    fn length(&self) -> (n: usize)
        requires
            Self::spec_len() <= usize::MAX,
        ensures
            n == Self::spec_len(),
    ;

    /// Adds `h` before the first element.
    fn prepend<H>(self, h: H) -> (r: (H, Self))
        ensures
            r == (h, self),
    {
        (h, self)
    }
}

impl Base for () {
    const LENGTH: usize = 0;

    open spec fn spec_len() -> nat {
        0
    }

    fn length(&self) -> (n: usize) {
        0
    }
}

impl<H, T: Base> Base for (H, T) {
    const LENGTH: usize = T::LENGTH + 1;

    open spec fn spec_len() -> nat {
        T::spec_len() + 1
    }

    fn length(&self) -> (n: usize) {
        self.1.length() + 1
    }
}

/// The right-folded sequences without elements.
pub trait Empty: Base {
    /// The empty sequence.
    spec fn spec_default() -> Self;

    /// The empty sequence.
    fn default() -> (r: Self)
        ensures
            r == Self::spec_default(),
            Self::spec_len() == 0,
    ;
}

impl Empty for () {
    open spec fn spec_default() -> Self {
        ()
    }

    fn default() -> (r: Self) {
        ()
    }
}

/// Insertion behind the last element. The new element has to travel through
/// every layer down to the terminal.
pub trait Append<E>: Base {
    /// The type of the sequence with an `E` added at its tail.
    type Appended: Base;

    /// The sequence `self` followed by `elem`.
    spec fn spec_append(self, elem: E) -> Self::Appended;

    /// The appended sequence is one element longer.
    proof fn lemma_append_len()
        ensures
            <Self::Appended as Base>::spec_len() == Self::spec_len() + 1,
    ;

    /// Adds `elem` behind the last element.
    fn append(self, elem: E) -> (r: Self::Appended)
        ensures
            r == self.spec_append(elem),
            <Self::Appended as Base>::spec_len() == Self::spec_len() + 1,
    ;
}

impl<E> Append<E> for () {
    type Appended = (E, ());

    open spec fn spec_append(self, elem: E) -> Self::Appended {
        (elem, ())
    }

    proof fn lemma_append_len() {
    }

    fn append(self, elem: E) -> (r: Self::Appended) {
        (elem, ())
    }
}

impl<E, H, T: Append<E>> Append<E> for (H, T) {
    type Appended = (H, <T as Append<E>>::Appended);

    open spec fn spec_append(self, elem: E) -> Self::Appended {
        (self.0, self.1.spec_append(elem))
    }

    proof fn lemma_append_len() {
        T::lemma_append_len();
    }

    fn append(self, elem: E) -> (r: Self::Appended) {
        let (head, tail) = self;
        (head, tail.append(elem))
    }
}

/// Insertion before the first element, the end at which a right-folded
/// sequence grows.
pub trait Prepend<E>: Base {
    /// The type of the sequence with an `E` added at its head.
    type Preprended: First<First = E>;

    /// The sequence `elem` followed by `self`.
    spec fn spec_prepend(self, elem: E) -> Self::Preprended;

    /// Adds `elem` before the first element.
    fn prepend(self, elem: E) -> (r: Self::Preprended)
        ensures
            r == self.spec_prepend(elem),
            <Self::Preprended as Base>::spec_len() == Self::spec_len() + 1,
            r.spec_first() == elem,
    ;
}

impl<E> Prepend<E> for () {
    type Preprended = (E, ());

    open spec fn spec_prepend(self, elem: E) -> Self::Preprended {
        (elem, ())
    }

    fn prepend(self, elem: E) -> (r: Self::Preprended) {
        (elem, self)
    }
}

impl<E, H, T: Prepend<E>> Prepend<E> for (H, T) {
    type Preprended = (E, (H, T));

    open spec fn spec_prepend(self, elem: E) -> Self::Preprended {
        (elem, self)
    }

    fn prepend(self, elem: E) -> (r: Self::Preprended) {
        (elem, self)
    }
}

/// Access to the first element: the outermost layer.
pub trait First: Base {
    /// The type of the first element.
    type First;

    /// The first element.
    spec fn spec_first(&self) -> Self::First;

    /// `self` with `v` in place of its first element.
    spec fn spec_set_first(self, v: Self::First) -> Self;

    /// Reading the first element gives back what was last written to it, and
    /// writing back what was read changes nothing.
    proof fn lemma_first_set(self, v: Self::First)
        ensures
            self.spec_set_first(v).spec_first() == v,
            self.spec_set_first(self.spec_first()) == self,
    ;

    /// The first element.
    fn first(&self) -> (r: &Self::First)
        ensures
            *r == self.spec_first(),
    ;

    /// Exclusive access to the first element. Nothing else changes.
    fn first_mut(&mut self) -> (r: &mut Self::First)
        ensures
            *r == old(self).spec_first(),
            *final(self) == old(self).spec_set_first(*final(r)),
    ;
}

impl<E, T: Base> First for (E, T) {
    type First = E;

    open spec fn spec_first(&self) -> Self::First {
        self.0
    }

    open spec fn spec_set_first(self, v: Self::First) -> Self {
        (v, self.1)
    }

    proof fn lemma_first_set(self, v: Self::First) {
    }

    fn first(&self) -> (r: &Self::First) {
        &self.0
    }

    fn first_mut(&mut self) -> (r: &mut Self::First) {
        &mut self.0
    }
}

/// Access to the last element, the innermost one. The terminal has none and
/// does not implement this trait.
pub trait Last: Base {
    /// The type of the last element.
    type Last;

    /// The last element.
    spec fn spec_last(&self) -> Self::Last;

    /// `self` with `v` in place of its last element.
    spec fn spec_set_last(self, v: Self::Last) -> Self;

    /// Reading the last element gives back what was last written to it, and
    /// writing back what was read changes nothing.
    proof fn lemma_last_set(self, v: Self::Last)
        ensures
            self.spec_set_last(v).spec_last() == v,
            self.spec_set_last(self.spec_last()) == self,
    ;

    /// The last element.
    fn last(&self) -> (r: &Self::Last)
        ensures
            *r == self.spec_last(),
    ;

    /// Exclusive access to the last element. Nothing else changes.
    fn last_mut(&mut self) -> (r: &mut Self::Last)
        ensures
            *r == old(self).spec_last(),
            *final(self) == old(self).spec_set_last(*final(r)),
    ;
}

impl<E> Last for (E, ()) {
    type Last = E;

    open spec fn spec_last(&self) -> Self::Last {
        self.0
    }

    open spec fn spec_set_last(self, v: Self::Last) -> Self {
        (v, ())
    }

    proof fn lemma_last_set(self, v: Self::Last) {
    }

    fn last(&self) -> (r: &Self::Last) {
        &self.0
    }

    fn last_mut(&mut self) -> (r: &mut Self::Last) {
        &mut self.0
    }
}

impl<H, E, T> Last for (H, (E, T)) where (E, T): Last {
    type Last = <(E, T) as Last>::Last;

    open spec fn spec_last(&self) -> Self::Last {
        self.1.spec_last()
    }

    open spec fn spec_set_last(self, v: Self::Last) -> Self {
        (self.0, self.1.spec_set_last(v))
    }

    proof fn lemma_last_set(self, v: Self::Last) {
        self.1.lemma_last_set(v);
    }

    fn last(&self) -> (r: &Self::Last) {
        self.1.last()
    }

    fn last_mut(&mut self) -> (r: &mut Self::Last) {
        self.1.last_mut()
    }
}

/// Conversion to the left-folded representation, keeping the order of the
/// elements.
pub trait Invert: Base {
    /// The left-folded sequence type with the same elements in the same
    /// order.
    type Inverted: crate::lhlist::Base;

    /// The left-folded sequence with the same elements in the same order.
    spec fn spec_invert(self) -> Self::Inverted;

    /// Inverting keeps the length.
    proof fn lemma_invert_len()
        ensures
            <Self::Inverted as crate::lhlist::Base>::spec_len() == Self::spec_len(),
    ;

    /// Converts to the left-folded representation.
    fn invert(self) -> (r: Self::Inverted)
        ensures
            r == self.spec_invert(),
            <Self::Inverted as crate::lhlist::Base>::spec_len() == Self::spec_len(),
    ;
}

impl Invert for () {
    type Inverted = ();

    open spec fn spec_invert(self) -> Self::Inverted {
        ()
    }

    proof fn lemma_invert_len() {
    }

    fn invert(self) -> (r: Self::Inverted) {
        ()
    }
}

impl<E, T: Invert> Invert for (E, T) where T::Inverted: crate::lhlist::Prepend<E> {
    type Inverted = <T::Inverted as crate::lhlist::Prepend<E>>::Preprended;

    open spec fn spec_invert(self) -> Self::Inverted {
        crate::lhlist::Prepend::spec_prepend(self.1.spec_invert(), self.0)
    }

    proof fn lemma_invert_len() {
        T::lemma_invert_len();
        <T::Inverted as crate::lhlist::Prepend<E>>::lemma_prepend_len();
    }

    fn invert(self) -> (r: Self::Inverted) {
        let (elem, tail) = self;
        <T::Inverted as crate::lhlist::Prepend<E>>::prepend(tail.invert(), elem)
    }
}

/// Reversal of the order of the elements, within the right-folded
/// representation.
pub trait Reverse: Base {
    /// The right-folded sequence type with the element types in opposite
    /// order.
    type Reversed: Base;

    /// The right-folded sequence with the same elements in opposite order.
    spec fn spec_reverse(self) -> Self::Reversed;

    /// Reversing keeps the length.
    proof fn lemma_reverse_len()
        ensures
            <Self::Reversed as Base>::spec_len() == Self::spec_len(),
    ;

    /// Reverses the order of the elements.
    fn reverse(self) -> (r: Self::Reversed)
        ensures
            r == self.spec_reverse(),
            <Self::Reversed as Base>::spec_len() == Self::spec_len(),
    ;
}

impl Reverse for () {
    type Reversed = ();

    open spec fn spec_reverse(self) -> Self::Reversed {
        ()
    }

    proof fn lemma_reverse_len() {
    }

    fn reverse(self) -> (r: Self::Reversed) {
        self
    }
}

impl<E, T: Reverse> Reverse for (E, T) where T::Reversed: Append<E> {
    type Reversed = <T::Reversed as Append<E>>::Appended;

    open spec fn spec_reverse(self) -> Self::Reversed {
        self.1.spec_reverse().spec_append(self.0)
    }

    proof fn lemma_reverse_len() {
        T::lemma_reverse_len();
        <T::Reversed as Append<E>>::lemma_append_len();
    }

    fn reverse(self) -> (r: Self::Reversed) {
        let (elem, tail) = self;
        tail.reverse().append(elem)
    }
}

/// Lookup of an element by its type. Where a type occurs more than once, the
/// counter `I` tells the occurrences apart: `Zero` is the first element, and
/// each `Successor` steps one element towards the last.
pub trait Selector<Needle, I>: Base where I: Index {
    /// The element of type `Needle` that `I` names.
    spec fn spec_get(&self) -> Needle;

    /// `self` with `v` in place of the element that `I` names.
    spec fn spec_set(self, v: Needle) -> Self;

    /// Reading the selected element gives back what was last written to it,
    /// and writing back what was read changes nothing.
    proof fn lemma_get_set(self, v: Needle)
        ensures
            self.spec_set(v).spec_get() == v,
            self.spec_set(self.spec_get()) == self,
    ;

    /// The selected element.
    fn get(&self) -> (r: &Needle)
        ensures
            *r == self.spec_get(),
    ;

    /// Exclusive access to the selected element. Nothing else changes.
    fn get_mut(&mut self) -> (r: &mut Needle)
        ensures
            *r == old(self).spec_get(),
            *final(self) == old(self).spec_set(*final(r)),
    ;
}

impl<Needle, T: Base> Selector<Needle, Zero> for (Needle, T) {
    open spec fn spec_get(&self) -> Needle {
        self.0
    }

    open spec fn spec_set(self, v: Needle) -> Self {
        (v, self.1)
    }

    proof fn lemma_get_set(self, v: Needle) {
    }

    fn get(&self) -> (r: &Needle) {
        &self.0
    }

    fn get_mut(&mut self) -> (r: &mut Needle) {
        &mut self.0
    }
}

impl<H, T, Needle, I> Selector<Needle, Successor<I>> for (H, T) where
    T: Selector<Needle, I>,
    I: Index,
{
    open spec fn spec_get(&self) -> Needle {
        self.1.spec_get()
    }

    open spec fn spec_set(self, v: Needle) -> Self {
        (self.0, self.1.spec_set(v))
    }

    proof fn lemma_get_set(self, v: Needle) {
        self.1.lemma_get_set(v);
    }

    fn get(&self) -> (r: &Needle) {
        self.1.get()
    }

    fn get_mut(&mut self) -> (r: &mut Needle) {
        self.1.get_mut()
    }
}

} // verus!
