//! Left-folded sequences.
//!
//! A left-folded sequence is `()` or `(prior, element)`, where `prior` is the
//! left-folded sequence of everything before `element`. The sequence holding
//! `a`, `b`, `c` in that order is `((((), a), b), c)`: the newest element is
//! outermost, the oldest innermost.
//!
//! Each operation is a trait with one impl for the terminal and one for the
//! node. The `spec_*` function of a trait defines the operation's result; the
//! executable method is verified to return exactly that value.

use crate::counters::{Index, Successor, Zero};
use vstd::prelude::*;

verus! {

/// A left-folded sequence.
pub trait Base: Sized {
    /// The number of elements, as a compile-time constant.
    const LENGTH: usize;

    /// The number of elements.
    spec fn spec_len() -> nat;

    /// The number of elements, as a run-time value.
    fn length(&self) -> (n: usize)
        requires
            Self::spec_len() <= usize::MAX,
        ensures
            n == Self::spec_len(),
    ;

    /// Adds `t` behind the last element.
    fn append<T>(self, t: T) -> (r: (Self, T))
        ensures
            r == (self, t),
    {
        (self, t)
    }
}

impl Base for () {
    const LENGTH: usize = 0;

    open spec fn spec_len() -> nat {
        0
    }

    fn length(&self) -> (n: usize) {
        0
    }
}

impl<T: Base, H> Base for (T, H) {
    const LENGTH: usize = T::LENGTH + 1;

    open spec fn spec_len() -> nat {
        T::spec_len() + 1
    }

    fn length(&self) -> (n: usize) {
        self.0.length() + 1
    }
}

/// The left-folded sequences without elements.
pub trait Empty: Base {
    /// The empty sequence.
    spec fn spec_default() -> Self;

    /// The empty sequence.
    fn default() -> (r: Self)
        ensures
            r == Self::spec_default(),
            Self::spec_len() == 0,
    ;
}

impl Empty for () {
    open spec fn spec_default() -> Self {
        ()
    }

    fn default() -> (r: Self) {
        ()
    }
}

/// Insertion behind the last element, the end at which a left-folded
/// sequence grows.
pub trait Append<E>: Base {
    /// The type of the sequence with an `E` added at its tail.
    type Appended: Last<Last = E>;

    /// The sequence `self` followed by `elem`.
    spec fn spec_append(self, elem: E) -> Self::Appended;

    /// Adds `elem` behind the last element.
    fn append(self, elem: E) -> (r: Self::Appended)
        ensures
            r == self.spec_append(elem),
            <Self::Appended as Base>::spec_len() == Self::spec_len() + 1,
            r.spec_last() == elem,
    ;
}

impl<E> Append<E> for () {
    type Appended = ((), E);

    open spec fn spec_append(self, elem: E) -> Self::Appended {
        ((), elem)
    }

    fn append(self, elem: E) -> (r: Self::Appended) {
        ((), elem)
    }
}

impl<H: Append<E>, T, E> Append<E> for (H, T) {
    type Appended = ((H, T), E);

    open spec fn spec_append(self, elem: E) -> Self::Appended {
        (self, elem)
    }

    fn append(self, elem: E) -> (r: Self::Appended) {
        (self, elem)
    }
}

/// Insertion before the first element. The new element has to travel through
/// every layer down to the terminal.
pub trait Prepend<E>: Base {
    /// The type of the sequence with an `E` added at its head.
    type Preprended: Base;

    /// The sequence `elem` followed by `self`.
    spec fn spec_prepend(self, elem: E) -> Self::Preprended;

    /// The prepended sequence is one element longer.
    proof fn lemma_prepend_len()
        ensures
            <Self::Preprended as Base>::spec_len() == Self::spec_len() + 1,
    ;

    /// Adds `elem` before the first element.
    fn prepend(self, elem: E) -> (r: Self::Preprended)
        ensures
            r == self.spec_prepend(elem),
            <Self::Preprended as Base>::spec_len() == Self::spec_len() + 1,
    ;
}

impl<E> Prepend<E> for () {
    type Preprended = ((), E);

    open spec fn spec_prepend(self, elem: E) -> Self::Preprended {
        ((), elem)
    }

    proof fn lemma_prepend_len() {
    }

    fn prepend(self, elem: E) -> (r: Self::Preprended) {
        (self, elem)
    }
}

impl<H: Prepend<E>, T, E> Prepend<E> for (H, T) {
    type Preprended = (<H as Prepend<E>>::Preprended, T);

    open spec fn spec_prepend(self, elem: E) -> Self::Preprended {
        (self.0.spec_prepend(elem), self.1)
    }

    proof fn lemma_prepend_len() {
        H::lemma_prepend_len();
    }

    fn prepend(self, elem: E) -> (r: Self::Preprended) {
        let (head, tail) = self;
        (head.prepend(elem), tail)
    }
}

/// Access to the first element, the oldest one. The terminal has none and
/// does not implement this trait.
pub trait First: Base {
    /// The type of the first element.
    type First;

    /// The first element.
    spec fn spec_first(&self) -> Self::First;

    /// `self` with `v` in place of its first element.
    spec fn spec_set_first(self, v: Self::First) -> Self;

    /// Reading the first element gives back what was last written to it, and
    /// writing back what was read changes nothing.
    proof fn lemma_first_set(self, v: Self::First)
        ensures
            self.spec_set_first(v).spec_first() == v,
            self.spec_set_first(self.spec_first()) == self,
    ;

    /// The first element.
    fn first(&self) -> (r: &Self::First)
        ensures
            *r == self.spec_first(),
    ;

    /// Exclusive access to the first element. Nothing else changes.
    fn first_mut(&mut self) -> (r: &mut Self::First)
        ensures
            *r == old(self).spec_first(),
            *final(self) == old(self).spec_set_first(*final(r)),
    ;
}

impl<E> First for ((), E) {
    type First = E;

    open spec fn spec_first(&self) -> Self::First {
        self.1
    }

    open spec fn spec_set_first(self, v: Self::First) -> Self {
        ((), v)
    }

    proof fn lemma_first_set(self, v: Self::First) {
    }

    fn first(&self) -> (r: &Self::First) {
        &self.1
    }

    fn first_mut(&mut self) -> (r: &mut Self::First) {
        &mut self.1
    }
}

impl<H, E, T> First for ((H, E), T) where (H, E): First {
    type First = <(H, E) as First>::First;

    open spec fn spec_first(&self) -> Self::First {
        self.0.spec_first()
    }

    open spec fn spec_set_first(self, v: Self::First) -> Self {
        (self.0.spec_set_first(v), self.1)
    }

    proof fn lemma_first_set(self, v: Self::First) {
        self.0.lemma_first_set(v);
    }

    fn first(&self) -> (r: &Self::First) {
        self.0.first()
    }

    fn first_mut(&mut self) -> (r: &mut Self::First) {
        self.0.first_mut()
    }
}

/// Access to the last element, the newest one: the outermost layer.
pub trait Last: Base {
    /// The type of the last element.
    type Last;

    /// The last element.
    spec fn spec_last(&self) -> Self::Last;

    /// `self` with `v` in place of its last element.
    spec fn spec_set_last(self, v: Self::Last) -> Self;

    /// Reading the last element gives back what was last written to it, and
    /// writing back what was read changes nothing.
    proof fn lemma_last_set(self, v: Self::Last)
        ensures
            self.spec_set_last(v).spec_last() == v,
            self.spec_set_last(self.spec_last()) == self,
    ;

    /// The last element.
    fn last(&self) -> (r: &Self::Last)
        ensures
            *r == self.spec_last(),
    ;

    /// Exclusive access to the last element. Nothing else changes.
    fn last_mut(&mut self) -> (r: &mut Self::Last)
        ensures
            *r == old(self).spec_last(),
            *final(self) == old(self).spec_set_last(*final(r)),
    ;
}

impl<H: Base, E> Last for (H, E) {
    type Last = E;

    open spec fn spec_last(&self) -> Self::Last {
        self.1
    }

    open spec fn spec_set_last(self, v: Self::Last) -> Self {
        (self.0, v)
    }

    proof fn lemma_last_set(self, v: Self::Last) {
    }

    fn last(&self) -> (r: &Self::Last) {
        &self.1
    }

    fn last_mut(&mut self) -> (r: &mut Self::Last) {
        &mut self.1
    }
}

/// Conversion to the right-folded representation, keeping the order of the
/// elements.
pub trait Invert: Base {
    /// The right-folded sequence type with the same elements in the same
    /// order.
    type Inverted: crate::rhlist::Base;

    /// The right-folded sequence with the same elements in the same order.
    spec fn spec_invert(self) -> Self::Inverted;

    /// Inverting keeps the length.
    proof fn lemma_invert_len()
        ensures
            <Self::Inverted as crate::rhlist::Base>::spec_len() == Self::spec_len(),
    ;

    /// Converts to the right-folded representation.
    fn invert(self) -> (r: Self::Inverted)
        ensures
            r == self.spec_invert(),
            <Self::Inverted as crate::rhlist::Base>::spec_len() == Self::spec_len(),
    ;
}

impl Invert for () {
    type Inverted = ();

    open spec fn spec_invert(self) -> Self::Inverted {
        ()
    }

    proof fn lemma_invert_len() {
    }

    fn invert(self) -> (r: Self::Inverted) {
        self
    }
}

impl<H: Invert, E> Invert for (H, E) where H::Inverted: crate::rhlist::Append<E> {
    type Inverted = <H::Inverted as crate::rhlist::Append<E>>::Appended;

    open spec fn spec_invert(self) -> Self::Inverted {
        crate::rhlist::Append::spec_append(self.0.spec_invert(), self.1)
    }

    proof fn lemma_invert_len() {
        H::lemma_invert_len();
        <H::Inverted as crate::rhlist::Append<E>>::lemma_append_len();
    }

    fn invert(self) -> (r: Self::Inverted) {
        let (head, elem) = self;
        <H::Inverted as crate::rhlist::Append<E>>::append(head.invert(), elem)
    }
}

/// Reversal of the order of the elements, within the left-folded
/// representation.
pub trait Reverse: Base {
    /// The left-folded sequence type with the element types in opposite
    /// order.
    type Reversed: Base;

    /// The left-folded sequence with the same elements in opposite order.
    spec fn spec_reverse(self) -> Self::Reversed;

    /// Reversing keeps the length.
    proof fn lemma_reverse_len()
        ensures
            <Self::Reversed as Base>::spec_len() == Self::spec_len(),
    ;

    /// Reverses the order of the elements.
    fn reverse(self) -> (r: Self::Reversed)
        ensures
            r == self.spec_reverse(),
            <Self::Reversed as Base>::spec_len() == Self::spec_len(),
    ;
}

impl Reverse for () {
    type Reversed = ();

    open spec fn spec_reverse(self) -> Self::Reversed {
        ()
    }

    proof fn lemma_reverse_len() {
    }

    fn reverse(self) -> (r: Self::Reversed) {
        self
    }
}

impl<H: Reverse, E> Reverse for (H, E) where H::Reversed: Prepend<E> {
    type Reversed = <H::Reversed as Prepend<E>>::Preprended;

    open spec fn spec_reverse(self) -> Self::Reversed {
        self.0.spec_reverse().spec_prepend(self.1)
    }

    proof fn lemma_reverse_len() {
        H::lemma_reverse_len();
        <H::Reversed as Prepend<E>>::lemma_prepend_len();
    }

    fn reverse(self) -> (r: Self::Reversed) {
        let (head, elem) = self;
        head.reverse().prepend(elem)
    }
}

/// Lookup of an element by its type. Where a type occurs more than once, the
/// counter `I` tells the occurrences apart: `Zero` is the last element, and
/// each `Successor` steps one element towards the first.
pub trait Selector<Needle, I>: Base where I: Index {
    /// The element of type `Needle` that `I` names.
    spec fn spec_get(&self) -> Needle;

    /// `self` with `v` in place of the element that `I` names.
    spec fn spec_set(self, v: Needle) -> Self;

    /// Reading the selected element gives back what was last written to it,
    /// and writing back what was read changes nothing.
    proof fn lemma_get_set(self, v: Needle)
        ensures
            self.spec_set(v).spec_get() == v,
            self.spec_set(self.spec_get()) == self,
    ;

    /// The selected element.
    fn get(&self) -> (r: &Needle)
        ensures
            *r == self.spec_get(),
    ;

    /// Exclusive access to the selected element. Nothing else changes.
    fn get_mut(&mut self) -> (r: &mut Needle)
        ensures
            *r == old(self).spec_get(),
            *final(self) == old(self).spec_set(*final(r)),
    ;
}

impl<H: Base, Needle> Selector<Needle, Zero> for (H, Needle) {
    open spec fn spec_get(&self) -> Needle {
        self.1
    }

    open spec fn spec_set(self, v: Needle) -> Self {
        (self.0, v)
    }

    proof fn lemma_get_set(self, v: Needle) {
    }

    fn get(&self) -> (r: &Needle) {
        &self.1
    }

    fn get_mut(&mut self) -> (r: &mut Needle) {
        &mut self.1
    }
}

impl<H, T, Needle, I> Selector<Needle, Successor<I>> for (H, T) where
    H: Selector<Needle, I>,
    I: Index,
{
    open spec fn spec_get(&self) -> Needle {
        self.0.spec_get()
    }

    open spec fn spec_set(self, v: Needle) -> Self {
        (self.0.spec_set(v), self.1)
    }

    proof fn lemma_get_set(self, v: Needle) {
        self.0.lemma_get_set(v);
    }

    fn get(&self) -> (r: &Needle) {
        self.0.get()
    }

    fn get_mut(&mut self) -> (r: &mut Needle) {
        self.0.get_mut()
    }
}

} // verus!
