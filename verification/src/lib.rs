//! Heterogeneous sequences whose shape lives entirely in their type.
//!
//! A sequence is either the terminal `()` or a pair of one element and a
//! smaller sequence. Two dual nestings are provided:
//!
//! * [`lhlist`]: left-folded, `(prior, element)`, growing at the tail;
//! * [`rhlist`]: right-folded, `(element, rest)`, growing at the head.
//!
//! Every operation is a trait implemented by structural induction over the
//! nesting, carries a specification function that defines its result, and is
//! verified against it. [`laws`] proves the algebraic laws that tie the
//! operations together, and [`model`] proves what each operation does to the
//! mathematical sequence of the elements.
//!
//! [`counters`] holds the type-level numbers that tell apart repeated element
//! types during lookup, [`indexed`] the sequences whose elements carry
//! caller-chosen tags, [`hlist`] the core of both representations under
//! prefixed names, and [`shader`] a small registry built on top.
//!
//! The traits at the crate root offer both representations behind one
//! interface. A pair such as `((), ())` is a left-folded and a right-folded
//! sequence at once, so the interface takes the representation as a
//! parameter: [`Left`] or [`Right`].

pub mod counters;
pub mod hlist;
pub mod indexed;
pub mod laws;
pub mod lhlist;
pub mod model;
pub mod rhlist;
pub mod shader;

use crate::counters::Index;
use vstd::prelude::*;

verus! {

/// Names the left-folded representation.
pub struct Left;

/// Names the right-folded representation.
pub struct Right;

/// A sequence, read through the representation `Side`.
pub trait HList<Side>: Sized {
    /// The type of the same sequence in the other representation.
    type Inverted;

    /// The type of the sequence in opposite order.
    type Reversed;

    /// The number of elements.
    spec fn spec_len() -> nat;

    /// The same elements in the same order, in the other representation.
    spec fn spec_invert(self) -> Self::Inverted;

    /// The same elements in opposite order, in the same representation.
    spec fn spec_reverse(self) -> Self::Reversed;

    /// The number of elements.
    fn length(&self) -> (n: usize)
        requires
            Self::spec_len() <= usize::MAX,
        ensures
            n == Self::spec_len(),
    ;

    /// Converts to the other representation, keeping the order.
    fn invert(self) -> (r: Self::Inverted)
        ensures
            r == self.spec_invert(),
    ;

    /// Reverses the order of the elements.
    fn reverse(self) -> (r: Self::Reversed)
        ensures
            r == self.spec_reverse(),
    ;
}

impl<S: lhlist::Invert + lhlist::Reverse> HList<Left> for S {
    type Inverted = <S as lhlist::Invert>::Inverted;

    type Reversed = <S as lhlist::Reverse>::Reversed;

    open spec fn spec_len() -> nat {
        <S as lhlist::Base>::spec_len()
    }

    open spec fn spec_invert(self) -> Self::Inverted {
        lhlist::Invert::spec_invert(self)
    }

    open spec fn spec_reverse(self) -> Self::Reversed {
        lhlist::Reverse::spec_reverse(self)
    }

    fn length(&self) -> (n: usize) {
        lhlist::Base::length(self)
    }

    fn invert(self) -> (r: Self::Inverted) {
        lhlist::Invert::invert(self)
    }

    fn reverse(self) -> (r: Self::Reversed) {
        lhlist::Reverse::reverse(self)
    }
}

impl<S: rhlist::Invert + rhlist::Reverse> HList<Right> for S {
    type Inverted = <S as rhlist::Invert>::Inverted;

    type Reversed = <S as rhlist::Reverse>::Reversed;

    open spec fn spec_len() -> nat {
        <S as rhlist::Base>::spec_len()
    }

    open spec fn spec_invert(self) -> Self::Inverted {
        rhlist::Invert::spec_invert(self)
    }

    open spec fn spec_reverse(self) -> Self::Reversed {
        rhlist::Reverse::spec_reverse(self)
    }

    fn length(&self) -> (n: usize) {
        rhlist::Base::length(self)
    }

    fn invert(self) -> (r: Self::Inverted) {
        rhlist::Invert::invert(self)
    }

    fn reverse(self) -> (r: Self::Reversed) {
        rhlist::Reverse::reverse(self)
    }
}

/// Growth of a sequence by one element of type `E`, at either end.
pub trait HListGrow<Side, E>: HList<Side> {
    /// The type of the sequence with an `E` added at its head.
    type Prepended;

    /// The type of the sequence with an `E` added at its tail.
    type Appended;

    /// The sequence `value` followed by `self`.
    spec fn spec_prepend(self, value: E) -> Self::Prepended;

    /// The sequence `self` followed by `value`.
    spec fn spec_append(self, value: E) -> Self::Appended;

    /// Adds `value` before the first element.
    fn prepend(self, value: E) -> (r: Self::Prepended)
        ensures
            r == self.spec_prepend(value),
    ;

    /// Adds `value` behind the last element.
    fn append(self, value: E) -> (r: Self::Appended)
        ensures
            r == self.spec_append(value),
    ;
}

impl<S, E> HListGrow<Left, E> for S where
    S: lhlist::Invert + lhlist::Reverse + lhlist::Prepend<E> + lhlist::Append<E>,
 {
    type Prepended = <S as lhlist::Prepend<E>>::Preprended;

    type Appended = <S as lhlist::Append<E>>::Appended;

    open spec fn spec_prepend(self, value: E) -> Self::Prepended {
        lhlist::Prepend::spec_prepend(self, value)
    }

    open spec fn spec_append(self, value: E) -> Self::Appended {
        lhlist::Append::spec_append(self, value)
    }

    fn prepend(self, value: E) -> (r: Self::Prepended) {
        lhlist::Prepend::prepend(self, value)
    }

    fn append(self, value: E) -> (r: Self::Appended) {
        lhlist::Append::append(self, value)
    }
}

impl<S, E> HListGrow<Right, E> for S where
    S: rhlist::Invert + rhlist::Reverse + rhlist::Prepend<E> + rhlist::Append<E>,
 {
    type Prepended = <S as rhlist::Prepend<E>>::Preprended;

    type Appended = <S as rhlist::Append<E>>::Appended;

    open spec fn spec_prepend(self, value: E) -> Self::Prepended {
        rhlist::Prepend::spec_prepend(self, value)
    }

    open spec fn spec_append(self, value: E) -> Self::Appended {
        rhlist::Append::spec_append(self, value)
    }

    fn prepend(self, value: E) -> (r: Self::Prepended) {
        rhlist::Prepend::prepend(self, value)
    }

    fn append(self, value: E) -> (r: Self::Appended) {
        rhlist::Append::append(self, value)
    }
}

/// Access to the two ends of a sequence that has at least one element.
pub trait HListEnds<Side>: HList<Side> {
    /// The type of the first element.
    type First;

    /// The type of the last element.
    type Last;

    /// The first element.
    spec fn spec_first(&self) -> Self::First;

    /// The last element.
    spec fn spec_last(&self) -> Self::Last;

    /// The first element.
    fn first(&self) -> (r: &Self::First)
        ensures
            *r == self.spec_first(),
    ;

    /// The last element.
    fn last(&self) -> (r: &Self::Last)
        ensures
            *r == self.spec_last(),
    ;
}

impl<S> HListEnds<Left> for S where
    S: lhlist::Invert + lhlist::Reverse + lhlist::First + lhlist::Last,
 {
    type First = <S as lhlist::First>::First;

    type Last = <S as lhlist::Last>::Last;

    open spec fn spec_first(&self) -> Self::First {
        lhlist::First::spec_first(self)
    }

    open spec fn spec_last(&self) -> Self::Last {
        lhlist::Last::spec_last(self)
    }

    fn first(&self) -> (r: &Self::First) {
        lhlist::First::first(self)
    }

    fn last(&self) -> (r: &Self::Last) {
        lhlist::Last::last(self)
    }
}

impl<S> HListEnds<Right> for S where
    S: rhlist::Invert + rhlist::Reverse + rhlist::First + rhlist::Last,
 {
    type First = <S as rhlist::First>::First;

    type Last = <S as rhlist::Last>::Last;

    open spec fn spec_first(&self) -> Self::First {
        rhlist::First::spec_first(self)
    }

    open spec fn spec_last(&self) -> Self::Last {
        rhlist::Last::spec_last(self)
    }

    fn first(&self) -> (r: &Self::First) {
        rhlist::First::first(self)
    }

    fn last(&self) -> (r: &Self::Last) {
        rhlist::Last::last(self)
    }
}

/// Lookup of the element of type `Needle` that the counter `I` names.
pub trait HListSelect<Side, Needle, I>: HList<Side> where I: Index {
    /// The selected element.
    spec fn spec_get(&self) -> Needle;

    /// `self` with `v` in place of the selected element.
    spec fn spec_set(self, v: Needle) -> Self;

    /// The selected element.
    fn get(&self) -> (r: &Needle)
        ensures
            *r == self.spec_get(),
    ;

    /// Exclusive access to the selected element. Nothing else changes.
    fn get_mut(&mut self) -> (r: &mut Needle)
        ensures
            *r == old(self).spec_get(),
            *final(self) == old(self).spec_set(*final(r)),
    ;
}

impl<S, Needle, I> HListSelect<Left, Needle, I> for S where
    S: lhlist::Invert + lhlist::Reverse + lhlist::Selector<Needle, I>,
    I: Index,
 {
    open spec fn spec_get(&self) -> Needle {
        lhlist::Selector::<Needle, I>::spec_get(self)
    }

    open spec fn spec_set(self, v: Needle) -> Self {
        lhlist::Selector::<Needle, I>::spec_set(self, v)
    }

    fn get(&self) -> (r: &Needle) {
        lhlist::Selector::<Needle, I>::get(self)
    }

    fn get_mut(&mut self) -> (r: &mut Needle) {
        lhlist::Selector::<Needle, I>::get_mut(self)
    }
}

impl<S, Needle, I> HListSelect<Right, Needle, I> for S where
    S: rhlist::Invert + rhlist::Reverse + rhlist::Selector<Needle, I>,
    I: Index,
 {
    open spec fn spec_get(&self) -> Needle {
        rhlist::Selector::<Needle, I>::spec_get(self)
    }

    open spec fn spec_set(self, v: Needle) -> Self {
        rhlist::Selector::<Needle, I>::spec_set(self, v)
    }

    fn get(&self) -> (r: &Needle) {
        rhlist::Selector::<Needle, I>::get(self)
    }

    fn get_mut(&mut self) -> (r: &mut Needle) {
        rhlist::Selector::<Needle, I>::get_mut(self)
    }
}

} // verus!
