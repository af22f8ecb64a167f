//! Laws of left-folded sequences.

use crate::counters::{Index, Successor, Zero};
use crate::laws::right::{InvertAppend, ReverseAppend};
use crate::lhlist::{Base, First, Invert, Prepend, Reverse, Selector};
use vstd::prelude::*;

verus! {

/// Appending one element makes a left-folded sequence one element longer
/// and puts that element last.
pub proof fn lemma_append<S: Base, E>(s: S, e: E)
    ensures
        <(S, E) as Base>::spec_len() == S::spec_len() + 1,
        crate::lhlist::Last::spec_last(&(s, e)) == e,
{
}

/// Reversal moves an element from the head to the tail: reversing
/// `e` followed by `self` gives the reverse of `self` followed by `e`.
pub trait ReversePrepend<E>: Prepend<E> + Reverse where
    Self::Preprended: Reverse<Reversed = (<Self as Reverse>::Reversed, E)>,
 {
    /// Reversing `e` followed by `self` gives the reverse of `self` followed by
    /// `e`.
    proof fn lemma_reverse_prepend(self, e: E)
        ensures
            self.spec_prepend(e).spec_reverse() == (self.spec_reverse(), e),
    ;
}

impl<E> ReversePrepend<E> for () {
    proof fn lemma_reverse_prepend(self, e: E) {
    }
}

impl<E, H, T> ReversePrepend<E> for (H, T) where
    H: ReversePrepend<E>,
    H::Preprended: Reverse<Reversed = (<H as Reverse>::Reversed, E)>,
    <H as Reverse>::Reversed: Prepend<T>,
 {
    proof fn lemma_reverse_prepend(self, e: E) {
        self.0.lemma_reverse_prepend(e);
    }
}

/// Reversing twice gives back the sequence.
pub trait ReverseInvolution: Reverse where Self::Reversed: Reverse<Reversed = Self> {
    /// Reversing `self` twice gives `self`.
    proof fn lemma_reverse_reverse(self)
        ensures
            self.spec_reverse().spec_reverse() == self,
    ;
}

impl ReverseInvolution for () {
    proof fn lemma_reverse_reverse(self) {
    }
}

impl<H, E> ReverseInvolution for (H, E) where
    H: ReverseInvolution,
    H::Reversed: Reverse<Reversed = H> + ReversePrepend<E>,
    <H::Reversed as Prepend<E>>::Preprended: Reverse<Reversed = (H, E)>,
 {
    proof fn lemma_reverse_reverse(self) {
        self.0.lemma_reverse_reverse();
        self.0.spec_reverse().lemma_reverse_prepend(self.1);
    }
}

/// Inversion keeps an element at the head: inverting `e` followed by `self`
/// gives `e` followed by the inverse of `self`.
pub trait InvertPrepend<E>: Prepend<E> + Invert where
    Self::Preprended: Invert<Inverted = (E, <Self as Invert>::Inverted)>,
 {
    /// Inverting `e` followed by `self` gives `e` followed by the inverse of
    /// `self`.
    proof fn lemma_invert_prepend(self, e: E)
        ensures
            self.spec_prepend(e).spec_invert() == (e, self.spec_invert()),
    ;
}

impl<E> InvertPrepend<E> for () {
    proof fn lemma_invert_prepend(self, e: E) {
    }
}

impl<E, H, T> InvertPrepend<E> for (H, T) where
    H: InvertPrepend<E>,
    H::Preprended: Invert<Inverted = (E, <H as Invert>::Inverted)>,
    <H as Invert>::Inverted: crate::rhlist::Append<T>,
 {
    proof fn lemma_invert_prepend(self, e: E) {
        self.0.lemma_invert_prepend(e);
    }
}

/// Inverting to the right-folded representation and back gives back the
/// sequence.
pub trait InvertInvolution: Invert where
    Self::Inverted: crate::rhlist::Invert<Inverted = Self>,
 {
    /// Inverting `self` and inverting the result gives `self`.
    proof fn lemma_invert_invert(self)
        ensures
            crate::rhlist::Invert::spec_invert(self.spec_invert()) == self,
    ;
}

impl InvertInvolution for () {
    proof fn lemma_invert_invert(self) {
    }
}

impl<H, E> InvertInvolution for (H, E) where
    H: InvertInvolution,
    H::Inverted: crate::rhlist::Invert<Inverted = H> + InvertAppend<E>,
    <H::Inverted as crate::rhlist::Append<E>>::Appended: crate::rhlist::Invert<Inverted = (H, E)>,
 {
    proof fn lemma_invert_invert(self) {
        self.0.lemma_invert_invert();
        self.0.spec_invert().lemma_invert_append(self.1);
    }
}

/// For every left-folded sequence `s`, reversing `s` twice gives `s`, and
/// the reversed sequence is as long as `s`.
pub proof fn lemma_reverse_involution<S>(s: S) where
    S: ReverseInvolution,
    S::Reversed: Reverse<Reversed = S>,

    ensures
        s.spec_reverse().spec_reverse() == s,
        <S::Reversed as Base>::spec_len() == S::spec_len(),
{
    s.lemma_reverse_reverse();
    S::lemma_reverse_len();
}

/// For every left-folded sequence `s`, inverting `s` to the right-folded
/// representation and back gives `s`, and the inverted sequence is as long
/// as `s`.
pub proof fn lemma_invert_involution<S>(s: S) where
    S: InvertInvolution,
    S::Inverted: crate::rhlist::Invert<Inverted = S>,

    ensures
        crate::rhlist::Invert::spec_invert(s.spec_invert()) == s,
        <S::Inverted as crate::rhlist::Base>::spec_len() == S::spec_len(),
{
    s.lemma_invert_invert();
    S::lemma_invert_len();
}

/// Prepending puts the new element first.
pub trait PrependFirst<E>: Prepend<E> where Self::Preprended: First<First = E> {
    /// The first element of `e` followed by `self` is `e`.
    proof fn lemma_first_prepend(self, e: E)
        ensures
            self.spec_prepend(e).spec_first() == e,
    ;
}

impl<E> PrependFirst<E> for () {
    proof fn lemma_first_prepend(self, e: E) {
    }
}

impl<E, H, T, P, L> PrependFirst<E> for (H, T) where
    H: PrependFirst<E> + Prepend<E, Preprended = (P, L)>,
    (P, L): First<First = E>,
 {
    proof fn lemma_first_prepend(self, e: E) {
        self.0.lemma_first_prepend(e);
    }
}

/// Inversion and reversal commute: inverting and then reversing gives the
/// same right-folded sequence as reversing and then inverting.
pub trait InvertReverse: Invert + Reverse where
    Self::Reversed: Invert,
    Self::Inverted: crate::rhlist::Reverse<Reversed = <Self::Reversed as Invert>::Inverted>,
 {
    /// Inverting `self` and reversing the result gives what reversing `self`
    /// and inverting the result gives.
    proof fn lemma_invert_reverse(self)
        ensures
            crate::rhlist::Reverse::spec_reverse(self.spec_invert())
                == self.spec_reverse().spec_invert(),
    ;
}

impl InvertReverse for () {
    proof fn lemma_invert_reverse(self) {
    }
}

impl<H, E> InvertReverse for (H, E) where
    H: InvertReverse,
    H::Reversed: InvertPrepend<E>,
    H::Inverted: crate::rhlist::Reverse<Reversed = <H::Reversed as Invert>::Inverted>
        + ReverseAppend<E>,
    <H::Reversed as Prepend<E>>::Preprended: Invert<
        Inverted = (E, <H::Reversed as Invert>::Inverted),
    >,
    <H::Inverted as crate::rhlist::Append<E>>::Appended: crate::rhlist::Reverse<
        Reversed = (E, <H::Reversed as Invert>::Inverted),
    >,
 {
    proof fn lemma_invert_reverse(self) {
        self.0.lemma_invert_reverse();
        self.0.spec_reverse().lemma_invert_prepend(self.1);
        self.0.spec_invert().lemma_reverse_append(self.1);
    }
}

/// Inverting, reversing and inverting back gives the reversed sequence.
pub proof fn lemma_invert_reverse_invert<S>(s: S) where
    S: InvertReverse,
    S::Reversed: InvertInvolution,
    <S::Reversed as Invert>::Inverted: crate::rhlist::Invert<Inverted = S::Reversed>,
    S::Inverted: crate::rhlist::Reverse<Reversed = <S::Reversed as Invert>::Inverted>,

    ensures
        crate::rhlist::Invert::spec_invert(
            crate::rhlist::Reverse::spec_reverse(s.spec_invert()),
        ) == s.spec_reverse(),
{
    s.lemma_invert_reverse();
    s.spec_reverse().lemma_invert_invert();
}

/// The counter zero selects the element appended last.
pub proof fn lemma_select_appended<S: Base, E>(s: S, e: E)
    ensures
        Selector::<E, Zero>::spec_get(&(s, e)) == e,
{
}

/// Appending moves every element one counter up: what `I` selected before
/// the append, `Successor<I>` selects after it.
pub proof fn lemma_select_older<S, E, Needle, I>(s: S, e: E) where
    S: Selector<Needle, I>,
    I: Index,

    ensures
        Selector::<Needle, Successor<I>>::spec_get(&(s, e)) == s.spec_get(),
{
}

/// In the sequence built by appending `a`, then `b`, then `c`, lookup by
/// type finds `a`, `b` and `c`.
pub proof fn lemma_select_three<A, B, C>(a: A, b: B, c: C)
    ensures
        Selector::<C, Zero>::spec_get(&((((), a), b), c)) == c,
        Selector::<B, Successor<Zero>>::spec_get(&((((), a), b), c)) == b,
        Selector::<A, Successor<Successor<Zero>>>::spec_get(&((((), a), b), c)) == a,
{
}

} // verus!
