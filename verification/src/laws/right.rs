//! Laws of right-folded sequences.

use crate::counters::{Index, Successor, Zero};
use crate::laws::left::{InvertPrepend, ReversePrepend};
use crate::rhlist::{Append, Base, Invert, Last, Reverse, Selector};
use vstd::prelude::*;

verus! {

/// Prepending one element makes a right-folded sequence one element longer
/// and puts that element first.
pub proof fn lemma_prepend<S: Base, E>(s: S, e: E)
    ensures
        <(E, S) as Base>::spec_len() == S::spec_len() + 1,
        crate::rhlist::First::spec_first(&(e, s)) == e,
{
}

/// Reversal moves an element from the tail to the head: reversing
/// `self` followed by `e` gives `e` followed by the reverse of `self`.
pub trait ReverseAppend<E>: Append<E> + Reverse where
    Self::Appended: Reverse<Reversed = (E, <Self as Reverse>::Reversed)>,
 {
    /// Reversing `self` followed by `e` gives `e` followed by the reverse of
    /// `self`.
    proof fn lemma_reverse_append(self, e: E)
        ensures
            self.spec_append(e).spec_reverse() == (e, self.spec_reverse()),
    ;
}

impl<E> ReverseAppend<E> for () {
    proof fn lemma_reverse_append(self, e: E) {
    }
}

impl<E, H, T> ReverseAppend<E> for (H, T) where
    T: ReverseAppend<E>,
    T::Appended: Reverse<Reversed = (E, <T as Reverse>::Reversed)>,
    <T as Reverse>::Reversed: Append<H>,
 {
    proof fn lemma_reverse_append(self, e: E) {
        self.1.lemma_reverse_append(e);
    }
}

/// Reversing twice gives back the sequence.
pub trait ReverseInvolution: Reverse where Self::Reversed: Reverse<Reversed = Self> {
    /// Reversing `self` twice gives `self`.
    proof fn lemma_reverse_reverse(self)
        ensures
            self.spec_reverse().spec_reverse() == self,
    ;
}

impl ReverseInvolution for () {
    proof fn lemma_reverse_reverse(self) {
    }
}

impl<E, T> ReverseInvolution for (E, T) where
    T: ReverseInvolution,
    T::Reversed: Reverse<Reversed = T> + ReverseAppend<E>,
    <T::Reversed as Append<E>>::Appended: Reverse<Reversed = (E, T)>,
 {
    proof fn lemma_reverse_reverse(self) {
        self.1.lemma_reverse_reverse();
        self.1.spec_reverse().lemma_reverse_append(self.0);
    }
}

/// Inversion keeps an element at the tail: inverting `self` followed by `e`
/// gives the inverse of `self` followed by `e`.
pub trait InvertAppend<E>: Append<E> + Invert where
    Self::Appended: Invert<Inverted = (<Self as Invert>::Inverted, E)>,
 {
    /// Inverting `self` followed by `e` gives the inverse of `self` followed by
    /// `e`.
    proof fn lemma_invert_append(self, e: E)
        ensures
            self.spec_append(e).spec_invert() == (self.spec_invert(), e),
    ;
}

impl<E> InvertAppend<E> for () {
    proof fn lemma_invert_append(self, e: E) {
    }
}

impl<E, H, T> InvertAppend<E> for (H, T) where
    T: InvertAppend<E>,
    T::Appended: Invert<Inverted = (<T as Invert>::Inverted, E)>,
    <T as Invert>::Inverted: crate::lhlist::Prepend<H>,
 {
    proof fn lemma_invert_append(self, e: E) {
        self.1.lemma_invert_append(e);
    }
}

/// Inverting to the left-folded representation and back gives back the
/// sequence.
pub trait InvertInvolution: Invert where
    Self::Inverted: crate::lhlist::Invert<Inverted = Self>,
 {
    /// Inverting `self` and inverting the result gives `self`.
    proof fn lemma_invert_invert(self)
        ensures
            crate::lhlist::Invert::spec_invert(self.spec_invert()) == self,
    ;
}

impl InvertInvolution for () {
    proof fn lemma_invert_invert(self) {
    }
}

impl<E, T> InvertInvolution for (E, T) where
    T: InvertInvolution,
    T::Inverted: crate::lhlist::Invert<Inverted = T> + InvertPrepend<E>,
    <T::Inverted as crate::lhlist::Prepend<E>>::Preprended: crate::lhlist::Invert<Inverted = (E, T)>,
 {
    proof fn lemma_invert_invert(self) {
        self.1.lemma_invert_invert();
        self.1.spec_invert().lemma_invert_prepend(self.0);
    }
}

/// For every right-folded sequence `s`, reversing `s` twice gives `s`, and
/// the reversed sequence is as long as `s`.
pub proof fn lemma_reverse_involution<S>(s: S) where
    S: ReverseInvolution,
    S::Reversed: Reverse<Reversed = S>,

    ensures
        s.spec_reverse().spec_reverse() == s,
        <S::Reversed as Base>::spec_len() == S::spec_len(),
{
    s.lemma_reverse_reverse();
    S::lemma_reverse_len();
}

/// For every right-folded sequence `s`, inverting `s` to the left-folded
/// representation and back gives `s`, and the inverted sequence is as long
/// as `s`.
pub proof fn lemma_invert_involution<S>(s: S) where
    S: InvertInvolution,
    S::Inverted: crate::lhlist::Invert<Inverted = S>,

    ensures
        crate::lhlist::Invert::spec_invert(s.spec_invert()) == s,
        <S::Inverted as crate::lhlist::Base>::spec_len() == S::spec_len(),
{
    s.lemma_invert_invert();
    S::lemma_invert_len();
}

/// Appending puts the new element last.
pub trait AppendLast<E>: Append<E> where Self::Appended: Last<Last = E> {
    /// The last element of `self` followed by `e` is `e`.
    proof fn lemma_last_append(self, e: E)
        ensures
            self.spec_append(e).spec_last() == e,
    ;
}

impl<E> AppendLast<E> for () {
    proof fn lemma_last_append(self, e: E) {
    }
}

impl<E, H, T, F, R> AppendLast<E> for (H, T) where
    T: AppendLast<E> + Append<E, Appended = (F, R)>,
    (F, R): Last<Last = E>,
 {
    proof fn lemma_last_append(self, e: E) {
        self.1.lemma_last_append(e);
    }
}

/// Inversion and reversal commute: inverting and then reversing gives the
/// same left-folded sequence as reversing and then inverting.
pub trait InvertReverse: Invert + Reverse where
    Self::Reversed: Invert,
    Self::Inverted: crate::lhlist::Reverse<Reversed = <Self::Reversed as Invert>::Inverted>,
 {
    /// Inverting `self` and reversing the result gives what reversing `self`
    /// and inverting the result gives.
    proof fn lemma_invert_reverse(self)
        ensures
            crate::lhlist::Reverse::spec_reverse(self.spec_invert())
                == self.spec_reverse().spec_invert(),
    ;
}

impl InvertReverse for () {
    proof fn lemma_invert_reverse(self) {
    }
}

impl<E, T> InvertReverse for (E, T) where
    T: InvertReverse,
    T::Reversed: InvertAppend<E>,
    T::Inverted: crate::lhlist::Reverse<Reversed = <T::Reversed as Invert>::Inverted>
        + ReversePrepend<E>,
    <T::Reversed as Append<E>>::Appended: Invert<
        Inverted = (<T::Reversed as Invert>::Inverted, E),
    >,
    <T::Inverted as crate::lhlist::Prepend<E>>::Preprended: crate::lhlist::Reverse<
        Reversed = (<T::Reversed as Invert>::Inverted, E),
    >,
 {
    proof fn lemma_invert_reverse(self) {
        self.1.lemma_invert_reverse();
        self.1.spec_reverse().lemma_invert_append(self.0);
        self.1.spec_invert().lemma_reverse_prepend(self.0);
    }
}

/// The counter zero selects the element prepended last.
pub proof fn lemma_select_prepended<S: Base, E>(s: S, e: E)
    ensures
        Selector::<E, Zero>::spec_get(&(e, s)) == e,
{
}

/// Prepending moves every element one counter up: what `I` selected before
/// the prepend, `Successor<I>` selects after it.
pub proof fn lemma_select_older<S, E, Needle, I>(s: S, e: E) where
    S: Selector<Needle, I>,
    I: Index,

    ensures
        Selector::<Needle, Successor<I>>::spec_get(&(e, s)) == s.spec_get(),
{
}

} // verus!
