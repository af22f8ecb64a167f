//! Agreement of [`crate::hlist`] with [`crate::lhlist`] and
//! [`crate::rhlist`].
//!
//! The traits of `hlist` define their results on their own. The laws here
//! show that each of them computes what its counterpart computes, so that
//! every law of [`crate::laws`] and of [`crate::model`] holds of the
//! operations of `hlist` too.

use crate::counters::{Index, Successor, Zero};
use crate::hlist::{
    LHList, LHListFirst, LHListInvert, LHListPrepend, LHListReverse, LHListSelector, RHList,
    RHListAppend, RHListInvert, RHListLast, RHListReverse, RHListSelector,
};
use crate::laws::left::{InvertInvolution, ReverseInvolution};
use crate::lhlist;
use crate::rhlist;
use vstd::prelude::*;

verus! {

/// `LHList` counts what `lhlist::Base` counts.
pub trait LeftLen: LHList + lhlist::Base {
    /// Both traits give `Self` the same length.
    proof fn lemma_same_len()
        ensures
            <Self as LHList>::spec_len() == <Self as lhlist::Base>::spec_len(),
    ;
}

impl LeftLen for () {
    proof fn lemma_same_len() {
    }
}

impl<H: LeftLen, E> LeftLen for (H, E) {
    proof fn lemma_same_len() {
        H::lemma_same_len();
    }
}

/// `RHList` counts what `rhlist::Base` counts.
pub trait RightLen: RHList + rhlist::Base {
    /// Both traits give `Self` the same length.
    proof fn lemma_same_len()
        ensures
            <Self as RHList>::spec_len() == <Self as rhlist::Base>::spec_len(),
    ;
}

impl RightLen for () {
    proof fn lemma_same_len() {
    }
}

impl<E, T: RightLen> RightLen for (E, T) {
    proof fn lemma_same_len() {
        T::lemma_same_len();
    }
}

/// `LHListPrepend` prepends as `lhlist::Prepend` does.
pub trait LeftPrepend<E>: LHListPrepend<E> + lhlist::Prepend<
    E,
    Preprended = <Self as LHListPrepend<E>>::Preprended,
> {
    /// Both traits define the same sequence for `e` followed by `self`.
    proof fn lemma_same_prepend(self, e: E)
        ensures
            LHListPrepend::spec_prepend(self, e) == lhlist::Prepend::spec_prepend(self, e),
    ;
}

impl<E> LeftPrepend<E> for () {
    proof fn lemma_same_prepend(self, e: E) {
    }
}

impl<E, H: LeftPrepend<E>, T> LeftPrepend<E> for (H, T) {
    proof fn lemma_same_prepend(self, e: E) {
        self.0.lemma_same_prepend(e);
    }
}

/// `RHListAppend` appends as `rhlist::Append` does.
pub trait RightAppend<E>: RHListAppend<E> + rhlist::Append<
    E,
    Appended = <Self as RHListAppend<E>>::Appended,
> {
    /// Both traits define the same sequence for `self` followed by `e`.
    proof fn lemma_same_append(self, e: E)
        ensures
            RHListAppend::spec_append(self, e) == rhlist::Append::spec_append(self, e),
    ;
}

impl<E> RightAppend<E> for () {
    proof fn lemma_same_append(self, e: E) {
    }
}

impl<E, H, T: RightAppend<E>> RightAppend<E> for (H, T) {
    proof fn lemma_same_append(self, e: E) {
        self.1.lemma_same_append(e);
    }
}

/// `LHListFirst` finds the first element that `lhlist::First` finds.
pub trait LeftFirst: LHListFirst + lhlist::First<First = <Self as LHListFirst>::First> {
    /// Both traits define the same first element of `self`.
    proof fn lemma_same_first(self)
        ensures
            LHListFirst::spec_first(&self) == lhlist::First::spec_first(&self),
    ;
}

impl<E> LeftFirst for ((), E) {
    proof fn lemma_same_first(self) {
    }
}

impl<H, E, T> LeftFirst for ((H, E), T) where (H, E): LeftFirst {
    proof fn lemma_same_first(self) {
        self.0.lemma_same_first();
    }
}

/// `RHListLast` finds the last element that `rhlist::Last` finds.
pub trait RightLast: RHListLast + rhlist::Last<Last = <Self as RHListLast>::Last> {
    /// Both traits define the same last element of `self`.
    proof fn lemma_same_last(self)
        ensures
            RHListLast::spec_last(&self) == rhlist::Last::spec_last(&self),
    ;
}

impl<E> RightLast for (E, ()) {
    proof fn lemma_same_last(self) {
    }
}

impl<H, E, T> RightLast for (H, (E, T)) where (E, T): RightLast {
    proof fn lemma_same_last(self) {
        self.1.lemma_same_last();
    }
}

/// `LHListInvert` inverts as `lhlist::Invert` does.
pub trait LeftInvert: LHListInvert + lhlist::Invert<
    Inverted = <Self as LHListInvert>::Inverted,
> {
    /// Both traits define the same inverse of `self`.
    proof fn lemma_same_invert(self)
        ensures
            LHListInvert::spec_invert(self) == lhlist::Invert::spec_invert(self),
    ;
}

impl LeftInvert for () {
    proof fn lemma_same_invert(self) {
    }
}

impl<H: LeftInvert, E> LeftInvert for (H, E) where
    <H as LHListInvert>::Inverted: RightAppend<E>,
 {
    proof fn lemma_same_invert(self) {
        self.0.lemma_same_invert();
        LHListInvert::spec_invert(self.0).lemma_same_append(self.1);
    }
}

/// `RHListInvert` inverts as `rhlist::Invert` does.
pub trait RightInvert: RHListInvert + rhlist::Invert<
    Inverted = <Self as RHListInvert>::Inverted,
> {
    /// Both traits define the same inverse of `self`.
    proof fn lemma_same_invert(self)
        ensures
            RHListInvert::spec_invert(self) == rhlist::Invert::spec_invert(self),
    ;
}

impl RightInvert for () {
    proof fn lemma_same_invert(self) {
    }
}

impl<E, T: RightInvert> RightInvert for (E, T) where
    <T as RHListInvert>::Inverted: LeftPrepend<E>,
 {
    proof fn lemma_same_invert(self) {
        self.1.lemma_same_invert();
        RHListInvert::spec_invert(self.1).lemma_same_prepend(self.0);
    }
}

/// `LHListReverse` reverses as `lhlist::Reverse` does.
pub trait LeftReverse: LHListReverse + lhlist::Reverse<
    Reversed = <Self as LHListReverse>::Reversed,
> {
    /// Both traits define the same reverse of `self`.
    proof fn lemma_same_reverse(self)
        ensures
            LHListReverse::spec_reverse(self) == lhlist::Reverse::spec_reverse(self),
    ;
}

impl LeftReverse for () {
    proof fn lemma_same_reverse(self) {
    }
}

impl<H: LeftReverse, E> LeftReverse for (H, E) where
    <H as LHListReverse>::Reversed: LeftPrepend<E>,
 {
    proof fn lemma_same_reverse(self) {
        self.0.lemma_same_reverse();
        LHListReverse::spec_reverse(self.0).lemma_same_prepend(self.1);
    }
}

/// `RHListReverse` reverses as `rhlist::Reverse` does.
pub trait RightReverse: RHListReverse + rhlist::Reverse<
    Reversed = <Self as RHListReverse>::Reversed,
> {
    /// Both traits define the same reverse of `self`.
    proof fn lemma_same_reverse(self)
        ensures
            RHListReverse::spec_reverse(self) == rhlist::Reverse::spec_reverse(self),
    ;
}

impl RightReverse for () {
    proof fn lemma_same_reverse(self) {
    }
}

impl<E, T: RHList + RightReverse> RightReverse for (E, T) where
    <T as RHListReverse>::Reversed: RightAppend<E>,
 {
    proof fn lemma_same_reverse(self) {
        self.1.lemma_same_reverse();
        RHListReverse::spec_reverse(self.1).lemma_same_append(self.0);
    }
}

/// `LHListSelector` selects and writes as `lhlist::Selector` does.
pub trait LeftSelector<Needle, I>: LHListSelector<Needle, I> + lhlist::Selector<
    Needle,
    I,
> where I: Index {
    /// Both traits select the same element of `self`, and define the same
    /// sequence for `self` with `v` written to it.
    proof fn lemma_same_selector(self, v: Needle)
        ensures
            LHListSelector::<Needle, I>::spec_get(&self) == lhlist::Selector::<
                Needle,
                I,
            >::spec_get(&self),
            LHListSelector::<Needle, I>::spec_set(self, v) == lhlist::Selector::<
                Needle,
                I,
            >::spec_set(self, v),
    ;
}

impl<H: LHList + lhlist::Base, Needle> LeftSelector<Needle, Zero> for (H, Needle) {
    proof fn lemma_same_selector(self, v: Needle) {
    }
}

impl<H, T, Needle, I> LeftSelector<Needle, Successor<I>> for (H, T) where
    H: LeftSelector<Needle, I>,
    I: Index,
 {
    proof fn lemma_same_selector(self, v: Needle) {
        self.0.lemma_same_selector(v);
    }
}

/// `RHListSelector` selects and writes as `rhlist::Selector` does.
pub trait RightSelector<Needle, I>: RHListSelector<Needle, I> + rhlist::Selector<
    Needle,
    I,
> where I: Index {
    /// Both traits select the same element of `self`, and define the same
    /// sequence for `self` with `v` written to it.
    proof fn lemma_same_selector(self, v: Needle)
        ensures
            RHListSelector::<Needle, I>::spec_get(&self) == rhlist::Selector::<
                Needle,
                I,
            >::spec_get(&self),
            RHListSelector::<Needle, I>::spec_set(self, v) == rhlist::Selector::<
                Needle,
                I,
            >::spec_set(self, v),
    ;
}

impl<Needle, T: RHList + rhlist::Base> RightSelector<Needle, Zero> for (Needle, T) {
    proof fn lemma_same_selector(self, v: Needle) {
    }
}

impl<H, T, Needle, I> RightSelector<Needle, Successor<I>> for (H, T) where
    T: RightSelector<Needle, I>,
    I: Index,
 {
    proof fn lemma_same_selector(self, v: Needle) {
        self.1.lemma_same_selector(v);
    }
}

/// `LHListReverse` twice gives back the sequence.
pub proof fn lemma_left_reverse_reverse<S>(s: S) where
    S: LeftReverse + ReverseInvolution,
    <S as LHListReverse>::Reversed: LeftReverse + LHListReverse<Reversed = S>,

    ensures
        LHListReverse::spec_reverse(LHListReverse::spec_reverse(s)) == s,
{
    s.lemma_same_reverse();
    LHListReverse::spec_reverse(s).lemma_same_reverse();
    s.lemma_reverse_reverse();
}

/// `RHListReverse` twice gives back the sequence.
pub proof fn lemma_right_reverse_reverse<S>(s: S) where
    S: RightReverse + crate::laws::right::ReverseInvolution,
    <S as RHListReverse>::Reversed: RightReverse + RHListReverse<Reversed = S>,

    ensures
        RHListReverse::spec_reverse(RHListReverse::spec_reverse(s)) == s,
{
    s.lemma_same_reverse();
    RHListReverse::spec_reverse(s).lemma_same_reverse();
    crate::laws::right::ReverseInvolution::lemma_reverse_reverse(s);
}

/// `LHListInvert` followed by `RHListInvert` gives back the sequence.
pub proof fn lemma_left_invert_invert<S>(s: S) where
    S: LeftInvert + InvertInvolution,
    <S as LHListInvert>::Inverted: RightInvert + RHListInvert<Inverted = S>,

    ensures
        RHListInvert::spec_invert(LHListInvert::spec_invert(s)) == s,
{
    s.lemma_same_invert();
    LHListInvert::spec_invert(s).lemma_same_invert();
    s.lemma_invert_invert();
}

/// `RHListInvert` followed by `LHListInvert` gives back the sequence.
pub proof fn lemma_right_invert_invert<S>(s: S) where
    S: RightInvert + crate::laws::right::InvertInvolution,
    <S as RHListInvert>::Inverted: LeftInvert + LHListInvert<Inverted = S>,

    ensures
        LHListInvert::spec_invert(RHListInvert::spec_invert(s)) == s,
{
    s.lemma_same_invert();
    RHListInvert::spec_invert(s).lemma_same_invert();
    crate::laws::right::InvertInvolution::lemma_invert_invert(s);
}

} // verus!
