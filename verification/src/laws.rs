//! The algebraic laws of the two representations.
//!
//! A law that speaks of every sequence is proved by induction over the
//! nesting of the sequence's type. Each such law is a trait: its proof
//! method states the law, the impl for `()` proves the base case and the
//! impl for the node proves the inductive step from the law for the nested
//! sequence. The `where` clauses of a law trait spell out the equations
//! between types that the law's statement needs in order to be well typed;
//! every concrete sequence type satisfies them.
//!
//! [`left`] holds the laws of left-folded sequences, [`right`] those of
//! right-folded sequences, and [`flat`] carries both over to the traits of
//! [`crate::hlist`].

pub mod flat;
pub mod left;
pub mod right;
