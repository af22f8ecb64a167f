use hlist::counters::{Successor, Zero};
use hlist::laws::left::{InvertInvolution, ReverseInvolution};
use hlist::lhlist;
use hlist::lhlist::{Base, Empty, First, Invert, Last, Prepend, Reverse, Selector};
use hlist::rhlist;

type Three = ((((), i32), u32), f32);

fn three() -> Three {
    ().append(1i32).append(2u32).append(3f32)
}

fn reverse_twice<S>(s: S) -> S
where
    S: ReverseInvolution,
    S::Reversed: Reverse<Reversed = S>,
{
    s.reverse().reverse()
}

fn invert_twice<S>(s: S) -> S
where
    S: InvertInvolution,
    S::Inverted: rhlist::Invert<Inverted = S>,
{
    rhlist::Invert::invert(s.invert())
}

#[test]
fn lhlist_three_elements_length_first_last() {
    let l = three();
    assert_eq!(l.length(), 3);
    assert_eq!(<Three as Base>::LENGTH, 3);
    assert_eq!(*l.first(), 1i32);
    assert_eq!(*l.last(), 3.0f32);
    assert_eq!(l, ((((), 1i32), 2u32), 3f32));
}

#[test]
fn lhlist_three_elements_invert_reverse_invert() {
    let inverted: (i32, (u32, (f32, ()))) = three().invert();
    assert_eq!(inverted, (1i32, (2u32, (3f32, ()))));
    let reversed: (f32, (u32, (i32, ()))) = rhlist::Reverse::reverse(inverted);
    assert_eq!(reversed, (3f32, (2u32, (1i32, ()))));
    let back: ((((), f32), u32), i32) = rhlist::Invert::invert(reversed);
    assert_eq!(back, ((((), 3f32), 2u32), 1i32));
    assert_eq!(back, three().reverse());
    assert_eq!(back.reverse(), three());
}

#[test]
fn lhlist_length_grows_by_one_per_append() {
    let l0 = ();
    assert_eq!(l0.length(), 0);
    assert_eq!(<() as Base>::LENGTH, 0);
    let l1 = l0.append("a");
    assert_eq!(l1.length(), 1);
    let l2 = l1.append(7u8);
    assert_eq!(l2.length(), 2);
    let l3 = lhlist::Append::append(l2, 'c');
    assert_eq!(l3.length(), 3);
    assert_eq!(<(((), u8), u8) as Base>::LENGTH, 2);
}

#[test]
fn lhlist_length_grows_by_one_per_prepend() {
    let l = three();
    let p = l.prepend("siema");
    assert_eq!(p.length(), 4);
    let q = ().prepend(1u8);
    assert_eq!(q.length(), 1);
}

#[test]
fn lhlist_last_is_what_was_appended() {
    let l = three().append("newest");
    assert_eq!(*l.last(), "newest");
    let m = lhlist::Append::append(three(), 9i64);
    assert_eq!(*m.last(), 9i64);
    assert_eq!(m, (three(), 9i64));
    let n = lhlist::Append::append((), 4u8);
    assert_eq!(n, ((), 4u8));
}

#[test]
fn lhlist_prepend_reaches_the_front() {
    let p = three().prepend("siema");
    assert_eq!(p, (((((), "siema"), 1i32), 2u32), 3f32));
    assert_eq!(*p.first(), "siema");
    assert_eq!(*p.last(), 3f32);
    assert_eq!(().prepend(5u8), ((), 5u8));
}

#[test]
fn lhlist_first_and_last_of_one_element() {
    let l = ().append(42u64);
    assert_eq!(*l.first(), 42u64);
    assert_eq!(*l.last(), 42u64);
}

#[test]
fn lhlist_first_mut_changes_only_the_first() {
    let mut l = three();
    *l.first_mut() = -5i32;
    assert_eq!(l, ((((), -5i32), 2u32), 3f32));
}

#[test]
fn lhlist_last_mut_changes_only_the_last() {
    let mut l = three();
    *l.last_mut() = 0.5f32;
    assert_eq!(l, ((((), 1i32), 2u32), 0.5f32));
}

#[test]
fn lhlist_invert_keeps_the_order() {
    assert_eq!(().invert(), ());
    assert_eq!(((), 1u8).invert(), (1u8, ()));
    assert_eq!(three().invert(), (1i32, (2u32, (3f32, ()))));
}

#[test]
fn lhlist_invert_twice_is_identity() {
    assert_eq!(invert_twice(three()), three());
    assert_eq!(invert_twice(()), ());
    assert_eq!(invert_twice(((), "x")), ((), "x"));
    let l = ((((((), 1u8), 2u16), 3u32), 4u64), 5u128);
    assert_eq!(invert_twice(l), l);
    assert_eq!(invert_twice(l).length(), l.length());
}

#[test]
fn lhlist_reverse_flips_the_order() {
    assert_eq!(().reverse(), ());
    assert_eq!(((), 1u8).reverse(), ((), 1u8));
    assert_eq!(three().reverse(), ((((), 3f32), 2u32), 1i32));
    assert_eq!(three().reverse().length(), 3);
}

#[test]
fn lhlist_reverse_twice_is_identity() {
    assert_eq!(reverse_twice(three()), three());
    assert_eq!(reverse_twice(()), ());
    assert_eq!(reverse_twice(((), "x")), ((), "x"));
    let l = ((((((), 1u8), 2u16), 3u32), 4u64), 5u128);
    assert_eq!(reverse_twice(l), l);
}

#[test]
fn lhlist_selector_finds_each_distinct_type() {
    let l = ().append(1i32).append(2u32).append(3f32);
    let a: &i32 = l.get();
    let b: &u32 = l.get();
    let c: &f32 = l.get();
    assert_eq!(*a, 1i32);
    assert_eq!(*b, 2u32);
    assert_eq!(*c, 3f32);
}

#[test]
fn lhlist_selector_finds_the_same_element_in_any_insertion_order() {
    let l = ().append(3f32).append(1i32).append(2u32);
    let a: &i32 = l.get();
    let b: &u32 = l.get();
    let c: &f32 = l.get();
    assert_eq!(*a, 1i32);
    assert_eq!(*b, 2u32);
    assert_eq!(*c, 3f32);
}

#[test]
fn lhlist_selector_counts_from_the_last_element() {
    let l = ().append(10u8).append(20u8).append(30u8);
    assert_eq!(*Selector::<u8, Zero>::get(&l), 30u8);
    assert_eq!(*Selector::<u8, Successor<Zero>>::get(&l), 20u8);
    assert_eq!(*Selector::<u8, Successor<Successor<Zero>>>::get(&l), 10u8);
}

#[test]
fn lhlist_selector_get_mut_changes_only_the_selected() {
    let mut l = ().append(10u8).append(20u8).append(30u8);
    *Selector::<u8, Successor<Zero>>::get_mut(&mut l) = 21u8;
    assert_eq!(l, ((((), 10u8), 21u8), 30u8));
    let mut m = three();
    let x: &mut u32 = m.get_mut();
    *x = 22u32;
    assert_eq!(m, ((((), 1i32), 22u32), 3f32));
}

#[test]
fn lhlist_empty_default_is_the_terminal() {
    let e: () = <() as Empty>::default();
    assert_eq!(e, ());
    assert_eq!(e.length(), 0);
}
