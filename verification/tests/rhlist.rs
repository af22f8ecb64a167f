use hlist::counters::{Successor, Zero};
use hlist::laws::right::{InvertInvolution, ReverseInvolution};
use hlist::lhlist;
use hlist::rhlist;
use hlist::rhlist::{Append, Base, Empty, First, Invert, Last, Reverse, Selector};

type Three = (i32, (u32, (f32, ())));

fn three() -> Three {
    ().prepend(3f32).prepend(2u32).prepend(1i32)
}

fn reverse_twice<S>(s: S) -> S
where
    S: ReverseInvolution,
    S::Reversed: Reverse<Reversed = S>,
{
    s.reverse().reverse()
}

fn invert_twice<S>(s: S) -> S
where
    S: InvertInvolution,
    S::Inverted: lhlist::Invert<Inverted = S>,
{
    lhlist::Invert::invert(s.invert())
}

#[test]
fn rhlist_length_first_last() {
    let r = three();
    assert_eq!(r.length(), 3);
    assert_eq!(<Three as Base>::LENGTH, 3);
    assert_eq!(*r.first(), 1i32);
    assert_eq!(*r.last(), 3f32);
    assert_eq!(r, (1i32, (2u32, (3f32, ()))));
}

#[test]
fn rhlist_length_grows_by_one_per_prepend() {
    let r0 = ();
    assert_eq!(r0.length(), 0);
    let r1 = r0.prepend("a");
    assert_eq!(r1.length(), 1);
    let r2 = r1.prepend(7u8);
    assert_eq!(r2.length(), 2);
    let r3 = rhlist::Prepend::prepend(r2, 'c');
    assert_eq!(r3.length(), 3);
    assert_eq!(<(u8, (u8, ())) as Base>::LENGTH, 2);
}

#[test]
fn rhlist_length_grows_by_one_per_append() {
    let a = three().append("sigma");
    assert_eq!(a.length(), 4);
    assert_eq!(().append(1u8).length(), 1);
}

#[test]
fn rhlist_first_is_what_was_prepended() {
    let r = three().prepend("newest");
    assert_eq!(*r.first(), "newest");
    let m = rhlist::Prepend::prepend(three(), 9i64);
    assert_eq!(*m.first(), 9i64);
    assert_eq!(m, (9i64, three()));
    assert_eq!(rhlist::Prepend::prepend((), 4u8), (4u8, ()));
}

#[test]
fn rhlist_append_reaches_the_tail() {
    let a = three().append("sigma");
    assert_eq!(a, (1i32, (2u32, (3f32, ("sigma", ())))));
    assert_eq!(*a.last(), "sigma");
    assert_eq!(*a.first(), 1i32);
    assert_eq!(().append(5u8), (5u8, ()));
}

#[test]
fn rhlist_first_and_last_of_one_element() {
    let r = ().prepend(42u64);
    assert_eq!(*r.first(), 42u64);
    assert_eq!(*r.last(), 42u64);
}

#[test]
fn rhlist_first_mut_changes_only_the_first() {
    let mut r = three();
    *r.first_mut() = -5i32;
    assert_eq!(r, (-5i32, (2u32, (3f32, ()))));
}

#[test]
fn rhlist_last_mut_changes_only_the_last() {
    let mut r = three();
    *r.last_mut() = 0.5f32;
    assert_eq!(r, (1i32, (2u32, (0.5f32, ()))));
}

#[test]
fn rhlist_invert_keeps_the_order() {
    assert_eq!(().invert(), ());
    assert_eq!((1u8, ()).invert(), ((), 1u8));
    assert_eq!(three().invert(), ((((), 1i32), 2u32), 3f32));
}

#[test]
fn rhlist_invert_twice_is_identity() {
    assert_eq!(invert_twice(three()), three());
    assert_eq!(invert_twice(()), ());
    assert_eq!(invert_twice(("x", ())), ("x", ()));
    let r = (1u8, (2u16, (3u32, (4u64, (5u128, ())))));
    assert_eq!(invert_twice(r), r);
    assert_eq!(invert_twice(r).length(), r.length());
}

#[test]
fn rhlist_reverse_flips_the_order() {
    assert_eq!(().reverse(), ());
    assert_eq!((1u8, ()).reverse(), (1u8, ()));
    assert_eq!(three().reverse(), (3f32, (2u32, (1i32, ()))));
    assert_eq!(three().reverse().length(), 3);
}

#[test]
fn rhlist_reverse_twice_is_identity() {
    assert_eq!(reverse_twice(three()), three());
    assert_eq!(reverse_twice(()), ());
    assert_eq!(reverse_twice(("x", ())), ("x", ()));
    let r = (1u8, (2u16, (3u32, (4u64, (5u128, ())))));
    assert_eq!(reverse_twice(r), r);
}

#[test]
fn rhlist_selector_finds_each_distinct_type() {
    let r = three();
    let a: &i32 = r.get();
    let b: &u32 = r.get();
    let c: &f32 = r.get();
    assert_eq!(*a, 1i32);
    assert_eq!(*b, 2u32);
    assert_eq!(*c, 3f32);
}

#[test]
fn rhlist_selector_counts_from_the_first_element() {
    let r = ().prepend(30u8).prepend(20u8).prepend(10u8);
    assert_eq!(*Selector::<u8, Zero>::get(&r), 10u8);
    assert_eq!(*Selector::<u8, Successor<Zero>>::get(&r), 20u8);
    assert_eq!(*Selector::<u8, Successor<Successor<Zero>>>::get(&r), 30u8);
}

#[test]
fn rhlist_selector_get_mut_changes_only_the_selected() {
    let mut r = ().prepend(30u8).prepend(20u8).prepend(10u8);
    *Selector::<u8, Successor<Zero>>::get_mut(&mut r) = 21u8;
    assert_eq!(r, (10u8, (21u8, (30u8, ()))));
    let mut m = three();
    let x: &mut u32 = m.get_mut();
    *x = 22u32;
    assert_eq!(m, (1i32, (22u32, (3f32, ()))));
}

#[test]
fn rhlist_empty_default_is_the_terminal() {
    let e: () = <() as Empty>::default();
    assert_eq!(e, ());
    assert_eq!(e.length(), 0);
}
