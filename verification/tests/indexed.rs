use hlist::indexed::lhlist::{Append, Empty, Untag};
use hlist::indexed::rhlist;
use hlist::indexed::Indexed;
use hlist::lhlist::{Base, First, Last};

#[test]
fn indexed_element_keeps_tag_and_value() {
    let mut e = Indexed::<7, &str>::new("x");
    assert_eq!(e.tag(), 7);
    assert_eq!(*e.get(), "x");
    *e.get_mut() = "y";
    assert_eq!(e.tag(), 7);
    assert_eq!(*e.get(), "y");
    assert_eq!(e.into_inner(), "y");
}

#[test]
fn indexed_tagged_round_trip() {
    let l = ().append_indexed::<0>(1.0f32).append_indexed::<1>("x");
    assert_eq!(l.length(), 2);
    assert_eq!(l.first().tag(), 0);
    assert_eq!(*l.first().get(), 1.0f32);
    assert_eq!(l.last().tag(), 1);
    assert_eq!(*l.last().get(), "x");
    assert_eq!(l.untag(), (((), 1.0f32), "x"));
}

#[test]
fn indexed_tags_are_the_callers_choice() {
    let l = ().append_indexed::<5>(1u8).append_indexed::<5>(2u8).append_indexed::<2>(3u8);
    assert_eq!(l.0 .0 .1.tag(), 5);
    assert_eq!(l.0 .1.tag(), 5);
    assert_eq!(l.1.tag(), 2);
    assert_eq!(l.untag(), ((((), 1u8), 2u8), 3u8));
}

#[test]
fn indexed_lhlist_new_is_empty() {
    let e = hlist::indexed::lhlist::new();
    let one = e.appned_indexed(4i16);
    assert_eq!(one.1.tag(), 0);
    assert_eq!(*one.1.get(), 4i16);
}

#[test]
fn indexed_lhlist_empty_starts_at_tag_zero() {
    let e: () = <() as Empty>::default();
    let one = e.appned_indexed("first");
    assert_eq!(one.1.tag(), 0);
    assert_eq!(*one.1.get(), "first");
    let other = <() as Empty>::new(2.5f64);
    assert_eq!(other.1.tag(), 0);
    assert_eq!(*other.1.get(), 2.5f64);
    assert_eq!(other.untag(), ((), 2.5f64));
}

#[test]
fn indexed_lhlist_untag_of_empty() {
    assert_eq!(Untag::untag(()), ());
}

#[test]
fn indexed_rhlist_prepend_keeps_tag_and_value() {
    let one = rhlist::Append::prepend_indexed::<0>((), 1.0f32);
    let r = rhlist::Append::prepend_indexed::<1>(one, "x");
    assert_eq!(r.0.tag(), 1);
    assert_eq!(*r.0.get(), "x");
    assert_eq!(r.1 .0.tag(), 0);
    assert_eq!(*r.1 .0.get(), 1.0f32);
    assert_eq!(rhlist::Untag::untag(r), ("x", (1.0f32, ())));
}

#[test]
fn indexed_rhlist_empty_starts_at_tag_zero() {
    let e: () = <() as rhlist::Empty>::default();
    let one = rhlist::Empty::prepend_indexed(e, "first");
    assert_eq!(one.0.tag(), 0);
    assert_eq!(*one.0.get(), "first");
    let other = <() as rhlist::Empty>::new(2.5f64);
    assert_eq!(other.0.tag(), 0);
    assert_eq!(rhlist::Untag::untag(other), (2.5f64, ()));
}

#[test]
fn indexed_rhlist_new_is_empty() {
    let e = rhlist::new();
    let one = rhlist::Empty::prepend_indexed(e, 4i16);
    assert_eq!(one.0.tag(), 0);
    assert_eq!(*one.0.get(), 4i16);
}
