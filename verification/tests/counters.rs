use hlist::counters::{Index, Successor, Zero};

#[test]
fn counters_zero_is_zero() {
    assert_eq!(Zero::index(), 0);
    assert_eq!(<Zero as Index>::INDEX, 0);
}

#[test]
fn counters_successor_adds_one() {
    assert_eq!(<Successor<Zero>>::index(), 1);
    assert_eq!(<Successor<Successor<Successor<Zero>>>>::index(), 3);
    assert_eq!(<Successor<Zero> as Index>::INDEX, 1);
    assert_eq!(<Successor<Successor<Successor<Zero>>> as Index>::INDEX, 3);
}
