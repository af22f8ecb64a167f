use hlist::counters::{Successor, Zero};
use hlist::{HList, HListEnds, HListGrow, HListSelect, Left, Right};

fn length_of<Side, S: HList<Side>>(s: &S) -> usize {
    s.length()
}

fn there_and_back<Side, Other, S>(s: S) -> S
where
    S: HList<Side>,
    S::Inverted: HList<Other, Inverted = S>,
{
    s.invert().invert()
}

#[test]
fn unified_left_reads_pairs_as_left_folded() {
    let l = ((((), 1i32), 2u32), 3f32);
    assert_eq!(length_of::<Left, _>(&l), 3);
    assert_eq!(*HListEnds::<Left>::first(&l), 1i32);
    assert_eq!(*HListEnds::<Left>::last(&l), 3f32);
    assert_eq!(HList::<Left>::invert(l), (1i32, (2u32, (3f32, ()))));
    assert_eq!(HList::<Left>::reverse(l), ((((), 3f32), 2u32), 1i32));
    assert_eq!(HListGrow::<Left, _>::prepend(l, 'p'), (((((), 'p'), 1i32), 2u32), 3f32));
    assert_eq!(HListGrow::<Left, _>::append(l, 'a'), (((((), 1i32), 2u32), 3f32), 'a'));
}

#[test]
fn unified_right_reads_pairs_as_right_folded() {
    let r = (1i32, (2u32, (3f32, ())));
    assert_eq!(length_of::<Right, _>(&r), 3);
    assert_eq!(*HListEnds::<Right>::first(&r), 1i32);
    assert_eq!(*HListEnds::<Right>::last(&r), 3f32);
    assert_eq!(HList::<Right>::invert(r), ((((), 1i32), 2u32), 3f32));
    assert_eq!(HList::<Right>::reverse(r), (3f32, (2u32, (1i32, ()))));
    assert_eq!(HListGrow::<Right, _>::prepend(r, 'p'), ('p', (1i32, (2u32, (3f32, ())))));
    assert_eq!(HListGrow::<Right, _>::append(r, 'a'), (1i32, (2u32, (3f32, ('a', ())))));
}

#[test]
fn unified_one_pair_two_readings() {
    let both = ((), ());
    assert_eq!(length_of::<Left, _>(&both), 1);
    assert_eq!(length_of::<Right, _>(&both), 1);
    assert_eq!(length_of::<Left, _>(&()), 0);
    assert_eq!(length_of::<Right, _>(&()), 0);
}

#[test]
fn unified_invert_there_and_back() {
    let l = ((((), 1i32), 2u32), 3f32);
    assert_eq!(there_and_back::<Left, Right, _>(l), l);
    let r = (1i32, (2u32, (3f32, ())));
    assert_eq!(there_and_back::<Right, Left, _>(r), r);
}

#[test]
fn unified_select() {
    let mut l = ((((), 10u8), 20u8), 'c');
    assert_eq!(*HListSelect::<Left, u8, Successor<Zero>>::get(&l), 20u8);
    *HListSelect::<Left, u8, Successor<Successor<Zero>>>::get_mut(&mut l) = 11u8;
    assert_eq!(l, ((((), 11u8), 20u8), 'c'));
    let mut r = (10u8, (20u8, ('c', ())));
    assert_eq!(*HListSelect::<Right, u8, Successor<Zero>>::get(&r), 20u8);
    *HListSelect::<Right, char, Successor<Successor<Zero>>>::get_mut(&mut r) = 'd';
    assert_eq!(r, (10u8, (20u8, ('d', ()))));
}
