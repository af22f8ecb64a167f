use hlist::hlist::{
    Indexed, LHList, LHListAppendIndexed, LHListFirst, LHListInvert, LHListPrepend,
    LHListReverse, LHListSelector, RHList, RHListAppend, RHListAppendIndexed, RHListInvert,
    RHListLast, RHListReverse, RHListSelector, Successor, Zero,
};

#[test]
fn flat_lhlist_operations() {
    let lhlist = ((((), 1i32), 2u32), 3f32);
    let prepended = lhlist.clone().prepend("siema");
    assert_eq!(prepended, (((((), "siema"), 1i32), 2u32), 3f32));
    let reversed = lhlist.clone().reverse();
    assert_eq!(reversed, ((((), 3f32), 2u32), 1i32));
    let inverted: (i32, (u32, (f32, ()))) = lhlist.clone().invert();
    assert_eq!(inverted, (1i32, (2u32, (3f32, ()))));
    assert_eq!(*lhlist.first(), 1i32);
    assert_eq!(LHList::length(&lhlist), 3);
    assert_eq!(<((((), i32), u32), f32) as LHList>::LENGTH, 3);
    assert_eq!(LHList::append(lhlist, 'z'), (((((), 1i32), 2u32), 3f32), 'z'));
}

#[test]
fn flat_rhlist_operations() {
    let rhlist = (1i32, (2u32, (3f32, ())));
    let appended = rhlist.clone().append("sigma");
    assert_eq!(appended, (1i32, (2u32, (3f32, ("sigma", ())))));
    let reversed = rhlist.clone().reverse();
    assert_eq!(reversed, (3f32, (2u32, (1i32, ()))));
    let inverted = rhlist.clone().invert();
    assert_eq!(inverted, ((((), 1i32), 2u32), 3f32));
    assert_eq!(*rhlist.last(), 3f32);
    assert_eq!(RHList::length(&rhlist), 3);
    assert_eq!(<(i32, (u32, (f32, ()))) as RHList>::LENGTH, 3);
    assert_eq!(RHList::prepend(rhlist, 'z'), ('z', (1i32, (2u32, (3f32, ())))));
}

#[test]
fn flat_indexed_append() {
    let first: ((), Indexed<0, f32>) = LHListAppendIndexed::append_indexed((), 1f32);
    let indexed: (((), Indexed<0, f32>), Indexed<1, &str>) =
        LHListAppendIndexed::append_indexed(first, "sigma");
    assert_eq!(indexed.0 .1.tag(), 0);
    assert_eq!(*indexed.0 .1.get(), 1f32);
    assert_eq!(indexed.1.tag(), 1);
    assert_eq!(*indexed.1.get(), "sigma");
}

#[test]
fn flat_indexed_append_right() {
    let first: (Indexed<0, f32>, ()) = RHListAppendIndexed::append_indexed((), 1f32);
    let indexed: (Indexed<4, &str>, (Indexed<0, f32>, ())) =
        RHListAppendIndexed::append_indexed(first, "sigma");
    assert_eq!(indexed.0.tag(), 4);
    assert_eq!(*indexed.0.get(), "sigma");
    assert_eq!(indexed.1 .0.tag(), 0);
    assert_eq!(*indexed.1 .0.get(), 1f32);
}

#[test]
fn flat_selectors() {
    let mut l = ((((), 10u8), 20u8), 'c');
    assert_eq!(*LHListSelector::<char, Zero>::get(&l), 'c');
    assert_eq!(*LHListSelector::<u8, Successor<Zero>>::get(&l), 20u8);
    assert_eq!(*LHListSelector::<u8, Successor<Successor<Zero>>>::get(&l), 10u8);
    *LHListSelector::<u8, Successor<Zero>>::get_mut(&mut l) = 21u8;
    assert_eq!(l, ((((), 10u8), 21u8), 'c'));
    let mut r = (10u8, (20u8, ('c', ())));
    assert_eq!(*RHListSelector::<u8, Zero>::get(&r), 10u8);
    assert_eq!(*RHListSelector::<u8, Successor<Zero>>::get(&r), 20u8);
    assert_eq!(*RHListSelector::<char, Successor<Successor<Zero>>>::get(&r), 'c');
    *RHListSelector::<u8, Zero>::get_mut(&mut r) = 11u8;
    assert_eq!(r, (11u8, (20u8, ('c', ()))));
}

#[test]
fn flat_terminal() {
    assert_eq!(LHList::length(&()), 0);
    assert_eq!(RHList::length(&()), 0);
    assert_eq!(LHListPrepend::prepend((), 1u8), ((), 1u8));
    assert_eq!(RHListAppend::append((), 1u8), (1u8, ()));
    assert_eq!(LHListInvert::invert(()), ());
    assert_eq!(RHListInvert::invert(()), ());
    assert_eq!(LHListReverse::reverse(()), ());
    assert_eq!(RHListReverse::reverse(()), ());
}
