use hlist::laws::left;
use hlist::laws::right;
use hlist::lhlist;
use hlist::model;
use hlist::rhlist;

fn left_prepend_then_first<S, E: Clone>(s: S, e: E) -> E
where
    S: left::PrependFirst<E>,
    S::Preprended: lhlist::First<First = E>,
{
    lhlist::First::first(&s.prepend(e)).clone()
}

fn right_append_then_last<S, E: Clone>(s: S, e: E) -> E
where
    S: right::AppendLast<E>,
    S::Appended: rhlist::Last<Last = E>,
{
    rhlist::Last::last(&s.append(e)).clone()
}

fn left_invert_reverse_invert<S>(s: S) -> <S as lhlist::Reverse>::Reversed
where
    S: left::InvertReverse,
    S::Reversed: lhlist::Invert,
    S::Inverted: rhlist::Reverse<Reversed = <S::Reversed as lhlist::Invert>::Inverted>,
    <S::Reversed as lhlist::Invert>::Inverted: rhlist::Invert<Inverted = S::Reversed>,
{
    rhlist::Invert::invert(rhlist::Reverse::reverse(lhlist::Invert::invert(s)))
}

fn right_invert_reverse_invert<S>(s: S) -> <S as rhlist::Reverse>::Reversed
where
    S: right::InvertReverse,
    S::Reversed: rhlist::Invert,
    S::Inverted: lhlist::Reverse<Reversed = <S::Reversed as rhlist::Invert>::Inverted>,
    <S::Reversed as rhlist::Invert>::Inverted: lhlist::Invert<Inverted = S::Reversed>,
{
    lhlist::Invert::invert(lhlist::Reverse::reverse(rhlist::Invert::invert(s)))
}

fn left_has_model<X, S>(_s: &S)
where
    S: model::left::Elements<X>
        + model::left::InvertElements<X>
        + model::left::ReverseElements<X>
        + model::left::FirstElements<X>,
    S::Inverted: model::right::Elements<X>,
    S::Reversed: model::left::Elements<X>,
    S::First: model::Observe<X>,
{
}

fn right_has_model<X, S>(_s: &S)
where
    S: model::right::Elements<X>
        + model::right::InvertElements<X>
        + model::right::ReverseElements<X>
        + model::right::LastElements<X>,
    S::Inverted: model::left::Elements<X>,
    S::Reversed: model::right::Elements<X>,
    S::Last: model::Observe<X>,
{
}

#[test]
fn laws_left_first_is_what_was_prepended() {
    assert_eq!(left_prepend_then_first((), 7u8), 7u8);
    assert_eq!(left_prepend_then_first(((), 'a'), 7u8), 7u8);
    assert_eq!(left_prepend_then_first(((((), 1i32), 2u32), 3f32), "front"), "front");
}

#[test]
fn laws_right_last_is_what_was_appended() {
    assert_eq!(right_append_then_last((), 7u8), 7u8);
    assert_eq!(right_append_then_last(('a', ()), 7u8), 7u8);
    assert_eq!(right_append_then_last((1i32, (2u32, (3f32, ()))), "back"), "back");
}

#[test]
fn laws_left_invert_reverse_invert_is_reverse() {
    let l = ((((), 1i32), 2u32), 3f32);
    assert_eq!(left_invert_reverse_invert(l), lhlist::Reverse::reverse(l));
    assert_eq!(left_invert_reverse_invert(l), ((((), 3f32), 2u32), 1i32));
    assert_eq!(left_invert_reverse_invert(()), ());
}

#[test]
fn laws_right_invert_reverse_invert_is_reverse() {
    let r = (1i32, (2u32, (3f32, ())));
    assert_eq!(right_invert_reverse_invert(r), rhlist::Reverse::reverse(r));
    assert_eq!(right_invert_reverse_invert(r), (3f32, (2u32, (1i32, ()))));
    assert_eq!(right_invert_reverse_invert(()), ());
}

#[test]
fn laws_model_covers_sequences_of_one_element_type() {
    left_has_model::<u8, _>(&((((), 1u8), 2u8), 3u8));
    left_has_model::<&str, _>(&((), "only"));
    right_has_model::<u8, _>(&(1u8, (2u8, (3u8, ()))));
    right_has_model::<&str, _>(&("only", ()));
}
