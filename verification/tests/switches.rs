use core::marker::PhantomData;
use core::num::{NonZeroI16, NonZeroU32};

use core::hash::{Hash, Hasher};
use std::collections::hash_map::DefaultHasher;

use lib::bool_macro_help::{
    condition_marker_value, from_false, from_true, into_false, into_false_mut, into_true,
    into_true_mut, switch_storage_condition_marker,
};
use lib::{
    switch_map, switch_match, switch_match_mut, switch_new, Bool, BoolEither, Branch, False,
    SwitchBorrow, SwitchBuild, SwitchCell, SwitchStorage, SwitchUnion, True,
};

fn lifecycle_union<B: Bool>() {
    let (a, mut b): (SwitchUnion<B, NonZeroU32, i16>, SwitchUnion<B, NonZeroU32, i16>) =
        switch_new(
            || (NonZeroU32::new(5).unwrap(), NonZeroU32::new(3).unwrap()),
            || (-2, 7),
        );
    switch_match_mut(
        &mut b,
        |b: &mut NonZeroU32| *b = b.saturating_add(1),
        |b: &mut i16| *b = b.saturating_add(1),
    );
    let (x, y): (SwitchUnion<B, u32, NonZeroI16>, SwitchUnion<B, u32, NonZeroI16>) = switch_map(
        (a, &b),
        |(a, b): (NonZeroU32, &NonZeroU32)| (a.get() * b.get(), a.get() + b.get()),
        |(a, b): (i16, &i16)| (NonZeroI16::new(a * *b).unwrap(), NonZeroI16::new(a + *b).unwrap()),
    );
    let truth = switch_match(
        ((x, y), b),
        |((x, y), b): ((u32, u32), NonZeroU32)| {
            assert_eq!(x, 20);
            assert_eq!(y, 9);
            assert_eq!(b.get(), 4);
            true
        },
        |((x, y), b): ((NonZeroI16, NonZeroI16), i16)| {
            assert_eq!(x.get(), -16);
            assert_eq!(y.get(), 6);
            assert_eq!(b, 8);
            false
        },
    );
    assert_eq!(truth, B::VALUE);
}

fn lifecycle_cell<B>()
where
    B: BoolEither<NonZeroU32, i16> + BoolEither<u32, NonZeroI16>,
{
    let (a, mut b): (SwitchCell<B, NonZeroU32, i16>, SwitchCell<B, NonZeroU32, i16>) = switch_new(
        || (NonZeroU32::new(5).unwrap(), NonZeroU32::new(3).unwrap()),
        || (-2, 7),
    );
    switch_match_mut(
        &mut b,
        |b: &mut NonZeroU32| *b = b.saturating_add(1),
        |b: &mut i16| *b = b.saturating_add(1),
    );
    let (x, y): (SwitchCell<B, u32, NonZeroI16>, SwitchCell<B, u32, NonZeroI16>) = switch_map(
        (a, &b),
        |(a, b): (NonZeroU32, &NonZeroU32)| (a.get() * b.get(), a.get() + b.get()),
        |(a, b): (i16, &i16)| (NonZeroI16::new(a * *b).unwrap(), NonZeroI16::new(a + *b).unwrap()),
    );
    let truth = switch_match(
        ((x, y), b),
        |((x, y), b): ((u32, u32), NonZeroU32)| {
            assert_eq!(x, 20);
            assert_eq!(y, 9);
            assert_eq!(b.get(), 4);
            true
        },
        |((x, y), b): ((NonZeroI16, NonZeroI16), i16)| {
            assert_eq!(x.get(), -16);
            assert_eq!(y.get(), 6);
            assert_eq!(b, 8);
            false
        },
    );
    assert_eq!(truth, <B as Bool>::VALUE);
}

#[test]
fn lifecycle_union_true() {
    lifecycle_union::<True>();
}

#[test]
fn lifecycle_union_false() {
    lifecycle_union::<False>();
}

#[test]
fn lifecycle_cell_true() {
    lifecycle_cell::<True>();
}

#[test]
fn lifecycle_cell_false() {
    lifecycle_cell::<False>();
}

#[test]
fn match_increments_the_true_value() {
    let a = SwitchCell::<True, u32, f32>(5);
    let incremented = switch_match(a, |a| a + 1, |a| (a + 1.0) as u32);
    assert_eq!(incremented, 6);
}

#[test]
fn match_on_two_copies_squares() {
    let a = SwitchCell::<True, u32, f32>(5);
    let square = switch_match((&a, &a), |(l, r)| *l * *r, |(l, r)| (*l * *r) as u32);
    assert_eq!(square, 25);
}

#[test]
fn match_on_false_multiplies_the_false_values() {
    let a = SwitchCell::<False, u32, u16>(3);
    let b = SwitchCell::<False, u32, u16>(4);
    let product = switch_match((a, b), |(a, b)| (a * b) as u64, |(a, b)| (a * b) as u64);
    assert_eq!(product, 12);
}

#[test]
fn map_squares_into_another_cell() {
    let a = SwitchCell::<True, u32, f32>(5);
    let square: SwitchCell<True, u64, f64> =
        switch_map(a, |a| (a * a) as u64, |a| (a * a) as f64);
    assert_eq!(square.0, 25);
}

fn subtract_both_ways<B>(
    a: SwitchCell<B, i32, i64>,
    b: SwitchCell<B, i32, i64>,
) -> (SwitchCell<B, i32, i64>, SwitchCell<B, i32, i64>)
where
    B: BoolEither<i32, i64>,
{
    switch_map((a, b), |(a, b)| (a - b, b - a), |(a, b)| (a - b, b - a))
}

#[test]
fn map_subtracts_both_ways() {
    let a = SwitchCell::<True, i32, i64>(5);
    let b = SwitchCell::<True, i32, i64>(2);
    let (positive, negative) = subtract_both_ways(a, b);
    assert_eq!(positive.0, 3);
    assert_eq!(negative.0, -3);
}

#[test]
fn new_builds_the_true_value() {
    let a = 5u32;
    let a: SwitchCell<True, u64, f64> = switch_new(|| a as u64, || a as f64);
    assert_eq!(a.0, 5);
}

fn subtract_into<B>(a: i16, b: i16) -> (SwitchCell<B, i32, i64>, SwitchCell<B, i32, i64>)
where
    B: BoolEither<i32, i64>,
{
    switch_new(
        || (From::from(a - b), From::from(b - a)),
        || (From::from(a - b), From::from(b - a)),
    )
}

#[test]
fn new_subtracts_both_ways() {
    let (positive, negative) = subtract_into::<True>(5, 2);
    assert_eq!(positive.0, 3);
    assert_eq!(negative.0, -3);
    let (positive, negative) = subtract_into::<False>(5, 2);
    assert_eq!(positive.0, 3i64);
    assert_eq!(negative.0, -3i64);
}

#[test]
fn switch_type_is_the_chosen_side() {
    let t: lib::Switch<True, u8, &str> = 7u8;
    let f: lib::Switch<False, u8, &str> = "seven";
    assert_eq!(t, 7);
    assert_eq!(f, "seven");
}

#[test]
fn condition_markers_read_the_condition() {
    let t = SwitchCell::<True, u8, u16>(1);
    let f = SwitchCell::<False, u8, u16>(2);
    assert!(condition_marker_value(switch_storage_condition_marker(&t)));
    assert!(!condition_marker_value(switch_storage_condition_marker(&f)));
    assert!(condition_marker_value(PhantomData::<True>));
    assert!(!condition_marker_value(PhantomData::<False>));
}

#[test]
fn side_conversions_round_trip() {
    let t: SwitchCell<True, u8, u16> = from_true(9);
    assert_eq!(t.0, 9);
    assert_eq!(into_true(t), 9);
    let f: SwitchUnion<False, u8, u16> = from_false(300);
    assert_eq!(into_false(f), 300);
    let u: SwitchUnion<True, u8, u16> = from_true(4);
    assert_eq!(into_true(u), 4);
}

#[test]
fn new_then_into_inner_gives_the_value_back() {
    let c = SwitchCell::<False, u8, u16>::new(500);
    assert_eq!(c.0, 500);
    assert_eq!(c.into_inner(), 500);
    let u = SwitchUnion::<True, u8, u16>::new(17);
    assert_eq!(u.into_inner(), 17);
    let u = SwitchUnion::<False, u8, u16>::new(18);
    assert_eq!(u.into_inner(), 18);
}

#[test]
fn branches_tag_the_side() {
    let u = SwitchUnion::<False, u8, u16>::new(18);
    assert!(matches!(u.as_branch(), Branch::OnFalse(&18)));
    assert!(matches!(u.into_branch(), Branch::OnFalse(18)));
    let c = SwitchCell::<True, u8, u16>(3);
    assert!(matches!(c.as_branch(), Branch::OnTrue(&3)));
    let pair: (SwitchCell<True, u8, u16>, SwitchUnion<True, i8, i16>) =
        SwitchBuild::from_branch(Branch::OnTrue((1, -1)));
    assert_eq!(pair.0 .0, 1);
    assert!(matches!(pair.into_branch(), Branch::OnTrue((1, -1))));
}

#[test]
fn cells_compare_their_values() {
    let a = SwitchCell::<True, u32, f32>(5);
    let b = SwitchCell::<True, u32, f32>(6);
    assert!(a == a);
    assert!(a != b);
    assert!(a < b);
    assert_eq!(a.partial_cmp(&b), Some(core::cmp::Ordering::Less));
    let x = SwitchCell::<False, u32, f32>(1.5);
    let y = SwitchCell::<False, u32, f32>(1.5);
    assert!(x == y);
    assert!(x >= y);
}

#[test]
fn unions_compare_their_values() {
    let a = SwitchUnion::<False, u32, i8>::new(-5);
    let b = SwitchUnion::<False, u32, i8>::new(7);
    assert!(a != b);
    assert!(a < b);
    let c = a;
    assert!(a == c);
    assert!(a.clone() == c);
}

#[test]
fn clone_and_default_stay_on_the_side() {
    let a = SwitchCell::<False, String, Vec<u8>>(vec![1, 2]);
    let b = a.clone();
    assert_eq!(b.0, vec![1, 2]);
    let d = SwitchCell::<True, u32, String>::default();
    assert_eq!(d.0, 0);
    let e = SwitchCell::<False, u32, String>::default();
    assert_eq!(e.0, "");
    let f = SwitchUnion::<True, u8, i8>::default();
    assert_eq!(f.into_inner(), 0);
    let g = SwitchUnion::<False, u8, i8>::default();
    assert!(matches!(g.as_branch(), Branch::OnFalse(&0)));
}

#[test]
fn union_is_copy_without_bounds_on_the_condition() {
    fn copy_twice<B: Bool>(u: SwitchUnion<B, u8, i8>) -> (SwitchUnion<B, u8, i8>, SwitchUnion<B, u8, i8>) {
        (u, u)
    }
    let (a, b) = copy_twice(SwitchUnion::<True, u8, i8>::new(2));
    assert!(a == b);
}

#[test]
fn borrowed_storages_read_in_place() {
    let a = SwitchCell::<True, u32, f32>(5);
    let l = into_true(&a);
    assert!(core::ptr::eq(l, &a.0));
    assert_eq!(*l, 5);
    let u = SwitchUnion::<False, u8, i8>::new(-4);
    assert_eq!(*into_false(&u), -4);
    assert!(condition_marker_value(switch_storage_condition_marker(&&a)));
}

#[test]
fn writes_through_mutable_borrows_reach_the_storage() {
    let mut b: SwitchCell<True, NonZeroU32, i16> = from_true(NonZeroU32::new(3).unwrap());
    let r = into_true_mut(&mut b);
    *r = r.saturating_add(1);
    assert_eq!(b.0.get(), 4);
    let mut c: SwitchCell<False, NonZeroU32, i16> = from_false(7i16);
    let r = into_false_mut(&mut c);
    *r = r.saturating_add(1);
    assert_eq!(c.0, 8);
    let mut u = SwitchUnion::<False, u8, i16>::new(7);
    let old = switch_match_mut(&mut u, |t: &mut u8| *t, |f: &mut i16| {
        let old = *f as u8;
        *f = 9;
        old
    });
    assert_eq!(old, 7);
    assert_eq!(u.into_inner(), 9);
    let mut v = SwitchUnion::<True, u8, i16>::new(1);
    if let Branch::OnTrue(t) = v.as_branch_mut() {
        *t = 2;
    }
    assert_eq!(into_true(v), 2);
}

fn hash_of<H: Hash>(value: &H) -> u64 {
    let mut hasher = DefaultHasher::new();
    value.hash(&mut hasher);
    hasher.finish()
}

#[test]
fn cells_order_and_hash_by_their_values() {
    let a = SwitchCell::<True, u32, u8>(5);
    let b = SwitchCell::<True, u32, u8>(6);
    assert_eq!(a.cmp(&b), core::cmp::Ordering::Less);
    assert_eq!(b.cmp(&a), core::cmp::Ordering::Greater);
    assert_eq!(a.cmp(&a), core::cmp::Ordering::Equal);
    assert_eq!(hash_of(&a), hash_of(&5u32));
    let x = SwitchCell::<False, u32, u8>(9);
    assert_eq!(hash_of(&x), hash_of(&9u8));
    assert_eq!(core::cmp::max(x, SwitchCell::<False, u32, u8>(3)).0, 9);
}

#[test]
fn unions_order_by_their_values() {
    let a = SwitchUnion::<False, u32, i8>::new(-5);
    let b = SwitchUnion::<False, u32, i8>::new(7);
    assert_eq!(a.cmp(&b), core::cmp::Ordering::Less);
    assert_eq!(b.cmp(&a), core::cmp::Ordering::Greater);
    assert_eq!(a.cmp(&a), core::cmp::Ordering::Equal);
}
