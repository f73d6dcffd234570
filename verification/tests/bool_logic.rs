use lib::{bool_of, And, Bool, Cond, False, Not, Or, True, XOr};

/// Compiles only when the value has type `T`.
fn is_type<T>(_value: T) {}

#[test]
fn true_expressions_are_true() {
    is_type::<True>(Or::<True, True>::default());
    is_type::<True>(Or::<False, True>::default());
    is_type::<True>(Or::<True, False>::default());
    is_type::<True>(And::<True, True>::default());
    is_type::<True>(XOr::<False, True>::default());
    is_type::<True>(XOr::<True, False>::default());
    // `all!(True, True)`, `all!(True)` and `all!()`
    is_type::<True>(And::<True, True>::default());
    is_type::<True>(True::default());
    // `any!(False, True)`
    is_type::<True>(Or::<False, True>::default());
    is_type::<True>(Not::<False>::default());
    is_type::<True>(Not::<Not<True>>::default());
}

#[test]
fn false_expressions_are_false() {
    is_type::<False>(Or::<False, False>::default());
    is_type::<False>(And::<False, True>::default());
    is_type::<False>(And::<True, False>::default());
    is_type::<False>(XOr::<False, False>::default());
    is_type::<False>(XOr::<True, True>::default());
    // `all!(False, True)`, `all!(False)` and `any!()`
    is_type::<False>(And::<False, True>::default());
    is_type::<False>(False::default());
    is_type::<False>(Not::<True>::default());
    is_type::<False>(Not::<Not<False>>::default());
}

#[test]
fn all_of_three_is_and_folded_right() {
    // `all!(False, True, False,)` and `any!(False, True, False,)`
    let _all: And<False, And<True, False>> = False::default();
    let _any: Or<False, Or<True, False>> = True::default();
}

#[test]
fn values_follow_truth_tables() {
    assert!(<True as Bool>::VALUE);
    assert!(!<False as Bool>::VALUE);
    assert!(bool_of::<True>());
    assert!(!bool_of::<False>());
    assert_eq!(bool_of::<And<True, True>>(), true);
    assert_eq!(bool_of::<And<True, False>>(), false);
    assert_eq!(bool_of::<And<False, True>>(), false);
    assert_eq!(bool_of::<And<False, False>>(), false);
    assert_eq!(bool_of::<Or<True, True>>(), true);
    assert_eq!(bool_of::<Or<True, False>>(), true);
    assert_eq!(bool_of::<Or<False, True>>(), true);
    assert_eq!(bool_of::<Or<False, False>>(), false);
    assert_eq!(bool_of::<XOr<True, True>>(), false);
    assert_eq!(bool_of::<XOr<True, False>>(), true);
    assert_eq!(bool_of::<XOr<False, True>>(), true);
    assert_eq!(bool_of::<XOr<False, False>>(), false);
    assert_eq!(bool_of::<Not<True>>(), false);
    assert_eq!(bool_of::<Not<False>>(), true);
}

#[test]
fn double_negation_keeps_the_value() {
    assert_eq!(bool_of::<Not<Not<True>>>(), bool_of::<True>());
    assert_eq!(bool_of::<Not<Not<False>>>(), bool_of::<False>());
}

#[test]
fn cond_is_a_plain_marker() {
    assert_eq!(Cond::<true>, True::default());
    assert!(!(False::default() < False::default()));
    assert_eq!(format!("{:?}", True::default()), "Cond");
    assert_eq!(core::mem::size_of::<True>(), 0);
}
