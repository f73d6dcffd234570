//! What holds across the operations of the library: double negation, and the
//! round trips between a storage and the value it holds.
use vstd::prelude::*;

use crate::bools::{Bool, BoolNot, Not};
use crate::bool_macro_help::{from_false, from_true, into_false, into_true};
use crate::switch::{BoolEither, Branch, Switch, SwitchBorrow, SwitchBuild, SwitchStorage};

verus! {

/// Negating twice gives back the same boolean: `Not<Not<P>>` has the value of `P`.
pub proof fn law_double_negation<P: BoolNot>() where P::Output: BoolNot
    ensures
        <Not<Not<P>> as Bool>::VALUE == P::VALUE,
{
    P::lemma_not();
    <P::Output as BoolNot>::lemma_not();
}

/// Storing a [`Switch`] value with `new` and taking it out again with
/// `into_inner` gives back the same value.
pub proof fn law_new_then_into_inner<S: SwitchBuild>(
    value: Switch<S::Condition, S::OnTrue, S::OnFalse>,
    storage: S,
    back: Switch<S::Condition, S::OnTrue, S::OnFalse>,
) where S::Condition: BoolEither<S::OnTrue, S::OnFalse>
    requires
        call_ensures(<S as SwitchBuild>::new, (value,), storage),
        call_ensures(<S as SwitchStorage>::into_inner, (storage,), back),
    ensures
        back == value,
{
    <S::Condition as BoolEither<S::OnTrue, S::OnFalse>>::lemma_branch_injective(back, value);
}

/// Taking the value out of a storage with `into_inner` and storing it again
/// with `new` gives a storage that holds the same thing.
pub proof fn law_into_inner_then_new<S: SwitchBuild>(
    storage: S,
    value: Switch<S::Condition, S::OnTrue, S::OnFalse>,
    again: S,
) where S::Condition: BoolEither<S::OnTrue, S::OnFalse>
    requires
        call_ensures(<S as SwitchStorage>::into_inner, (storage,), value),
        call_ensures(<S as SwitchBuild>::new, (value,), again),
    ensures
        again.branch() == storage.branch(),
{
}

/// A true value stored with `from_true` comes back unchanged from `into_true`.
pub proof fn law_true_round_trip<S: SwitchBuild>(value: S::OnTrue, storage: S, back: S::OnTrue)
    requires
        call_ensures(from_true::<S>, (value,), storage),
        call_ensures(into_true::<S>, (storage,), back),
    ensures
        back == value,
{
}

/// A false value stored with `from_false` comes back unchanged from
/// `into_false`.
pub proof fn law_false_round_trip<S: SwitchBuild>(value: S::OnFalse, storage: S, back: S::OnFalse)
    requires
        call_ensures(from_false::<S>, (value,), storage),
        call_ensures(into_false::<S>, (storage,), back),
    ensures
        back == value,
{
}

/// Borrowing a storage's value does not change it: what `into_true` returns
/// through a shared reference to a storage is the storage's true value.
pub proof fn law_borrowed_true_value<S: SwitchBorrow>(storage: &S, value: &S::OnTrue)
    requires
        call_ensures(into_true::<&S>, (storage,), value),
    ensures
        storage.branch() == Branch::<S::OnTrue, S::OnFalse>::OnTrue(*value),
{
}

/// Every storage holds a value of the side that its condition names: the true
/// value exactly when the condition is true.
pub proof fn law_storage_follows_condition<S: SwitchStorage>(storage: S)
    ensures
        (storage.branch() is OnTrue) == <S::Condition as Bool>::VALUE,
        (storage.branch() is OnFalse) == !<S::Condition as Bool>::VALUE,
{
    storage.lemma_condition();
}

} // verus!
