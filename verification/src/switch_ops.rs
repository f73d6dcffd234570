//! Matching on, mapping and creating switch storages without knowing their
//! condition: each takes one closure per side and runs only the one that the
//! condition picks.
use vstd::prelude::*;

use crate::bool_macro_help::{
    condition_marker_value, from_false, from_true, into_false, into_false_mut, into_true, into_true_mut,
    switch_storage_condition_marker,
};
use crate::bools::Bool;
use crate::switch::{Branch, SwitchBorrow, SwitchBuild, SwitchStorage};

verus! {

/// Does a `match` on a [`SwitchStorage`]: runs `on_true` on the true value when
/// the condition is true, and `on_false` on the false value otherwise.
///
/// Several storages with the same condition can be matched together as a tuple.
pub fn switch_match<S, R, FT, FF>(storage: S, on_true: FT, on_false: FF) -> (result: R) where
    S: SwitchStorage,
    FT: FnOnce(S::OnTrue) -> R,
    FF: FnOnce(S::OnFalse) -> R,
    requires
        match storage.branch() {
            Branch::OnTrue(t) => on_true.requires((t,)),
            Branch::OnFalse(f) => on_false.requires((f,)),
        },
    ensures
        match storage.branch() {
            Branch::OnTrue(t) => on_true.ensures((t,), result),
            Branch::OnFalse(f) => on_false.ensures((f,), result),
        },
{
    proof {
        storage.lemma_condition();
    }
    let condition = condition_marker_value(switch_storage_condition_marker(&storage));
    if condition {
        let value = into_true(storage);
        on_true(value)
    } else {
        let value = into_false(storage);
        on_false(value)
    }
}

/// Maps a [`SwitchStorage`] into another one with the same condition: the true
/// value through `on_true` when the condition is true, the false value through
/// `on_false` otherwise.
pub fn switch_map<S, O, FT, FF>(storage: S, on_true: FT, on_false: FF) -> (output: O) where
    S: SwitchStorage,
    O: SwitchBuild<Condition = S::Condition>,
    FT: FnOnce(S::OnTrue) -> O::OnTrue,
    FF: FnOnce(S::OnFalse) -> O::OnFalse,
    requires
        match storage.branch() {
            Branch::OnTrue(t) => on_true.requires((t,)),
            Branch::OnFalse(f) => on_false.requires((f,)),
        },
    ensures
        match storage.branch() {
            Branch::OnTrue(t) => output.branch() matches Branch::OnTrue(o) && on_true.ensures(
                (t,),
                o,
            ),
            Branch::OnFalse(f) => output.branch() matches Branch::OnFalse(o) && on_false.ensures(
                (f,),
                o,
            ),
        },
{
    proof {
        storage.lemma_condition();
    }
    let condition = condition_marker_value(switch_storage_condition_marker(&storage));
    if condition {
        let value = into_true(storage);
        let mapped = on_true(value);
        from_true(mapped)
    } else {
        let value = into_false(storage);
        let mapped = on_false(value);
        from_false(mapped)
    }
}

/// Creates a [`SwitchStorage`] from the closure for its condition: `on_true`
/// when the condition is true, `on_false` otherwise.
pub fn switch_new<O, FT, FF>(on_true: FT, on_false: FF) -> (output: O) where
    O: SwitchBuild,
    FT: FnOnce() -> O::OnTrue,
    FF: FnOnce() -> O::OnFalse,
    requires
        <O::Condition as Bool>::VALUE ==> on_true.requires(()),
        !<O::Condition as Bool>::VALUE ==> on_false.requires(()),
    ensures
        <O::Condition as Bool>::VALUE ==> (output.branch() matches Branch::OnTrue(o)
            && on_true.ensures((), o)),
        !<O::Condition as Bool>::VALUE ==> (output.branch() matches Branch::OnFalse(o)
            && on_false.ensures((), o)),
{
    let condition = condition_marker_value(core::marker::PhantomData::<O::Condition>);
    if condition {
        let made = on_true();
        from_true(made)
    } else {
        let made = on_false();
        from_false(made)
    }
}

/// Does a `match` on a mutably borrowed [`SwitchBorrow`]: runs `on_true` on a
/// mutable borrow of the true value when the condition is true, and `on_false`
/// on one of the false value otherwise. What the closure writes stays in the
/// storage.
pub fn switch_match_mut<S, R, FT, FF>(storage: &mut S, on_true: FT, on_false: FF) -> (result: R) where
    S: SwitchBorrow,
    FT: FnOnce(&mut S::OnTrue) -> R,
    FF: FnOnce(&mut S::OnFalse) -> R,
    requires
        match old(storage).branch() {
            Branch::OnTrue(t) => forall|r: &mut S::OnTrue| *r == t ==> #[trigger] on_true.requires((r,)),
            Branch::OnFalse(f) => forall|r: &mut S::OnFalse| *r == f ==> #[trigger] on_false.requires((r,)),
        },
    ensures
        match old(storage).branch() {
            Branch::OnTrue(t) => exists|r: &mut S::OnTrue| {
                &&& *r == t
                &&& #[trigger] on_true.ensures((r,), result)
                &&& final(storage).branch() == Branch::<S::OnTrue, S::OnFalse>::OnTrue(*final(r))
            },
            Branch::OnFalse(f) => exists|r: &mut S::OnFalse| {
                &&& *r == f
                &&& #[trigger] on_false.ensures((r,), result)
                &&& final(storage).branch() == Branch::<S::OnTrue, S::OnFalse>::OnFalse(*final(r))
            },
        },
{
    proof {
        old(storage).lemma_condition();
    }
    let condition = condition_marker_value(switch_storage_condition_marker(&*storage));
    if condition {
        let value = into_true_mut(storage);
        on_true(value)
    } else {
        let value = into_false_mut(storage);
        on_false(value)
    }
}

} // verus!
