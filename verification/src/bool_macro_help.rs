//! The steps that a switch match takes: read the condition of the storages,
//! then take out the value on that side, and store the results on the same side.
use vstd::prelude::*;

use core::marker::PhantomData;

use crate::bools::Bool;
use crate::switch::{Branch, SwitchBorrow, SwitchBuild, SwitchStorage};

verus! {

/// The boolean value of the condition that `_condition` marks.
pub fn condition_marker_value<T: Bool>(_condition: PhantomData<T>) -> (value: bool)
    ensures
        value == T::VALUE,
{
    T::VALUE
}

/// A marker of the condition of `_storage`. A shared reference to a cell or a
/// union is a storage with the referent's condition; a mutable reference is
/// not a storage (see [`SwitchStorage`]), so its condition is read through the
/// storage it points to.
pub fn switch_storage_condition_marker<T: SwitchStorage>(_storage: &T) -> (marker: PhantomData<
    T::Condition,
>)
    ensures
        marker == PhantomData::<T::Condition>,
{
    PhantomData
}

/// Takes the true value out of a storage whose condition is true.
pub fn into_true<T: SwitchStorage>(storage: T) -> (value: T::OnTrue)
    requires
        <T::Condition as Bool>::VALUE,
    ensures
        storage.branch() == Branch::<T::OnTrue, T::OnFalse>::OnTrue(value),
{
    proof {
        storage.lemma_condition();
    }
    match storage.into_branch() {
        Branch::OnTrue(value) => value,
        Branch::OnFalse(_) => vstd::pervasive::unreached(),
    }
}

/// Stores a true value in a storage whose condition is true.
///
/// Reference storages cannot be made this way: see [`SwitchBuild`].
pub fn from_true<T: SwitchBuild>(value: T::OnTrue) -> (storage: T)
    requires
        <T::Condition as Bool>::VALUE,
    ensures
        storage.branch() == Branch::<T::OnTrue, T::OnFalse>::OnTrue(value),
{
    T::from_branch(Branch::OnTrue(value))
}

/// Takes the false value out of a storage whose condition is false.
pub fn into_false<T: SwitchStorage>(storage: T) -> (value: T::OnFalse)
    requires
        !<T::Condition as Bool>::VALUE,
    ensures
        storage.branch() == Branch::<T::OnTrue, T::OnFalse>::OnFalse(value),
{
    proof {
        storage.lemma_condition();
    }
    match storage.into_branch() {
        Branch::OnTrue(_) => vstd::pervasive::unreached(),
        Branch::OnFalse(value) => value,
    }
}

/// Stores a false value in a storage whose condition is false.
///
/// Reference storages cannot be made this way: see [`SwitchBuild`].
pub fn from_false<T: SwitchBuild>(value: T::OnFalse) -> (storage: T)
    requires
        !<T::Condition as Bool>::VALUE,
    ensures
        storage.branch() == Branch::<T::OnTrue, T::OnFalse>::OnFalse(value),
{
    T::from_branch(Branch::OnFalse(value))
}

/// Borrows the true value of a storage whose condition is true, mutably: what
/// is written through the result is the storage's true value afterwards.
pub fn into_true_mut<T: SwitchBorrow>(storage: &mut T) -> (value: &mut T::OnTrue)
    requires
        <T::Condition as Bool>::VALUE,
    ensures
        old(storage).branch() == Branch::<T::OnTrue, T::OnFalse>::OnTrue(*value),
        final(storage).branch() == Branch::<T::OnTrue, T::OnFalse>::OnTrue(*final(value)),
{
    proof {
        old(storage).lemma_condition();
    }
    match storage.as_branch_mut() {
        Branch::OnTrue(value) => value,
        Branch::OnFalse(_) => vstd::pervasive::unreached(),
    }
}

/// Borrows the false value of a storage whose condition is false, mutably:
/// what is written through the result is the storage's false value afterwards.
pub fn into_false_mut<T: SwitchBorrow>(storage: &mut T) -> (value: &mut T::OnFalse)
    requires
        !<T::Condition as Bool>::VALUE,
    ensures
        old(storage).branch() == Branch::<T::OnTrue, T::OnFalse>::OnFalse(*value),
        final(storage).branch() == Branch::<T::OnTrue, T::OnFalse>::OnFalse(*final(value)),
{
    proof {
        old(storage).lemma_condition();
    }
    match storage.as_branch_mut() {
        Branch::OnTrue(_) => vstd::pervasive::unreached(),
        Branch::OnFalse(value) => value,
    }
}

} // verus!
