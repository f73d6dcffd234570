use vstd::prelude::*;

use core::marker::PhantomData;

use crate::bools::{Bool, False, True};
use vstd::pervasive::unreached;

verus! {

broadcast use crate::bools::group_cond_values;

/// One of two values, tagged with the side it stands for: what a switch holds,
/// spelled out as an ordinary enum.
#[derive(Debug, PartialEq, Eq, PartialOrd, Ord, Hash)]
pub enum Branch<T, F> {
    /// The value held when the condition is true.
    OnTrue(T),
    /// The value held when the condition is false.
    OnFalse(F),
}

impl<T: Clone, F: Clone> Clone for Branch<T, F> {
    fn clone(&self) -> (copy: Self)
        ensures
            match (*self, copy) {
                (Branch::OnTrue(a), Branch::OnTrue(b)) => cloned(a, b),
                (Branch::OnFalse(a), Branch::OnFalse(b)) => cloned(a, b),
                _ => false,
            },
    {
        match self {
            Branch::OnTrue(t) => Branch::OnTrue(t.clone()),
            Branch::OnFalse(f) => Branch::OnFalse(f.clone()),
        }
    }
}

impl<T: Copy, F: Copy> Copy for Branch<T, F> {}

impl<T, F> Branch<T, F> {
    /// Borrows the value mutably, keeping its side: what is written through
    /// the result is the value afterwards.
    pub fn as_mut(&mut self) -> (branch: Branch<&mut T, &mut F>)
        ensures
            match branch {
                Branch::OnTrue(t) => {
                    &&& *old(self) == Branch::<T, F>::OnTrue(*t)
                    &&& *final(self) == Branch::<T, F>::OnTrue(*final(t))
                },
                Branch::OnFalse(f) => {
                    &&& *old(self) == Branch::<T, F>::OnFalse(*f)
                    &&& *final(self) == Branch::<T, F>::OnFalse(*final(f))
                },
            },
        no_unwind
    {
        match self {
            Branch::OnTrue(t) => Branch::OnTrue(t),
            Branch::OnFalse(f) => Branch::OnFalse(f),
        }
    }
}

/// Chooses between `T` and `F` by a [`Bool`]: `Either` is `T` for [`True`]
/// and `F` for [`False`].
pub trait BoolEither<T, F>: Bool {
    /// This is `T` when true and `F` when false.
    type Either;

    /// What a value of `Either` stands for.
    spec fn branch_of(value: Self::Either) -> Branch<T, F>;

    /// A value of `Either` is on the true side exactly when `Self` is true.
    proof fn lemma_branch_side(value: Self::Either)
        ensures
            (Self::branch_of(value) is OnTrue) == Self::VALUE,
    ;

    /// Two values of `Either` that stand for the same thing are the same.
    proof fn lemma_branch_injective(a: Self::Either, b: Self::Either)
        ensures
            Self::branch_of(a) == Self::branch_of(b) ==> a == b,
    ;

    /// Tags a value of `Either` with its side.
    fn into_branch(value: Self::Either) -> (branch: Branch<T, F>)
        ensures
            branch == Self::branch_of(value),
    ;

    /// Tags a borrowed value of `Either` with its side.
    fn branch_ref(value: &Self::Either) -> (branch: Branch<&T, &F>)
        ensures
            match branch {
                Branch::OnTrue(t) => Self::branch_of(*value) == Branch::<T, F>::OnTrue(*t),
                Branch::OnFalse(f) => Self::branch_of(*value) == Branch::<T, F>::OnFalse(*f),
            },
    ;

    /// Tags a mutably borrowed value of `Either` with its side; what is written
    /// through the tagged reference is what the value holds afterwards.
    fn branch_mut(value: &mut Self::Either) -> (branch: Branch<&mut T, &mut F>)
        ensures
            match branch {
                Branch::OnTrue(t) => {
                    &&& Self::branch_of(*old(value)) == Branch::<T, F>::OnTrue(*t)
                    &&& Self::branch_of(*final(value)) == Branch::<T, F>::OnTrue(*final(t))
                },
                Branch::OnFalse(f) => {
                    &&& Self::branch_of(*old(value)) == Branch::<T, F>::OnFalse(*f)
                    &&& Self::branch_of(*final(value)) == Branch::<T, F>::OnFalse(*final(f))
                },
            },
    ;

    /// Untags a branch on the side of `Self`.
    fn from_branch(branch: Branch<T, F>) -> (value: Self::Either)
        requires
            (branch is OnTrue) == Self::VALUE,
        ensures
            Self::branch_of(value) == branch,
    ;
}

impl<T, F> BoolEither<T, F> for True {
    type Either = T;

    open spec fn branch_of(value: T) -> Branch<T, F> {
        Branch::OnTrue(value)
    }

    proof fn lemma_branch_side(value: T) {
    }

    proof fn lemma_branch_injective(a: T, b: T) {
    }

    fn into_branch(value: T) -> (branch: Branch<T, F>) {
        Branch::OnTrue(value)
    }

    fn branch_ref(value: &T) -> (branch: Branch<&T, &F>) {
        Branch::OnTrue(value)
    }

    fn branch_mut(value: &mut T) -> (branch: Branch<&mut T, &mut F>) {
        Branch::OnTrue(value)
    }

    fn from_branch(branch: Branch<T, F>) -> (value: T) {
        match branch {
            Branch::OnTrue(t) => t,
            Branch::OnFalse(_) => unreached(),
        }
    }
}

impl<T, F> BoolEither<T, F> for False {
    type Either = F;

    open spec fn branch_of(value: F) -> Branch<T, F> {
        Branch::OnFalse(value)
    }

    proof fn lemma_branch_side(value: F) {
    }

    proof fn lemma_branch_injective(a: F, b: F) {
    }

    fn into_branch(value: F) -> (branch: Branch<T, F>) {
        Branch::OnFalse(value)
    }

    fn branch_ref(value: &F) -> (branch: Branch<&T, &F>) {
        Branch::OnFalse(value)
    }

    fn branch_mut(value: &mut F) -> (branch: Branch<&mut T, &mut F>) {
        Branch::OnFalse(value)
    }

    fn from_branch(branch: Branch<T, F>) -> (value: F) {
        match branch {
            Branch::OnTrue(_) => unreached(),
            Branch::OnFalse(f) => f,
        }
    }
}

/// This type is `T` when `B` is [`True`] and `F` when `B` is [`False`].
pub type Switch<B, T, F> = <B as BoolEither<T, F>>::Either;

/// A way to store a [`Switch`] while also tracking the switch condition.
///
/// Implemented by [`SwitchCell`], [`SwitchUnion`], shared references to a
/// [`SwitchBorrow`] storage (with the referent's condition), and pairs of
/// storages with one condition.
///
/// Two kinds of reference are left out. A shared reference is a storage only
/// for what implements [`SwitchBorrow`], that is cells and unions, not pairs or
/// references. A mutable reference is not a storage at all: what such a
/// storage holds would be a mutable reference, which no spec function can make.
/// Mutable access to a stored value goes through [`SwitchBorrow::as_branch_mut`],
/// `into_true_mut`, `into_false_mut` and `switch_match_mut` instead.
pub trait SwitchStorage: Sized {
    /// The type this stores when true.
    type OnTrue;
    /// The type this stores when false.
    type OnFalse;
    /// Whether this is true or false.
    type Condition: Bool;

    /// What this storage holds.
    spec fn branch(&self) -> Branch<Self::OnTrue, Self::OnFalse>;

    /// A storage holds its true value exactly when its condition is true.
    proof fn lemma_condition(&self)
        ensures
            (self.branch() is OnTrue) == <Self::Condition as Bool>::VALUE,
    ;

    /// Takes out what this storage holds.
    fn into_branch(self) -> (branch: Branch<Self::OnTrue, Self::OnFalse>)
        ensures
            branch == self.branch(),
    ;

    /// Gets the inner [`Switch`] value.
    fn into_inner(self) -> (value: Switch<Self::Condition, Self::OnTrue, Self::OnFalse>) where
        Self::Condition: BoolEither<Self::OnTrue, Self::OnFalse>,
        ensures
            <Self::Condition as BoolEither<Self::OnTrue, Self::OnFalse>>::branch_of(value) == self.branch(),
    {
        proof {
            self.lemma_condition();
        }
        let branch = self.into_branch();
        <Self::Condition as BoolEither<Self::OnTrue, Self::OnFalse>>::from_branch(branch)
    }
}

/// A [`SwitchStorage`] that can be made from the value it is to hold: every
/// storage but a reference to one.
///
/// A reference storage cannot be made from a reference to the value it is to
/// hold, since that value does not sit inside a storage: only a
/// reinterpretation of the reference, which safe code cannot write, would do.
/// So `new`, `from_true` and `from_false` do not take reference storages, and
/// their round trips with `into_inner`, `into_true` and `into_false` are stated
/// for the storages that implement this trait.
pub trait SwitchBuild: SwitchStorage {
    /// Stores a branch on the side of the condition.
    fn from_branch(branch: Branch<Self::OnTrue, Self::OnFalse>) -> (storage: Self)
        requires
            (branch is OnTrue) == <Self::Condition as Bool>::VALUE,
        ensures
            storage.branch() == branch,
    ;

    /// Creates a new value of this [`Switch`].
    fn new(value: Switch<Self::Condition, Self::OnTrue, Self::OnFalse>) -> (storage: Self) where
        Self::Condition: BoolEither<Self::OnTrue, Self::OnFalse>,
        ensures
            storage.branch() == <Self::Condition as BoolEither<Self::OnTrue, Self::OnFalse>>::branch_of(value),
    {
        proof {
            <Self::Condition as BoolEither<Self::OnTrue, Self::OnFalse>>::lemma_branch_side(value);
        }
        let branch = <Self::Condition as BoolEither<Self::OnTrue, Self::OnFalse>>::into_branch(value);
        Self::from_branch(branch)
    }
}

/// A [`SwitchStorage`] whose value can be borrowed in place, shared or
/// mutably.
pub trait SwitchBorrow: SwitchStorage {
    /// Borrows the value held, tagged with its side.
    fn as_branch(&self) -> (branch: Branch<&Self::OnTrue, &Self::OnFalse>)
        ensures
            match branch {
                Branch::OnTrue(t) => self.branch() == Branch::<Self::OnTrue, Self::OnFalse>::OnTrue(*t),
                Branch::OnFalse(f) => self.branch() == Branch::<Self::OnTrue, Self::OnFalse>::OnFalse(*f),
            },
    ;

    /// Borrows the value held mutably, tagged with its side: what is written
    /// through the tagged reference is what the storage holds afterwards.
    fn as_branch_mut(&mut self) -> (branch: Branch<&mut Self::OnTrue, &mut Self::OnFalse>)
        ensures
            match branch {
                Branch::OnTrue(t) => {
                    &&& old(self).branch() == Branch::<Self::OnTrue, Self::OnFalse>::OnTrue(*t)
                    &&& final(self).branch() == Branch::<Self::OnTrue, Self::OnFalse>::OnTrue(*final(t))
                },
                Branch::OnFalse(f) => {
                    &&& old(self).branch() == Branch::<Self::OnTrue, Self::OnFalse>::OnFalse(*f)
                    &&& final(self).branch() == Branch::<Self::OnTrue, Self::OnFalse>::OnFalse(*final(f))
                },
            },
    ;
}

/// This [`SwitchStorage`] stores [`Switch`] directly and transparently.
#[derive(Ord, Hash)]
pub struct SwitchCell<B: BoolEither<T, F>, T, F = ()>(pub B::Either);

impl<B: BoolEither<T, F>, T, F> SwitchStorage for SwitchCell<B, T, F> {
    type OnTrue = T;
    type OnFalse = F;
    type Condition = B;

    open spec fn branch(&self) -> Branch<T, F> {
        B::branch_of(self.0)
    }

    proof fn lemma_condition(&self) {
        B::lemma_branch_side(self.0);
    }

    fn into_branch(self) -> (branch: Branch<T, F>) {
        B::into_branch(self.0)
    }
}

impl<B: BoolEither<T, F>, T, F> SwitchBuild for SwitchCell<B, T, F> {
    fn from_branch(branch: Branch<T, F>) -> (storage: Self) {
        SwitchCell(B::from_branch(branch))
    }
}

impl<B: BoolEither<T, F>, T, F> SwitchBorrow for SwitchCell<B, T, F> {
    fn as_branch(&self) -> (branch: Branch<&T, &F>) {
        B::branch_ref(&self.0)
    }

    fn as_branch_mut(&mut self) -> (branch: Branch<&mut T, &mut F>) {
        B::branch_mut(&mut self.0)
    }
}

/// This [`SwitchStorage`] keeps `T` or `F` beside a marker of its condition.
///
/// Unlike [`SwitchCell`], it is [`Copy`] whenever `T` and `F` are, with no
/// bound on the condition beyond [`Bool`].
#[derive(Ord)]
pub struct SwitchUnion<B: Bool, T: Copy, F: Copy = ()> {
    marker: PhantomData<B>,
    value: Branch<T, F>,
}

impl<B: Bool, T: Copy, F: Copy> SwitchUnion<B, T, F> {
    /// The held value is on the side of the condition.
    #[verifier::type_invariant]
    spec fn on_condition_side(self) -> bool {
        (self.value is OnTrue) == B::VALUE
    }
}

impl<B: Bool, T: Copy, F: Copy> Clone for SwitchUnion<B, T, F> {
    fn clone(&self) -> (copy: Self)
        ensures
            copy == *self,
    {
        *self
    }
}

impl<B: Bool, T: Copy, F: Copy> Copy for SwitchUnion<B, T, F> {}

impl<B: Bool, T: Copy, F: Copy> SwitchStorage for SwitchUnion<B, T, F> {
    type OnTrue = T;
    type OnFalse = F;
    type Condition = B;

    closed spec fn branch(&self) -> Branch<T, F> {
        if B::VALUE {
            Branch::OnTrue(self.value->OnTrue_0)
        } else {
            Branch::OnFalse(self.value->OnFalse_0)
        }
    }

    proof fn lemma_condition(&self) {
    }

    fn into_branch(self) -> (branch: Branch<T, F>) {
        proof {
            use_type_invariant(&self);
        }
        self.value
    }
}

impl<B: Bool, T: Copy, F: Copy> SwitchBuild for SwitchUnion<B, T, F> {
    fn from_branch(branch: Branch<T, F>) -> (storage: Self) {
        SwitchUnion { marker: PhantomData, value: branch }
    }
}

impl<B: Bool, T: Copy, F: Copy> SwitchBorrow for SwitchUnion<B, T, F> {
    fn as_branch(&self) -> (branch: Branch<&T, &F>) {
        proof {
            use_type_invariant(self);
        }
        match &self.value {
            Branch::OnTrue(t) => Branch::OnTrue(t),
            Branch::OnFalse(f) => Branch::OnFalse(f),
        }
    }

    fn as_branch_mut(&mut self) -> (branch: Branch<&mut T, &mut F>) {
        proof {
            use_type_invariant(&*self);
        }
        self.value.as_mut()
    }
}

/// A shared reference to a storage is a storage of shared references, with the
/// referent's condition.
impl<'a, S: SwitchBorrow> SwitchStorage for &'a S {
    type OnTrue = &'a S::OnTrue;
    type OnFalse = &'a S::OnFalse;
    type Condition = S::Condition;

    open spec fn branch(&self) -> Branch<&'a S::OnTrue, &'a S::OnFalse> {
        match (**self).branch() {
            Branch::OnTrue(t) => Branch::OnTrue(&t),
            Branch::OnFalse(f) => Branch::OnFalse(&f),
        }
    }

    proof fn lemma_condition(&self) {
        (**self).lemma_condition();
    }

    fn into_branch(self) -> (branch: Branch<&'a S::OnTrue, &'a S::OnFalse>) {
        self.as_branch()
    }
}

/// Two storages with the same condition, stored together: the pair holds both
/// true values or both false values.
impl<S1: SwitchStorage, S2: SwitchStorage<Condition = S1::Condition>> SwitchStorage for (S1, S2) {
    type OnTrue = (S1::OnTrue, S2::OnTrue);
    type OnFalse = (S1::OnFalse, S2::OnFalse);
    type Condition = S1::Condition;

    open spec fn branch(&self) -> Branch<Self::OnTrue, Self::OnFalse> {
        if <S1::Condition as Bool>::VALUE {
            Branch::OnTrue((self.0.branch()->OnTrue_0, self.1.branch()->OnTrue_0))
        } else {
            Branch::OnFalse((self.0.branch()->OnFalse_0, self.1.branch()->OnFalse_0))
        }
    }

    proof fn lemma_condition(&self) {
    }

    fn into_branch(self) -> (branch: Branch<Self::OnTrue, Self::OnFalse>) {
        proof {
            self.0.lemma_condition();
            self.1.lemma_condition();
        }
        let (s1, s2) = self;
        match (s1.into_branch(), s2.into_branch()) {
            (Branch::OnTrue(a), Branch::OnTrue(b)) => Branch::OnTrue((a, b)),
            (Branch::OnFalse(a), Branch::OnFalse(b)) => Branch::OnFalse((a, b)),
            (Branch::OnTrue(_), Branch::OnFalse(_)) => unreached(),
            (Branch::OnFalse(_), Branch::OnTrue(_)) => unreached(),
        }
    }
}

impl<
    S1: SwitchBuild,
    S2: SwitchBuild<Condition = S1::Condition>,
> SwitchBuild for (S1, S2) {
    fn from_branch(branch: Branch<Self::OnTrue, Self::OnFalse>) -> (storage: Self) {
        match branch {
            Branch::OnTrue((a, b)) => (
                S1::from_branch(Branch::OnTrue(a)),
                S2::from_branch(Branch::OnTrue(b)),
            ),
            Branch::OnFalse((a, b)) => (
                S1::from_branch(Branch::OnFalse(a)),
                S2::from_branch(Branch::OnFalse(b)),
            ),
        }
    }
}

} // verus!
