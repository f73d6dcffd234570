//! Standard traits for switch storages: each compares, clones or creates the
//! value on the side of the condition.
use vstd::prelude::*;

use vstd::std_specs::cmp::{PartialEqSpec, PartialOrdSpec};

use crate::bools::Bool;
use crate::switch::{BoolEither, Branch, SwitchBorrow, SwitchBuild, SwitchCell, SwitchStorage, SwitchUnion};

verus! {

impl<B: BoolEither<T, F>, T: PartialEq, F: PartialEq> PartialEq for SwitchCell<B, T, F> {
    fn eq(&self, other: &Self) -> (equal: bool)
        ensures
            match (self.branch(), other.branch()) {
                (Branch::OnTrue(a), Branch::OnTrue(b)) => call_ensures(T::eq, (&a, &b), equal),
                (Branch::OnFalse(a), Branch::OnFalse(b)) => call_ensures(F::eq, (&a, &b), equal),
                _ => false,
            },
    {
        proof {
            B::lemma_branch_side(self.0);
            B::lemma_branch_side(other.0);
        }
        match (B::branch_ref(&self.0), B::branch_ref(&other.0)) {
            (Branch::OnTrue(a), Branch::OnTrue(b)) => T::eq(a, b),
            (Branch::OnFalse(a), Branch::OnFalse(b)) => F::eq(a, b),
            (Branch::OnTrue(_), Branch::OnFalse(_)) => vstd::pervasive::unreached(),
            (Branch::OnFalse(_), Branch::OnTrue(_)) => vstd::pervasive::unreached(),
        }
    }
}

impl<B: BoolEither<T, F>, T: PartialEq, F: PartialEq> vstd::std_specs::cmp::PartialEqSpecImpl for SwitchCell<B, T, F> {
    open spec fn obeys_eq_spec() -> bool {
        T::obeys_eq_spec() && F::obeys_eq_spec()
    }

    open spec fn eq_spec(&self, other: &Self) -> bool {
        match (self.branch(), other.branch()) {
            (Branch::OnTrue(a), Branch::OnTrue(b)) => a.eq_spec(&b),
            (Branch::OnFalse(a), Branch::OnFalse(b)) => a.eq_spec(&b),
            _ => false,
        }
    }
}

impl<B: BoolEither<T, F>, T: Eq, F: Eq> Eq for SwitchCell<B, T, F> {}

impl<B: BoolEither<T, F>, T: PartialOrd, F: PartialOrd> PartialOrd for SwitchCell<B, T, F> {
    fn partial_cmp(&self, other: &Self) -> (order: Option<core::cmp::Ordering>)
        ensures
            match (self.branch(), other.branch()) {
                (Branch::OnTrue(a), Branch::OnTrue(b)) => call_ensures(T::partial_cmp, (&a, &b), order),
                (Branch::OnFalse(a), Branch::OnFalse(b)) => call_ensures(F::partial_cmp, (&a, &b), order),
                _ => false,
            },
    {
        proof {
            B::lemma_branch_side(self.0);
            B::lemma_branch_side(other.0);
        }
        match (B::branch_ref(&self.0), B::branch_ref(&other.0)) {
            (Branch::OnTrue(a), Branch::OnTrue(b)) => a.partial_cmp(b),
            (Branch::OnFalse(a), Branch::OnFalse(b)) => a.partial_cmp(b),
            (Branch::OnTrue(_), Branch::OnFalse(_)) => vstd::pervasive::unreached(),
            (Branch::OnFalse(_), Branch::OnTrue(_)) => vstd::pervasive::unreached(),
        }
    }
}

impl<B: BoolEither<T, F>, T: PartialOrd, F: PartialOrd> vstd::std_specs::cmp::PartialOrdSpecImpl for SwitchCell<B, T, F> {
    open spec fn obeys_partial_cmp_spec() -> bool {
        T::obeys_partial_cmp_spec() && F::obeys_partial_cmp_spec()
    }

    open spec fn partial_cmp_spec(&self, other: &Self) -> Option<core::cmp::Ordering> {
        match (self.branch(), other.branch()) {
            (Branch::OnTrue(a), Branch::OnTrue(b)) => a.partial_cmp_spec(&b),
            (Branch::OnFalse(a), Branch::OnFalse(b)) => a.partial_cmp_spec(&b),
            _ => None,
        }
    }
}

impl<B: BoolEither<T, F>, T: Clone, F: Clone> Clone for SwitchCell<B, T, F> {
    fn clone(&self) -> (copy: Self)
        ensures
            match (self.branch(), copy.branch()) {
                (Branch::OnTrue(a), Branch::OnTrue(b)) => cloned(a, b),
                (Branch::OnFalse(a), Branch::OnFalse(b)) => cloned(a, b),
                _ => false,
            },
    {
        proof {
            B::lemma_branch_side(self.0);
        }
        match self.as_branch() {
            Branch::OnTrue(t) => SwitchCell(B::from_branch(Branch::OnTrue(t.clone()))),
            Branch::OnFalse(f) => SwitchCell(B::from_branch(Branch::OnFalse(f.clone()))),
        }
    }
}

impl<B: BoolEither<T, F>, T: Copy, F: Copy> Copy for SwitchCell<B, T, F> where B::Either: Copy {

}

impl<B: BoolEither<T, F>, T: Default, F: Default> Default for SwitchCell<B, T, F> {
    fn default() -> (made: Self)
        ensures
            match made.branch() {
                Branch::OnTrue(t) => B::VALUE && call_ensures(T::default, (), t),
                Branch::OnFalse(f) => !B::VALUE && call_ensures(F::default, (), f),
            },
    {
        if B::VALUE {
            SwitchCell(B::from_branch(Branch::OnTrue(T::default())))
        } else {
            SwitchCell(B::from_branch(Branch::OnFalse(F::default())))
        }
    }
}

impl<B: Bool, T: PartialEq + Copy, F: PartialEq + Copy> PartialEq for SwitchUnion<B, T, F> {
    fn eq(&self, other: &Self) -> (equal: bool)
        ensures
            match (self.branch(), other.branch()) {
                (Branch::OnTrue(a), Branch::OnTrue(b)) => call_ensures(T::eq, (&a, &b), equal),
                (Branch::OnFalse(a), Branch::OnFalse(b)) => call_ensures(F::eq, (&a, &b), equal),
                _ => false,
            },
    {
        proof {
            self.lemma_condition();
            other.lemma_condition();
        }
        match (self.as_branch(), other.as_branch()) {
            (Branch::OnTrue(a), Branch::OnTrue(b)) => T::eq(a, b),
            (Branch::OnFalse(a), Branch::OnFalse(b)) => F::eq(a, b),
            (Branch::OnTrue(_), Branch::OnFalse(_)) => vstd::pervasive::unreached(),
            (Branch::OnFalse(_), Branch::OnTrue(_)) => vstd::pervasive::unreached(),
        }
    }
}

impl<B: Bool, T: PartialEq + Copy, F: PartialEq + Copy> vstd::std_specs::cmp::PartialEqSpecImpl for SwitchUnion<B, T, F> {
    open spec fn obeys_eq_spec() -> bool {
        T::obeys_eq_spec() && F::obeys_eq_spec()
    }

    open spec fn eq_spec(&self, other: &Self) -> bool {
        match (self.branch(), other.branch()) {
            (Branch::OnTrue(a), Branch::OnTrue(b)) => a.eq_spec(&b),
            (Branch::OnFalse(a), Branch::OnFalse(b)) => a.eq_spec(&b),
            _ => false,
        }
    }
}

impl<B: Bool, T: Eq + Copy, F: Eq + Copy> Eq for SwitchUnion<B, T, F> {}

impl<B: Bool, T: PartialOrd + Copy, F: PartialOrd + Copy> PartialOrd for SwitchUnion<B, T, F> {
    fn partial_cmp(&self, other: &Self) -> (order: Option<core::cmp::Ordering>)
        ensures
            match (self.branch(), other.branch()) {
                (Branch::OnTrue(a), Branch::OnTrue(b)) => call_ensures(T::partial_cmp, (&a, &b), order),
                (Branch::OnFalse(a), Branch::OnFalse(b)) => call_ensures(F::partial_cmp, (&a, &b), order),
                _ => false,
            },
    {
        proof {
            self.lemma_condition();
            other.lemma_condition();
        }
        match (self.as_branch(), other.as_branch()) {
            (Branch::OnTrue(a), Branch::OnTrue(b)) => a.partial_cmp(b),
            (Branch::OnFalse(a), Branch::OnFalse(b)) => a.partial_cmp(b),
            (Branch::OnTrue(_), Branch::OnFalse(_)) => vstd::pervasive::unreached(),
            (Branch::OnFalse(_), Branch::OnTrue(_)) => vstd::pervasive::unreached(),
        }
    }
}

impl<B: Bool, T: PartialOrd + Copy, F: PartialOrd + Copy> vstd::std_specs::cmp::PartialOrdSpecImpl for SwitchUnion<B, T, F> {
    open spec fn obeys_partial_cmp_spec() -> bool {
        T::obeys_partial_cmp_spec() && F::obeys_partial_cmp_spec()
    }

    open spec fn partial_cmp_spec(&self, other: &Self) -> Option<core::cmp::Ordering> {
        match (self.branch(), other.branch()) {
            (Branch::OnTrue(a), Branch::OnTrue(b)) => a.partial_cmp_spec(&b),
            (Branch::OnFalse(a), Branch::OnFalse(b)) => a.partial_cmp_spec(&b),
            _ => None,
        }
    }
}

impl<B: Bool, T: Default + Copy, F: Default + Copy> Default for SwitchUnion<B, T, F> {
    fn default() -> (made: Self)
        ensures
            match made.branch() {
                Branch::OnTrue(t) => B::VALUE && call_ensures(T::default, (), t),
                Branch::OnFalse(f) => !B::VALUE && call_ensures(F::default, (), f),
            },
    {
        if B::VALUE {
            Self::from_branch(Branch::OnTrue(T::default()))
        } else {
            Self::from_branch(Branch::OnFalse(F::default()))
        }
    }
}

} // verus!
