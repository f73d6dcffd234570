use vstd::prelude::*;

verus! {

/// Keeps the set of [`Bool`] types closed: only this crate can add one.
pub(crate) trait Sealed {}

/// Represents a boolean value as a type.
///
/// Only [`True`] and [`False`] implement it.
pub trait Bool:
    Sealed
    + Default
    + Clone
    + Copy
    + PartialEq
    + Eq
    + PartialOrd
    + Ord
    + core::hash::Hash
    + core::fmt::Debug
    + Send
    + Sync
    + 'static
{
    /// Either `true` or `false`.
    const VALUE: bool;
}

/// The only type that implements [`Bool`].
#[derive(Debug, Default, Clone, Copy, PartialEq, Eq, PartialOrd, Ord, Hash)]
pub struct Cond<const COND: bool>;

impl<const COND: bool> Sealed for Cond<COND> {}

/// The type for `true`.
pub type True = Cond<true>;

/// The type for `false`.
pub type False = Cond<false>;

impl Bool for True {
    const VALUE: bool = true;
}

impl Bool for False {
    const VALUE: bool = false;
}

/// [`True`] is true and [`False`] is false.
pub broadcast proof fn lemma_cond_values()
    ensures
        <True as Bool>::VALUE,
        !<False as Bool>::VALUE,
{
}

/// [`True`] is true and [`False`] is false, as a lemma to call directly.
pub proof fn lemma_true_false_values()
    ensures
        <True as Bool>::VALUE,
        !<False as Bool>::VALUE,
{
}

/// The values of [`True`] and [`False`], for `broadcast use` by callers that
/// name either type.
pub broadcast group group_cond_values {
    lemma_cond_values,
}

/// The opposite of a [`Bool`].
pub trait BoolNot: Bool {
    /// The opposite of this.
    type Output: Bool;

    /// The negation is `!Self::VALUE`.
    proof fn lemma_not()
        ensures
            <Self::Output as Bool>::VALUE == !Self::VALUE,
    ;
}

/// The "and" of a [`Bool`] with `Q`.
pub trait BoolAnd<Q: Bool>: Bool {
    /// The "and" of this with `Q`.
    type Output: Bool;

    /// The conjunction is `Self::VALUE && Q::VALUE`.
    proof fn lemma_and()
        ensures
            <Self::Output as Bool>::VALUE == (Self::VALUE && Q::VALUE),
    ;
}

/// The "or" of a [`Bool`] with `Q`.
pub trait BoolOr<Q: Bool>: Bool {
    /// The "or" of this with `Q`.
    type Output: Bool;

    /// The disjunction is `Self::VALUE || Q::VALUE`.
    proof fn lemma_or()
        ensures
            <Self::Output as Bool>::VALUE == (Self::VALUE || Q::VALUE),
    ;
}

/// The "xor" of a [`Bool`] with `Q`.
pub trait BoolXOr<Q: Bool>: Bool {
    /// The "xor" of this with `Q`.
    type Output: Bool;

    /// The exclusive or is `Self::VALUE != Q::VALUE`.
    proof fn lemma_xor()
        ensures
            <Self::Output as Bool>::VALUE == (Self::VALUE != Q::VALUE),
    ;
}

impl BoolNot for True {
    type Output = False;

    proof fn lemma_not() {
    }
}

impl BoolNot for False {
    type Output = True;

    proof fn lemma_not() {
    }
}

impl<Q: Bool> BoolAnd<Q> for True {
    type Output = Q;

    proof fn lemma_and() {
    }
}

impl<Q: Bool> BoolAnd<Q> for False {
    type Output = False;

    proof fn lemma_and() {
    }
}

impl<Q: Bool> BoolOr<Q> for True {
    type Output = True;

    proof fn lemma_or() {
    }
}

impl<Q: Bool> BoolOr<Q> for False {
    type Output = Q;

    proof fn lemma_or() {
    }
}

impl<Q: BoolNot> BoolXOr<Q> for True {
    type Output = <Q as BoolNot>::Output;

    proof fn lemma_xor() {
        Q::lemma_not();
    }
}

impl<Q: Bool> BoolXOr<Q> for False {
    type Output = Q;

    proof fn lemma_xor() {
    }
}

/// `P && Q`
pub type And<P, Q> = <P as BoolAnd<Q>>::Output;

/// `P || Q`
pub type Or<P, Q> = <P as BoolOr<Q>>::Output;

/// `P ^ Q`
pub type XOr<P, Q> = <P as BoolXOr<Q>>::Output;

/// `!P`
pub type Not<P> = <P as BoolNot>::Output;

/// This is equivalent to `T::VALUE` but is sometimes shorter to write.
pub fn bool_of<T: Bool>() -> (b: bool)
    ensures
        b == T::VALUE,
{
    T::VALUE
}

} // verus!
