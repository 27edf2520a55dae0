//! Predicate-based query filtering for an entity/component store.
//!
//! The crate is organised around three layers:
//!
//! * a projection / predicate model ([`Checkable`], [`Predicate`], [`Not`],
//!   [`Is`], [`Compose`]) that describes, for a component value, which
//!   sub-value is inspected and which boolean test is applied to it;
//! * a fetch engine ([`impls::CheckState`], [`impls::CheckFetch`]) that walks
//!   the store's physical storage — dense columns or a sparse set — and
//!   evaluates the predicate per entity;
//! * access bookkeeping ([`access`]) that registers the filter's shared read
//!   with the host store's conflict-tracking structures.

use vstd::prelude::*;

pub mod access;
pub mod impls;
pub mod projection;
pub mod registry;
pub mod storage;

verus! {

use core::marker::PhantomData;

/// A stateless boolean test over values of type `T`.
///
/// `spec_test` is the mathematical meaning of the predicate; the executable
/// `test` must return exactly that value. Implementations must therefore be
/// referentially transparent: the result depends on the tested value alone.
pub trait Predicate<T> {
    /// The value of the predicate on `t`.
    spec fn spec_test(t: T) -> bool;

    /// Checks if the given value is acceptable.
    fn test(t: &T) -> (r: bool)
        ensures
            r == Self::spec_test(*t),
    ;
}

/// Filter descriptor: selects entities holding a component `T` whose current
/// value satisfies the predicate `Pred`.
///
/// The descriptor is a zero-sized marker; all runtime state lives in the
/// fetch machinery of [`crate::impls`], instantiated per query execution.
pub struct Check<T, Pred: Predicate<T>>(PhantomData<T>, PhantomData<Pred>);

/// A [`Predicate`] that returns the negation of the given predicate.
///
/// Use [`CheckNot`] when you need negation.
pub struct Not<T, P: Predicate<T>>(PhantomData<T>, PhantomData<P>);

impl<T, P: Predicate<T>> Predicate<T> for Not<T, P> {
    open spec fn spec_test(t: T) -> bool {
        !P::spec_test(t)
    }

    fn test(t: &T) -> (r: bool) {
        !P::test(t)
    }
}

/// A [`Predicate`] over `bool` that holds exactly when the tested value
/// equals `VALUE`.
pub struct Is<const VALUE: bool>;

impl<const VALUE: bool> Predicate<bool> for Is<VALUE> {
    open spec fn spec_test(t: bool) -> bool {
        t == VALUE
    }

    fn test(t: &bool) -> (r: bool) {
        *t == VALUE
    }
}

/// The negation of [`Check`].
pub type CheckNot<T, P> = Check<T, Not<T, P>>;

/// Query filter admitting entities whose boolean component is `true`.
pub type IsTrue = Check<bool, Is<true>>;

/// Query filter admitting entities whose boolean component is `false`.
pub type IsFalse = Check<bool, Is<false>>;

/// Double negation leaves every predicate's meaning unchanged: wrapping a
/// predicate `P` in [`Not`] twice yields a (distinct) type that tests exactly
/// as `P` does, on every input.
pub proof fn lemma_not_involution<T, P: Predicate<T>>(x: T)
    ensures
        Not::<T, Not<T, P>>::spec_test(x) == P::spec_test(x),
{
}

/// [`Is`] with the two constants partitions `bool`: on every input the two
/// predicates return complementary results.
pub proof fn lemma_is_complement(x: bool)
    ensures
        Is::<true>::spec_test(x) == !Is::<false>::spec_test(x),
{
}

} // verus!
