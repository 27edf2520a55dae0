//! Field projections: pure extraction of a (possibly nested) sub-value from
//! a component value, and composition of such extractions.

use vstd::prelude::*;

verus! {

use core::marker::PhantomData;
use crate::Predicate;

/// A pure projection from a container value to a checked sub-value.
///
/// `spec_get` is the mathematical meaning of the projection; the executable
/// `get` must hand back a reference to exactly that sub-value. A projection
/// is total: it is defined for every container value and never fails.
pub trait Checkable {
    /// The container the projection starts from.
    type Component;

    /// The sub-value the projection reaches. Component data owns its
    /// contents, so the reached sub-value is plain `'static` data too.
    type Checked: 'static;

    /// The sub-value of `c` that this projection extracts.
    spec fn spec_get(c: Self::Component) -> Self::Checked;

    /// Extracts the checked sub-value of `c`.
    fn get(c: &Self::Component) -> (r: &Self::Checked)
        ensures
            *r == Self::spec_get(*c),
    ;
}

/// The base projection: the checked value is the container itself.
pub struct Identity<T>(PhantomData<T>);

impl<T: 'static> Checkable for Identity<T> {
    type Component = T;

    type Checked = T;

    open spec fn spec_get(c: T) -> T {
        c
    }

    fn get(c: &T) -> (r: &T) {
        c
    }
}

/// Chains two projections: the checked value of `A` becomes the container of
/// `B`. Chains of arbitrary length arise by nesting.
pub struct Compose<A, B>(PhantomData<A>, PhantomData<B>);

impl<A: Checkable, B: Checkable<Component = A::Checked>> Checkable for Compose<A, B> {
    type Component = A::Component;

    type Checked = B::Checked;

    open spec fn spec_get(c: A::Component) -> B::Checked {
        B::spec_get(A::spec_get(c))
    }

    fn get(c: &A::Component) -> (r: &B::Checked) {
        B::get(A::get(c))
    }
}

/// A [`Predicate`] over the container type of a projection `C`: applies the
/// projection, then tests the reached sub-value with `P`.
pub struct Projected<C, P>(PhantomData<C>, PhantomData<P>);

impl<C: Checkable, P: Predicate<C::Checked>> Predicate<C::Component> for Projected<C, P> {
    open spec fn spec_test(t: C::Component) -> bool {
        P::spec_test(C::spec_get(t))
    }

    fn test(t: &C::Component) -> (r: bool) {
        P::test(C::get(t))
    }
}

/// The base projection extracts the container itself: `get` is the identity,
/// on every input.
pub proof fn lemma_projection_identity<T>(x: T)
    ensures
        Identity::<T>::spec_get(x) == x,
{
}

/// Composition of projections is associative: grouping a three-link chain
/// either way extracts the same sub-value, on every input.
pub proof fn lemma_compose_associative<
    A: Checkable,
    B: Checkable<Component = A::Checked>,
    C: Checkable<Component = B::Checked>,
>(x: A::Component)
    ensures
        Compose::<Compose<A, B>, C>::spec_get(x) == Compose::<A, Compose<B, C>>::spec_get(x),
{
}

} // verus!
