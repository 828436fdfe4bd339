//! Algebraic capability traits.
//!
//! Each capability is an independent interface; a backend satisfies the
//! subset its curve supports.  Contracts are stated over the residue model
//! of [`crate::arith`]: an element stands for a natural number below the
//! order of its structure, and every operation is pinned down exactly on
//! that model.

use vstd::prelude::*;

verus! {

use crate::arith::add_mod;
use crate::arith::mul_mod;
use crate::arith::neg_mod;
use crate::arith::sub_mod;

/// An element of a finite algebraic structure of known order.
///
/// `value` is the residue the element stands for; a well-formed element is
/// a canonical representative, so its residue lies below the order.
pub trait Element: Sized {
    /// Order of the structure the element lives in.
    spec fn order() -> nat;

    /// The residue the element stands for.
    spec fn value(self) -> nat;

    /// The element is a canonical representative of its residue.
    spec fn wf(self) -> bool;

    /// The structure is non-trivial: it holds at least the two identities.
    proof fn lemma_order()
        ensures
            1 < Self::order(),
    ;

    /// A well-formed element models a residue below the order.
    proof fn lemma_value_in_range(self)
        requires
            self.wf(),
        ensures
            self.value() < Self::order(),
    ;
}

/// Abelian group capability: addition, subtraction and negation.
///
/// The same interface serves points (group addition) and scalars (field
/// addition); the laws of an abelian group are proved of the model in
/// [`crate::arith`] and hold for every conforming implementation.
pub trait Additive: Element {
    fn add(a: &Self, b: &Self) -> (r: Self)
        requires
            a.wf(),
            b.wf(),
        ensures
            r.wf(),
            r.value() == add_mod(a.value(), b.value(), Self::order()),
    ;

    fn sub(a: &Self, b: &Self) -> (r: Self)
        requires
            a.wf(),
            b.wf(),
        ensures
            r.wf(),
            r.value() == sub_mod(a.value(), b.value(), Self::order()),
    ;

    fn negate(x: &Self) -> (r: Self)
        requires
            x.wf(),
        ensures
            r.wf(),
            r.value() == neg_mod(x.value(), Self::order()),
    ;
}

/// Multiplication dispatched by the type of the right-hand operand.
///
/// One name covers field multiplication (scalar by scalar), fixed-base
/// scalar multiplication (scalar by generator marker) and variable-base
/// scalar multiplication (scalar by point); the implementation for each
/// right-hand type says what residue the product stands for.
pub trait Multiplicative<Rhs>: Element {
    type Output: Element;

    /// When the right-hand operand is valid for this multiplication.
    spec fn rhs_wf(b: Rhs) -> bool;

    /// The residue the product stands for.
    spec fn product_value(a: Self, b: Rhs) -> nat;

    fn mul(a: &Self, b: &Rhs) -> (r: Self::Output)
        requires
            a.wf(),
            Self::rhs_wf(*b),
        ensures
            r.wf(),
            r.value() == Self::product_value(*a, *b),
    ;
}

/// Multiplicative-inverse capability of a field element.
///
/// Zero has no inverse: absence is the expected answer there, not an
/// error.  For every other residue the inverse is returned, and its
/// product with the input is the multiplicative identity.
pub trait Invertible: Element {
    fn invert(x: &Self) -> (r: Option<Self>)
        requires
            x.wf(),
        ensures
            match r {
                Some(w) => w.wf() && x.value() != 0 && mul_mod(x.value(), w.value(), Self::order())
                    == 1,
                None => x.value() == 0,
            },
    ;
}

/// Additive identity: production and constant-time-style test.
pub trait Zero: Element {
    fn zero() -> (r: Self)
        ensures
            r.wf(),
            r.value() == 0,
    ;

    fn is_zero(x: &Self) -> (r: bool)
        requires
            x.wf(),
        ensures
            r == (x.value() == 0),
    ;
}

/// Multiplicative identity: production and constant-time-style test.
pub trait One: Element {
    fn one() -> (r: Self)
        ensures
            r.wf(),
            r.value() == 1,
    ;

    fn is_one(x: &Self) -> (r: bool)
        requires
            x.wf(),
        ensures
            r == (x.value() == 1),
    ;
}

/// A caller-supplied source of randomness.
///
/// The contract only uses the source; the caller owns it and is
/// responsible for its security properties.
pub trait EntropySource {
    fn next_u32(&mut self) -> u32;
}

/// Uniform sampling of an element from caller-supplied randomness.
///
/// Implementations must not bias the draw by naive truncation: they draw
/// wide and reduce, or reject, so that every residue is (near-)equally
/// likely under a uniform source.
pub trait Samplable: Element {
    fn random<R: EntropySource>(rng: &mut R) -> (r: Self)
        ensures
            r.wf(),
    ;
}

/// Check that a point satisfies the defining equation of its curve.
pub trait OnCurve: Element {
    /// Whether the element's residue denotes a point on the curve.
    spec fn on_curve(self) -> bool;

    fn is_on_curve(&self) -> (r: bool)
        ensures
            r == self.on_curve(),
    ;
}

/// Check that a point lies in the prime-order subgroup.
///
/// For a curve of cofactor one this holds of every on-curve point; for a
/// larger cofactor it rules out small-subgroup confinement.
pub trait SmallFactor: Element {
    /// Whether the element's residue denotes a torsion-free point.
    spec fn torsion_free(self) -> bool;

    fn is_torsion_free(&self) -> (r: bool)
        ensures
            r == self.torsion_free(),
    ;
}

/// Secure erasure: overwrite the element with the additive identity, so
/// that no secret residue outlives its last use.
pub trait SecureErase: Element {
    fn erase(&mut self)
        ensures
            final(self).wf(),
            final(self).value() == 0,
    ;
}

/// The abelian-group laws, for the elements of any additive
/// implementation: addition commutes and associates, the zero residue is
/// neutral, and every element cancels with its negation.  Together with
/// the contract of [`Additive`], which pins each operation to the
/// residue model, this holds of the values the operations return.
pub proof fn lemma_group_laws<T: Additive>(a: T, b: T, c: T)
    requires
        a.wf(),
        b.wf(),
        c.wf(),
    ensures
        add_mod(a.value(), b.value(), T::order()) == add_mod(b.value(), a.value(), T::order()),
        add_mod(add_mod(a.value(), b.value(), T::order()), c.value(), T::order()) == add_mod(
            a.value(),
            add_mod(b.value(), c.value(), T::order()),
            T::order(),
        ),
        add_mod(a.value(), 0, T::order()) == a.value(),
        add_mod(a.value(), neg_mod(a.value(), T::order()), T::order()) == 0,
{
    T::lemma_order();
    a.lemma_value_in_range();
    b.lemma_value_in_range();
    c.lemma_value_in_range();
    crate::arith::lemma_add_mod_commutes(a.value(), b.value(), T::order());
    crate::arith::lemma_add_mod_associates(a.value(), b.value(), c.value(), T::order());
    crate::arith::lemma_add_mod_identity(a.value(), T::order());
    crate::arith::lemma_add_mod_negate(a.value(), T::order());
}

/// The field identity laws for any element: multiplying by the residue
/// of [`One::one`] returns the element itself, and multiplication
/// commutes.  The inverse law is part of the contract of
/// [`Invertible::invert`]: a returned inverse multiplies with its input
/// to the multiplicative identity, and only zero has none.
pub proof fn lemma_field_identity_laws<T: Element>(a: T, b: T)
    requires
        a.wf(),
        b.wf(),
    ensures
        mul_mod(a.value(), 1, T::order()) == a.value(),
        mul_mod(a.value(), b.value(), T::order()) == mul_mod(b.value(), a.value(), T::order()),
{
    T::lemma_order();
    a.lemma_value_in_range();
    crate::arith::lemma_mul_mod_identity(a.value(), T::order());
    crate::arith::lemma_mul_mod_commutes(a.value(), b.value(), T::order());
}

} // verus!
