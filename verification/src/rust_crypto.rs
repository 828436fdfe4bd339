//! Adapter over the RustCrypto family of curve-arithmetic engines.
//!
//! [`RustCryptoCurve`] is a zero-sized wrapper parameterized by an
//! external engine type and a hash-expansion strategy: identity lives in
//! the type parameters, never in a value, so all values of one adapter
//! type are equal, compare equal, and order equal.  The engine types of
//! the k256, p256 and stark-curve crates are declared here so they can
//! stand as type-level tags, and each publishes its curve name through
//! [`CurveName`].

use vstd::prelude::*;

use core::marker::PhantomData;

verus! {

/// k256's secp256k1 curve marker, declared so that it can stand as a
/// type parameter of the adapter.  It is a unit struct carrying no data.
#[verifier::external_type_specification]
#[verifier::external_body]
pub struct ExSecp256k1(k256::Secp256k1);

/// p256's NIST P-256 curve marker, declared so that it can stand as a
/// type parameter of the adapter.  It is a unit struct carrying no data.
#[verifier::external_type_specification]
#[verifier::external_body]
pub struct ExNistP256(p256::NistP256);

/// stark-curve's Stark curve marker, declared so that it can stand as a
/// type parameter of the adapter.  It is a unit struct carrying no data.
#[verifier::external_type_specification]
#[verifier::external_body]
pub struct ExStarkCurve(stark_curve::StarkCurve);

/// Hash-expansion strategy marker: expand-message-XMD over SHA-256.
///
/// The expansion algorithm itself is an external collaborator consumed
/// by hashing-to-curve; the marker only selects the strategy at the type
/// level.
#[derive(Clone, Copy, Debug, Hash)]
pub struct XmdSha256;

/// An engine that publishes the name of its curve.
pub trait CurveName {
    /// The curve's name, at the specification level.
    spec fn name_spec() -> Seq<char>;

    /// The curve's name, for diagnostics and domain-separation tags.
    fn curve_name() -> (r: &'static str)
        ensures
            r@ == Self::name_spec(),
    ;
}

impl CurveName for k256::Secp256k1 {
    open spec fn name_spec() -> Seq<char> {
        "secp256k1"@
    }

    fn curve_name() -> (r: &'static str) {
        "secp256k1"
    }
}

impl CurveName for p256::NistP256 {
    open spec fn name_spec() -> Seq<char> {
        "secp256r1"@
    }

    fn curve_name() -> (r: &'static str) {
        "secp256r1"
    }
}

impl CurveName for stark_curve::StarkCurve {
    open spec fn name_spec() -> Seq<char> {
        "stark"@
    }

    fn curve_name() -> (r: &'static str) {
        "stark"
    }
}

/// Zero-sized, compile-time-only adapter binding an external arithmetic
/// engine `C` and a hash-expansion strategy `X`.
///
/// The adapter carries no runtime state, so its value semantics are
/// trivial constants: every value equals, compares equal to, and can
/// stand for every other value of the same adapter type.
#[derive(Debug, Hash)]
pub struct RustCryptoCurve<C, X> {
    _ph: PhantomData<(C, X)>,
}

/// secp256k1, based on the k256 crate.
pub type Secp256k1Curve = RustCryptoCurve<k256::Secp256k1, XmdSha256>;

/// secp256r1 (NIST P-256), based on the p256 crate.
pub type Secp256r1 = RustCryptoCurve<p256::NistP256, XmdSha256>;

/// The Stark curve, based on the stark-curve crate.
pub type Stark = RustCryptoCurve<stark_curve::StarkCurve, XmdSha256>;

impl<C, X> RustCryptoCurve<C, X> {
    /// The single value of the adapter type, at specification level.
    pub closed spec fn only_value() -> Self {
        RustCryptoCurve { _ph: PhantomData }
    }

    /// Identity lives in the type, not in any value: all values of one
    /// adapter type are equal.
    pub proof fn lemma_all_values_equal(a: Self, b: Self)
        ensures
            a == b,
    {
    }

    /// The adapter's only value.
    pub fn new() -> (r: Self)
        ensures
            r == Self::only_value(),
    {
        RustCryptoCurve { _ph: PhantomData }
    }
}

impl<C: CurveName, X> RustCryptoCurve<C, X> {
    /// The name of the wrapped engine's curve.
    pub fn curve_name() -> (r: &'static str)
        ensures
            r@ == C::name_spec(),
    {
        C::curve_name()
    }
}

impl<C, X> PartialEq for RustCryptoCurve<C, X> {
    fn eq(&self, other: &Self) -> (r: bool) {
        true
    }
}

impl<C, X> vstd::std_specs::cmp::PartialEqSpecImpl for RustCryptoCurve<C, X> {
    open spec fn obeys_eq_spec() -> bool {
        true
    }

    open spec fn eq_spec(&self, other: &Self) -> bool {
        true
    }
}

impl<C, X> Eq for RustCryptoCurve<C, X> {

}

impl<C, X> PartialOrd for RustCryptoCurve<C, X> {
    fn partial_cmp(&self, other: &Self) -> (r: Option<core::cmp::Ordering>) {
        Some(core::cmp::Ordering::Equal)
    }
}

impl<C, X> vstd::std_specs::cmp::PartialOrdSpecImpl for RustCryptoCurve<C, X> {
    open spec fn obeys_partial_cmp_spec() -> bool {
        true
    }

    open spec fn partial_cmp_spec(&self, other: &Self) -> Option<core::cmp::Ordering> {
        Some(core::cmp::Ordering::Equal)
    }
}

impl<C, X> Clone for RustCryptoCurve<C, X> {
    fn clone(&self) -> (r: Self)
        ensures
            r == *self,
    {
        RustCryptoCurve { _ph: PhantomData }
    }
}

impl<C, X> Copy for RustCryptoCurve<C, X> {

}

impl<C, X> Default for RustCryptoCurve<C, X> {
    fn default() -> (r: Self)
        ensures
            r == RustCryptoCurve::<C, X>::only_value(),
    {
        RustCryptoCurve { _ph: PhantomData }
    }
}

} // verus!
