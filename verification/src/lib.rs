//! Backend-agnostic algebraic contract for elliptic-curve cryptography.
//!
//! The crate defines the capability traits a curve implementation must
//! expose (group and field arithmetic, encoding, validity checks, sampling),
//! the aggregate [`Curve`] contract binding a point type and a scalar type
//! together, and the zero-sized adapter [`rust_crypto::RustCryptoCurve`]
//! that tags an external arithmetic engine at the type level.
//!
//! Every element of a group or field is modelled by a natural number below
//! the (prime) order of its algebraic structure; the contracts of all
//! operations are stated over that model, and the algebraic laws are proved
//! once from those contracts.

use vstd::prelude::*;

pub mod algebra;
pub mod arith;
pub mod bytes;
pub mod encoding;
pub mod model_curve;
pub mod rust_crypto;

verus! {

use crate::algebra::Additive;
use crate::algebra::Element;
use crate::algebra::Invertible;
use crate::algebra::Multiplicative;
use crate::algebra::OnCurve;
use crate::algebra::One;
use crate::algebra::Samplable;
use crate::algebra::SecureErase;
use crate::algebra::SmallFactor;
use crate::algebra::Zero;
use crate::bytes::ByteArray;
use crate::encoding::CompressedEncoding;
use crate::encoding::Decode;
use crate::encoding::IntegerEncoding;
use crate::encoding::UncompressedEncoding;

/// Marker for the distinguished base point of a group.
///
/// Multiplying a scalar by this marker is fixed-base scalar multiplication,
/// dispatched by the type of the right-hand operand.
pub struct CurveGenerator;

/// Error of a fallible contract operation that carries no further detail.
pub struct Error;

/// The whole curve contract: one point type and one scalar type bound
/// together with every capability a protocol may rely on.
///
/// Protocol code should depend on this interface alone.  Besides the
/// capabilities themselves, the contract carries the curve-level laws:
/// the two groups share one order, every well-formed point is on the
/// curve, and point decoding inverts both point encodings.
pub trait Curve: Copy + Eq + Ord + core::hash::Hash + Default + Send + Sync + 'static {
    type Point: Additive + Zero + OnCurve + SmallFactor + SecureErase + CompressedEncoding<
        Bytes = Self::CompressedPointArray,
    > + UncompressedEncoding<Bytes = Self::UncompressedPointArray> + Decode + From<CurveGenerator>
        + Copy + Eq + Default + Unpin + Send + Sync;

    type Scalar: Additive + Multiplicative<Self::Scalar, Output = Self::Scalar> + Multiplicative<
        CurveGenerator,
        Output = Self::Point,
    > + Multiplicative<Self::Point, Output = Self::Point> + Invertible + Zero + One + Samplable
        + SecureErase + IntegerEncoding<Bytes = Self::ScalarArray> + Copy + Eq + Default + Unpin
        + Send + Sync;

    type CompressedPointArray: ByteArray;

    type UncompressedPointArray: ByteArray;

    type ScalarArray: ByteArray;

    type CoordinateArray: ByteArray;

    /// The curve's name, at the specification level.
    spec fn curve_name_spec() -> Seq<char>;

    /// Static curve name, for diagnostics and domain-separation tags.
    fn curve_name() -> (r: &'static str)
        ensures
            r@ == Self::curve_name_spec(),
    ;

    /// Points and scalars live in groups of one and the same order.
    proof fn lemma_orders_agree()
        ensures
            <Self::Point as Element>::order() == <Self::Scalar as Element>::order(),
    ;

    /// Every well-formed point the contract can produce is on the curve.
    proof fn lemma_wf_point_on_curve(p: Self::Point)
        requires
            p.wf(),
        ensures
            p.on_curve(),
    ;

    /// Decoding inverts compressed encoding for every well-formed point.
    proof fn lemma_compressed_round_trip(p: Self::Point)
        requires
            p.wf(),
        ensures
            <Self::Point as Decode>::decode_spec(p.compressed_spec()) == Some(p),
    ;

    /// Decoding inverts uncompressed encoding for every well-formed point.
    proof fn lemma_uncompressed_round_trip(p: Self::Point)
        requires
            p.wf(),
        ensures
            <Self::Point as Decode>::decode_spec(p.uncompressed_spec()) == Some(p),
    ;
}

} // verus!
