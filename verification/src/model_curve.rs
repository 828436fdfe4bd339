//! A small reference curve satisfying the whole [`crate::Curve`] contract.
//!
//! The group is the cyclic group of prime order thirteen, written
//! additively: a point is indexed by a coordinate `x` below the order,
//! with companion coordinate `y(x) = x * x mod 13` playing the role of
//! the second affine coordinate, and the group law adds indices.  The
//! scalar field is the integers modulo the same prime.
//!
//! The curve is small enough that every capability can be implemented
//! directly and proved against its contract, which makes it both the
//! witness that the contract is satisfiable and a deterministic fixture
//! for protocol tests.

use vstd::prelude::*;

verus! {

use vstd::arithmetic::div_mod::lemma_small_mod;
use vstd::arithmetic::power::lemma_pow1;
use vstd::arithmetic::power::lemma_pow_adds;
use vstd::arithmetic::power::pow;
use crate::CurveGenerator;
use crate::Curve;
use crate::algebra::Additive;
use crate::algebra::Element;
use crate::algebra::EntropySource;
use crate::algebra::Invertible;
use crate::algebra::Multiplicative;
use crate::algebra::OnCurve;
use crate::algebra::One;
use crate::algebra::Samplable;
use crate::algebra::SecureErase;
use crate::algebra::SmallFactor;
use crate::algebra::Zero;
use crate::arith::mul_mod;
use crate::bytes::ByteArray;
use crate::encoding::CompressedEncoding;
use crate::encoding::Decode;
use crate::encoding::IntegerEncoding;
use crate::encoding::UncompressedEncoding;
use crate::encoding::be_bytes;
use crate::encoding::be_value;
use crate::encoding::le_bytes;
use crate::encoding::le_value;
use crate::encoding::lemma_be_round_trip;

/// Order of the reference group and of its scalar field.
pub const MODEL_ORDER: u64 = 13;

/// The companion coordinate of the point with coordinate `x`.
pub open spec fn model_y(x: nat) -> nat {
    mul_mod(x, x, MODEL_ORDER as nat)
}

/// A scalar of the reference curve: a residue modulo thirteen.
#[derive(Clone, Copy, PartialEq, Eq, Structural, PartialOrd, Ord, Hash, Debug)]
pub struct ModelScalar {
    raw: u64,
}

/// A point of the reference curve, held by its coordinate index.
#[derive(Clone, Copy, PartialEq, Eq, Structural, PartialOrd, Ord, Hash, Debug)]
pub struct ModelPoint {
    raw: u64,
}

/// The reference curve itself: a zero-sized type-level tag.
#[derive(Clone, Copy, PartialEq, Eq, Structural, PartialOrd, Ord, Hash, Debug, Default)]
pub struct ModelCurve;

impl ModelScalar {
    /// Build the scalar of the given residue, reducing modulo the order.
    pub fn new(v: u64) -> (r: Self)
        ensures
            r.wf(),
            r.value() == (v as nat) % (MODEL_ORDER as nat),
    {
        ModelScalar { raw: v % MODEL_ORDER }
    }

    /// The residue this scalar stands for.
    pub fn as_u64(&self) -> (r: u64)
        ensures
            r as nat == self.value(),
    {
        self.raw
    }

    /// Wide bias-free reduction of uniform randomness into the field:
    /// the result is a pure function of the drawn word, so sampling from
    /// equal randomness yields equal scalars.
    pub fn from_uniform(x: u32) -> (r: Self)
        ensures
            r.wf(),
            r.value() == (x as nat) % (MODEL_ORDER as nat),
    {
        ModelScalar { raw: (x as u64) % MODEL_ORDER }
    }
}

impl ModelPoint {
    /// Build the point with the given coordinate index, reduced.
    pub fn new(v: u64) -> (r: Self)
        ensures
            r.wf(),
            r.value() == (v as nat) % (MODEL_ORDER as nat),
    {
        ModelPoint { raw: v % MODEL_ORDER }
    }

    /// The coordinate index this point stands for.
    pub fn as_u64(&self) -> (r: u64)
        ensures
            r as nat == self.value(),
    {
        self.raw
    }
}

impl Element for ModelScalar {
    open spec fn order() -> nat {
        MODEL_ORDER as nat
    }

    closed spec fn value(self) -> nat {
        self.raw as nat
    }

    closed spec fn wf(self) -> bool {
        self.raw < MODEL_ORDER
    }

    proof fn lemma_order() {
    }

    proof fn lemma_value_in_range(self) {
    }
}

impl Element for ModelPoint {
    open spec fn order() -> nat {
        MODEL_ORDER as nat
    }

    closed spec fn value(self) -> nat {
        self.raw as nat
    }

    closed spec fn wf(self) -> bool {
        self.raw < MODEL_ORDER
    }

    proof fn lemma_order() {
    }

    proof fn lemma_value_in_range(self) {
    }
}

impl Additive for ModelScalar {
    fn add(a: &Self, b: &Self) -> (r: Self) {
        ModelScalar { raw: (a.raw + b.raw) % MODEL_ORDER }
    }

    fn sub(a: &Self, b: &Self) -> (r: Self) {
        let nb: u64 = if b.raw == 0 {
            0
        } else {
            MODEL_ORDER - b.raw
        };
        proof {
            lemma_small_mod(b.raw as nat, MODEL_ORDER as nat);
        }
        ModelScalar { raw: (a.raw + nb) % MODEL_ORDER }
    }

    fn negate(x: &Self) -> (r: Self) {
        proof {
            lemma_small_mod(x.raw as nat, MODEL_ORDER as nat);
        }
        if x.raw == 0 {
            ModelScalar { raw: 0 }
        } else {
            ModelScalar { raw: MODEL_ORDER - x.raw }
        }
    }
}

impl Additive for ModelPoint {
    fn add(a: &Self, b: &Self) -> (r: Self) {
        ModelPoint { raw: (a.raw + b.raw) % MODEL_ORDER }
    }

    fn sub(a: &Self, b: &Self) -> (r: Self) {
        let nb: u64 = if b.raw == 0 {
            0
        } else {
            MODEL_ORDER - b.raw
        };
        proof {
            lemma_small_mod(b.raw as nat, MODEL_ORDER as nat);
        }
        ModelPoint { raw: (a.raw + nb) % MODEL_ORDER }
    }

    fn negate(x: &Self) -> (r: Self) {
        proof {
            lemma_small_mod(x.raw as nat, MODEL_ORDER as nat);
        }
        if x.raw == 0 {
            ModelPoint { raw: 0 }
        } else {
            ModelPoint { raw: MODEL_ORDER - x.raw }
        }
    }
}

impl Multiplicative<ModelScalar> for ModelScalar {
    type Output = ModelScalar;

    open spec fn rhs_wf(b: ModelScalar) -> bool {
        b.wf()
    }

    open spec fn product_value(a: ModelScalar, b: ModelScalar) -> nat {
        mul_mod(a.value(), b.value(), MODEL_ORDER as nat)
    }

    fn mul(a: &Self, b: &ModelScalar) -> (r: Self::Output) {
        proof {
            assert(a.raw * b.raw <= 144) by (nonlinear_arith)
                requires
                    a.raw <= 12 && b.raw <= 12,
            ;
        }
        ModelScalar { raw: (a.raw * b.raw) % MODEL_ORDER }
    }
}

impl Multiplicative<CurveGenerator> for ModelScalar {
    type Output = ModelPoint;

    open spec fn rhs_wf(b: CurveGenerator) -> bool {
        true
    }

    open spec fn product_value(a: ModelScalar, b: CurveGenerator) -> nat {
        a.value()
    }

    fn mul(a: &Self, b: &CurveGenerator) -> (r: Self::Output) {
        ModelPoint { raw: a.raw }
    }
}

impl Multiplicative<ModelPoint> for ModelScalar {
    type Output = ModelPoint;

    open spec fn rhs_wf(b: ModelPoint) -> bool {
        b.wf()
    }

    open spec fn product_value(a: ModelScalar, b: ModelPoint) -> nat {
        mul_mod(a.value(), b.value(), MODEL_ORDER as nat)
    }

    fn mul(a: &Self, b: &ModelPoint) -> (r: Self::Output) {
        proof {
            assert(a.raw * b.raw <= 144) by (nonlinear_arith)
                requires
                    a.raw <= 12 && b.raw <= 12,
            ;
        }
        ModelPoint { raw: (a.raw * b.raw) % MODEL_ORDER }
    }
}

impl Invertible for ModelScalar {
    // The field is small enough to tabulate: each returned residue
    // multiplies with its input to one modulo the order.
    fn invert(x: &Self) -> (r: Option<Self>) {
        if x.raw == 0 {
            None
        } else if x.raw == 1 {
            Some(ModelScalar { raw: 1 })
        } else if x.raw == 2 {
            Some(ModelScalar { raw: 7 })
        } else if x.raw == 3 {
            Some(ModelScalar { raw: 9 })
        } else if x.raw == 4 {
            Some(ModelScalar { raw: 10 })
        } else if x.raw == 5 {
            Some(ModelScalar { raw: 8 })
        } else if x.raw == 6 {
            Some(ModelScalar { raw: 11 })
        } else if x.raw == 7 {
            Some(ModelScalar { raw: 2 })
        } else if x.raw == 8 {
            Some(ModelScalar { raw: 5 })
        } else if x.raw == 9 {
            Some(ModelScalar { raw: 3 })
        } else if x.raw == 10 {
            Some(ModelScalar { raw: 4 })
        } else if x.raw == 11 {
            Some(ModelScalar { raw: 6 })
        } else {
            Some(ModelScalar { raw: 12 })
        }
    }
}

impl Zero for ModelScalar {
    fn zero() -> (r: Self) {
        ModelScalar { raw: 0 }
    }

    fn is_zero(x: &Self) -> (r: bool) {
        x.raw == 0
    }
}

impl Zero for ModelPoint {
    fn zero() -> (r: Self) {
        ModelPoint { raw: 0 }
    }

    fn is_zero(x: &Self) -> (r: bool) {
        x.raw == 0
    }
}

impl One for ModelScalar {
    fn one() -> (r: Self) {
        ModelScalar { raw: 1 }
    }

    fn is_one(x: &Self) -> (r: bool) {
        x.raw == 1
    }
}

impl Samplable for ModelScalar {
    fn random<R: EntropySource>(rng: &mut R) -> (r: Self) {
        let x = rng.next_u32();
        ModelScalar::from_uniform(x)
    }
}

impl OnCurve for ModelPoint {
    open spec fn on_curve(self) -> bool {
        self.wf()
    }

    fn is_on_curve(&self) -> (r: bool) {
        self.raw < MODEL_ORDER
    }
}

impl SmallFactor for ModelPoint {
    open spec fn torsion_free(self) -> bool {
        self.wf()
    }

    fn is_torsion_free(&self) -> (r: bool) {
        self.raw < MODEL_ORDER
    }
}

impl SecureErase for ModelScalar {
    fn erase(&mut self) {
        self.raw = 0;
    }
}

impl SecureErase for ModelPoint {
    fn erase(&mut self) {
        self.raw = 0;
    }
}

impl From<CurveGenerator> for ModelPoint {
    fn from(g: CurveGenerator) -> (r: ModelPoint) {
        ModelPoint { raw: 1 }
    }
}

impl vstd::std_specs::convert::FromSpecImpl<CurveGenerator> for ModelPoint {
    open spec fn obeys_from_spec() -> bool {
        true
    }

    closed spec fn from_spec(g: CurveGenerator) -> ModelPoint {
        ModelPoint { raw: 1 }
    }
}

impl Default for ModelScalar {
    fn default() -> (r: Self)
        ensures
            r.wf(),
            r.value() == 0,
    {
        ModelScalar { raw: 0 }
    }
}

impl Default for ModelPoint {
    fn default() -> (r: Self)
        ensures
            r.wf(),
            r.value() == 0,
    {
        ModelPoint { raw: 0 }
    }
}

/// 256 squared, spelled as the power the encoding lemmas speak of.
proof fn lemma_pow_256_2()
    ensures
        pow(256, 2) == 65536,
{
    lemma_pow1(256);
    lemma_pow_adds(256, 1, 1);
}

/// The two-byte big-endian serialization, written out.
proof fn lemma_be_bytes_2(v: nat)
    requires
        v < 65536,
    ensures
        be_bytes(v, 2) =~= seq![(v / 256) as u8, (v % 256) as u8],
{
    reveal_with_fuel(be_bytes, 3);
    vstd::arithmetic::div_mod::lemma_multiply_divide_lt(v as int, 256, 256);
    lemma_small_mod(v / 256, 256);
    assert(be_bytes(v / 256, 0) =~= Seq::<u8>::empty());
    assert(be_bytes(v / 256, 1) =~= seq![((v / 256) % 256) as u8]);
}

/// The integer a two-byte big-endian string stands for, written out.
proof fn lemma_be_value_2(b: Seq<u8>)
    requires
        b.len() == 2,
    ensures
        be_value(b) == (b[0] as nat) * 256 + (b[1] as nat),
{
    let d1 = b.drop_last();
    assert(d1.len() == 1);
    assert(d1.drop_last().len() == 0);
    assert(be_value(d1.drop_last()) == 0);
    assert(d1.last() == b[0]);
    assert(be_value(d1) == b[0] as nat);
    assert(b.last() == b[1]);
}

/// The two-byte little-endian serialization, written out.
proof fn lemma_le_bytes_2(v: nat)
    requires
        v < 65536,
    ensures
        le_bytes(v, 2) =~= seq![(v % 256) as u8, (v / 256) as u8],
{
    reveal_with_fuel(le_bytes, 3);
    vstd::arithmetic::div_mod::lemma_multiply_divide_lt(v as int, 256, 256);
    lemma_small_mod(v / 256, 256);
    assert(le_bytes(v / 256 / 256, 0) =~= Seq::<u8>::empty());
    assert(le_bytes(v / 256, 1) =~= seq![((v / 256) % 256) as u8]);
}

/// The integer a two-byte little-endian string stands for, written out.
proof fn lemma_le_value_2(b: Seq<u8>)
    requires
        b.len() == 2,
    ensures
        le_value(b) == (b[0] as nat) + 256 * (b[1] as nat),
{
    let s2 = b.subrange(1, 2);
    assert(s2.len() == 1);
    assert(s2[0] == b[1]);
    assert(s2.subrange(1, 1).len() == 0);
    assert(le_value(s2.subrange(1, 1)) == 0);
    assert(le_value(s2) == b[1] as nat);
}

impl IntegerEncoding for ModelScalar {
    type Bytes = [u8; 2];

    proof fn lemma_width_fits() {
        lemma_pow_256_2();
    }

    fn to_be_bytes(&self) -> (r: Self::Bytes) {
        let r: [u8; 2] = [(self.raw / 256) as u8, (self.raw % 256) as u8];
        proof {
            lemma_be_bytes_2(self.value());
            assert(r@ =~= be_bytes(self.value(), 2));
        }
        r
    }

    fn to_le_bytes(&self) -> (r: Self::Bytes) {
        let r: [u8; 2] = [(self.raw % 256) as u8, (self.raw / 256) as u8];
        proof {
            lemma_le_bytes_2(self.value());
            assert(r@ =~= le_bytes(self.value(), 2));
        }
        r
    }

    fn from_be_bytes(bytes: &Self::Bytes) -> (r: Self) {
        let v: u64 = (bytes[0] as u64) * 256 + (bytes[1] as u64);
        proof {
            lemma_be_value_2(bytes@);
        }
        ModelScalar { raw: v % MODEL_ORDER }
    }

    fn from_le_bytes(bytes: &Self::Bytes) -> (r: Self) {
        let v: u64 = (bytes[0] as u64) + 256 * (bytes[1] as u64);
        proof {
            lemma_le_value_2(bytes@);
        }
        ModelScalar { raw: v % MODEL_ORDER }
    }

    fn from_be_bytes_exact(bytes: &Self::Bytes) -> (r: Option<Self>) {
        let v: u64 = (bytes[0] as u64) * 256 + (bytes[1] as u64);
        proof {
            lemma_be_value_2(bytes@);
        }
        if v < MODEL_ORDER {
            Some(ModelScalar { raw: v })
        } else {
            None
        }
    }

    fn from_le_bytes_exact(bytes: &Self::Bytes) -> (r: Option<Self>) {
        let v: u64 = (bytes[0] as u64) + 256 * (bytes[1] as u64);
        proof {
            lemma_le_value_2(bytes@);
        }
        if v < MODEL_ORDER {
            Some(ModelScalar { raw: v })
        } else {
            None
        }
    }
}

impl CompressedEncoding for ModelPoint {
    type Bytes = [u8; 3];

    open spec fn compressed_spec(self) -> Seq<u8> {
        seq![(2 + model_y(self.value()) % 2) as u8].add(be_bytes(self.value(), 2))
    }

    fn to_bytes_compressed(&self) -> (r: Self::Bytes) {
        proof {
            assert(self.raw * self.raw <= 144) by (nonlinear_arith)
                requires
                    self.raw <= 12,
            ;
        }
        let y: u64 = (self.raw * self.raw) % MODEL_ORDER;
        let tag: u8 = 2 + ((y % 2) as u8);
        let r: [u8; 3] = [tag, (self.raw / 256) as u8, (self.raw % 256) as u8];
        proof {
            lemma_be_bytes_2(self.value());
            assert(r@ =~= self.compressed_spec());
        }
        r
    }
}

impl UncompressedEncoding for ModelPoint {
    type Bytes = [u8; 5];

    open spec fn uncompressed_spec(self) -> Seq<u8> {
        seq![4u8].add(be_bytes(self.value(), 2)).add(be_bytes(model_y(self.value()), 2))
    }

    fn to_bytes_uncompressed(&self) -> (r: Self::Bytes) {
        proof {
            assert(self.raw * self.raw <= 144) by (nonlinear_arith)
                requires
                    self.raw <= 12,
            ;
        }
        let y: u64 = (self.raw * self.raw) % MODEL_ORDER;
        let r: [u8; 5] = [
            4,
            (self.raw / 256) as u8,
            (self.raw % 256) as u8,
            (y / 256) as u8,
            (y % 256) as u8,
        ];
        proof {
            lemma_be_bytes_2(self.value());
            lemma_be_bytes_2(model_y(self.value()));
            assert(r@ =~= self.uncompressed_spec());
        }
        r
    }
}

impl Decode for ModelPoint {
    closed spec fn decode_spec(bytes: Seq<u8>) -> Option<ModelPoint> {
        if bytes.len() == 3 {
            let x = be_value(bytes.subrange(1, 3));
            if x < MODEL_ORDER as nat && (bytes[0] as nat) == 2 + model_y(x) % 2 {
                Some(ModelPoint { raw: x as u64 })
            } else {
                None
            }
        } else if bytes.len() == 5 {
            let x = be_value(bytes.subrange(1, 3));
            let y = be_value(bytes.subrange(3, 5));
            if x < MODEL_ORDER as nat && bytes[0] == 4 && y == model_y(x) {
                Some(ModelPoint { raw: x as u64 })
            } else {
                None
            }
        } else {
            None
        }
    }

    proof fn lemma_decode_wf(bytes: Seq<u8>) {
    }

    fn decode(bytes: &[u8]) -> (r: Option<ModelPoint>) {
        if bytes.len() == 3 {
            let x: u64 = (bytes[1] as u64) * 256 + (bytes[2] as u64);
            proof {
                lemma_be_value_2(bytes@.subrange(1, 3));
            }
            if x < MODEL_ORDER {
                proof {
                    assert(x * x <= 144) by (nonlinear_arith)
                        requires
                            x <= 12,
                    ;
                }
                let y: u64 = (x * x) % MODEL_ORDER;
                let tag: u8 = 2 + ((y % 2) as u8);
                if bytes[0] == tag {
                    Some(ModelPoint { raw: x })
                } else {
                    None
                }
            } else {
                None
            }
        } else if bytes.len() == 5 {
            let x: u64 = (bytes[1] as u64) * 256 + (bytes[2] as u64);
            let y: u64 = (bytes[3] as u64) * 256 + (bytes[4] as u64);
            proof {
                lemma_be_value_2(bytes@.subrange(1, 3));
                lemma_be_value_2(bytes@.subrange(3, 5));
            }
            if bytes[0] == 4 && x < MODEL_ORDER {
                proof {
                    assert(x * x <= 144) by (nonlinear_arith)
                        requires
                            x <= 12,
                    ;
                }
                let yy: u64 = (x * x) % MODEL_ORDER;
                if y == yy {
                    Some(ModelPoint { raw: x })
                } else {
                    None
                }
            } else {
                None
            }
        } else {
            None
        }
    }
}

impl Curve for ModelCurve {
    type Point = ModelPoint;

    type Scalar = ModelScalar;

    type CompressedPointArray = [u8; 3];

    type UncompressedPointArray = [u8; 5];

    type ScalarArray = [u8; 2];

    type CoordinateArray = [u8; 2];

    open spec fn curve_name_spec() -> Seq<char> {
        "model13"@
    }

    fn curve_name() -> (r: &'static str) {
        "model13"
    }

    proof fn lemma_orders_agree() {
    }

    proof fn lemma_wf_point_on_curve(p: ModelPoint) {
    }

    proof fn lemma_compressed_round_trip(p: ModelPoint) {
        let v = p.value();
        let s = p.compressed_spec();
        lemma_pow_256_2();
        lemma_be_bytes_2(v);
        assert(s.len() == 3);
        assert(s.subrange(1, 3) =~= be_bytes(v, 2));
        lemma_be_round_trip(v, 2);
        assert(s[0] as nat == 2 + model_y(v) % 2);
    }

    proof fn lemma_uncompressed_round_trip(p: ModelPoint) {
        let v = p.value();
        let s = p.uncompressed_spec();
        lemma_pow_256_2();
        lemma_be_bytes_2(v);
        lemma_be_bytes_2(model_y(v));
        assert(s.len() == 5);
        assert(s.subrange(1, 3) =~= be_bytes(v, 2));
        assert(s.subrange(3, 5) =~= be_bytes(model_y(v), 2));
        lemma_be_round_trip(v, 2);
        lemma_be_round_trip(model_y(v), 2);
        assert(s[0] == 4u8);
    }
}

/// Every well-formed point of the reference curve is on the curve and,
/// the cofactor being one, torsion-free; with the contract of
/// multiplication this covers every point the generator-multiplication
/// path can produce.
pub proof fn lemma_model_point_valid(p: ModelPoint)
    requires
        p.wf(),
    ensures
        p.on_curve(),
        p.torsion_free(),
{
}

} // verus!
