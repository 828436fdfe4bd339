use generic_ec_core::CurveGenerator;
use generic_ec_core::Curve;
use generic_ec_core::algebra::Additive;
use generic_ec_core::algebra::EntropySource;
use generic_ec_core::algebra::Invertible;
use generic_ec_core::algebra::Multiplicative;
use generic_ec_core::algebra::OnCurve;
use generic_ec_core::algebra::One;
use generic_ec_core::algebra::Samplable;
use generic_ec_core::algebra::SecureErase;
use generic_ec_core::algebra::SmallFactor;
use generic_ec_core::algebra::Zero;
use generic_ec_core::encoding::CompressedEncoding;
use generic_ec_core::encoding::Decode;
use generic_ec_core::encoding::IntegerEncoding;
use generic_ec_core::encoding::UncompressedEncoding;
use generic_ec_core::model_curve::MODEL_ORDER;
use generic_ec_core::model_curve::ModelCurve;
use generic_ec_core::model_curve::ModelPoint;
use generic_ec_core::model_curve::ModelScalar;

#[test]
fn scalar_be_round_trip_all_residues() {
    for v in 0..MODEL_ORDER {
        let s = ModelScalar::new(v);
        let b = s.to_be_bytes();
        assert_eq!(ModelScalar::from_be_bytes_exact(&b), Some(s));
    }
}

#[test]
fn scalar_le_round_trip_all_residues() {
    for v in 0..MODEL_ORDER {
        let s = ModelScalar::new(v);
        let b = s.to_le_bytes();
        assert_eq!(ModelScalar::from_le_bytes_exact(&b), Some(s));
    }
}

#[test]
fn scalar_be_bytes_exact_value() {
    let s = ModelScalar::new(11);
    assert_eq!(s.to_be_bytes(), [0u8, 11u8]);
    assert_eq!(s.to_le_bytes(), [11u8, 0u8]);
}

#[test]
fn scalar_lenient_decode_reduces() {
    // 13 is the order, so it reduces to zero; 65535 % 13 == 2.
    assert_eq!(ModelScalar::from_be_bytes(&[0u8, 13u8]).as_u64(), 0);
    assert_eq!(ModelScalar::from_be_bytes(&[255u8, 255u8]).as_u64(), 2);
    assert_eq!(ModelScalar::from_le_bytes(&[13u8, 0u8]).as_u64(), 0);
    assert_eq!(ModelScalar::from_le_bytes(&[255u8, 255u8]).as_u64(), 2);
}

#[test]
fn scalar_exact_decode_rejects_out_of_range() {
    // The order itself and anything above it is not canonical.
    assert_eq!(ModelScalar::from_be_bytes_exact(&[0u8, 13u8]), None);
    assert_eq!(ModelScalar::from_be_bytes_exact(&[255u8, 255u8]), None);
    assert_eq!(ModelScalar::from_le_bytes_exact(&[13u8, 0u8]), None);
    assert_eq!(ModelScalar::from_le_bytes_exact(&[255u8, 255u8]), None);
    // The largest canonical residue still decodes.
    assert_eq!(
        ModelScalar::from_be_bytes_exact(&[0u8, 12u8]),
        Some(ModelScalar::new(12))
    );
}

#[test]
fn field_multiplicative_identity() {
    for v in 0..MODEL_ORDER {
        let a = ModelScalar::new(v);
        let one = ModelScalar::one();
        let p = <ModelScalar as Multiplicative<ModelScalar>>::mul(&a, &one);
        assert_eq!(p, a);
    }
}

#[test]
fn field_inverse_law() {
    let one = ModelScalar::one();
    for v in 1..MODEL_ORDER {
        let a = ModelScalar::new(v);
        let w = ModelScalar::invert(&a).expect("nonzero scalar must invert");
        let p = <ModelScalar as Multiplicative<ModelScalar>>::mul(&a, &w);
        assert_eq!(p, one);
    }
}

#[test]
fn invert_zero_yields_nothing() {
    let z = ModelScalar::zero();
    assert_eq!(ModelScalar::invert(&z), None);
}

#[test]
fn group_laws_on_points() {
    for x in 0..MODEL_ORDER {
        for y in 0..MODEL_ORDER {
            let p = ModelPoint::new(x);
            let q = ModelPoint::new(y);
            // commutativity
            assert_eq!(ModelPoint::add(&p, &q), ModelPoint::add(&q, &p));
            // identity
            assert_eq!(ModelPoint::add(&p, &ModelPoint::zero()), p);
            // inverse
            assert_eq!(
                ModelPoint::add(&p, &ModelPoint::negate(&p)),
                ModelPoint::zero()
            );
            // subtraction agrees with adding the negation
            assert_eq!(
                ModelPoint::sub(&p, &q),
                ModelPoint::add(&p, &ModelPoint::negate(&q))
            );
        }
    }
}

#[test]
fn group_law_associativity() {
    for x in 0..MODEL_ORDER {
        for y in 0..MODEL_ORDER {
            for z in 0..MODEL_ORDER {
                let p = ModelPoint::new(x);
                let q = ModelPoint::new(y);
                let r = ModelPoint::new(z);
                let left = ModelPoint::add(&ModelPoint::add(&p, &q), &r);
                let right = ModelPoint::add(&p, &ModelPoint::add(&q, &r));
                assert_eq!(left, right);
            }
        }
    }
}

#[test]
fn scalar_two_times_generator_is_double() {
    let g = ModelPoint::from(CurveGenerator);
    let two = ModelScalar::new(2);
    let by_mul = <ModelScalar as Multiplicative<CurveGenerator>>::mul(&two, &CurveGenerator);
    let by_add = ModelPoint::add(&g, &g);
    assert_eq!(by_mul, by_add);
}

#[test]
fn scalar_order_times_generator_is_identity() {
    // The scalar is reduced modulo the order, so order * G is the identity.
    let n = ModelScalar::new(MODEL_ORDER);
    let p = <ModelScalar as Multiplicative<CurveGenerator>>::mul(&n, &CurveGenerator);
    assert_eq!(p, ModelPoint::zero());
}

#[test]
fn identity_point_round_trips() {
    let id = ModelPoint::zero();
    let c = id.to_bytes_compressed();
    let u = id.to_bytes_uncompressed();
    assert_eq!(ModelPoint::decode(&c), Some(id));
    assert_eq!(ModelPoint::decode(&u), Some(id));
}

#[test]
fn point_compressed_round_trip_all_points() {
    for x in 0..MODEL_ORDER {
        let p = ModelPoint::new(x);
        let b = p.to_bytes_compressed();
        assert_eq!(ModelPoint::decode(&b), Some(p));
    }
}

#[test]
fn point_uncompressed_round_trip_all_points() {
    for x in 0..MODEL_ORDER {
        let p = ModelPoint::new(x);
        let b = p.to_bytes_uncompressed();
        assert_eq!(ModelPoint::decode(&b), Some(p));
    }
}

#[test]
fn compressed_encoding_exact_bytes() {
    // x = 5: y = 25 mod 13 = 12, even, so the tag is 2.
    let p = ModelPoint::new(5);
    assert_eq!(p.to_bytes_compressed(), [2u8, 0u8, 5u8]);
    // x = 4: y = 16 mod 13 = 3, odd, so the tag is 3.
    let q = ModelPoint::new(4);
    assert_eq!(q.to_bytes_compressed(), [3u8, 0u8, 4u8]);
    assert_eq!(q.to_bytes_uncompressed(), [4u8, 0u8, 4u8, 0u8, 3u8]);
}

#[test]
fn decode_rejects_malformed_input() {
    // wrong lengths, from empty up past the longest valid form
    assert_eq!(ModelPoint::decode(&[]), None);
    assert_eq!(ModelPoint::decode(&[2u8]), None);
    assert_eq!(ModelPoint::decode(&[2u8, 0u8]), None);
    assert_eq!(ModelPoint::decode(&[4u8, 0u8, 1u8, 0u8]), None);
    assert_eq!(ModelPoint::decode(&[4u8, 0u8, 1u8, 0u8, 1u8, 0u8]), None);
    // all-zero bytes: the tag is invalid in both forms
    assert_eq!(ModelPoint::decode(&[0u8, 0u8, 0u8]), None);
    assert_eq!(ModelPoint::decode(&[0u8, 0u8, 0u8, 0u8, 0u8]), None);
    // coordinate at and above the order
    assert_eq!(ModelPoint::decode(&[2u8, 0u8, 13u8]), None);
    assert_eq!(ModelPoint::decode(&[2u8, 255u8, 255u8]), None);
    assert_eq!(ModelPoint::decode(&[4u8, 255u8, 255u8, 0u8, 1u8]), None);
    // wrong parity tag for a valid coordinate (x = 5 has even y)
    assert_eq!(ModelPoint::decode(&[3u8, 0u8, 5u8]), None);
    // uncompressed with a wrong companion coordinate (x = 4 needs y = 3)
    assert_eq!(ModelPoint::decode(&[4u8, 0u8, 4u8, 0u8, 5u8]), None);
}

#[test]
fn generator_path_points_are_valid() {
    for v in 0..MODEL_ORDER {
        let s = ModelScalar::new(v);
        let p = <ModelScalar as Multiplicative<CurveGenerator>>::mul(&s, &CurveGenerator);
        assert!(p.is_on_curve());
        assert!(p.is_torsion_free());
    }
}

#[test]
fn identity_checks() {
    assert!(ModelScalar::is_zero(&ModelScalar::zero()));
    assert!(!ModelScalar::is_zero(&ModelScalar::one()));
    assert!(ModelScalar::is_one(&ModelScalar::one()));
    assert!(!ModelScalar::is_one(&ModelScalar::zero()));
    assert!(ModelPoint::is_zero(&ModelPoint::zero()));
    assert!(!ModelPoint::is_zero(&ModelPoint::new(3)));
}

/// A deterministic counter source, standing in for a seeded generator.
struct CountingSource {
    state: u32,
}

impl EntropySource for CountingSource {
    fn next_u32(&mut self) -> u32 {
        self.state = self.state.wrapping_mul(1664525).wrapping_add(1013904223);
        self.state
    }
}

#[test]
fn sampling_is_deterministic_for_equal_seeds() {
    let mut a = CountingSource { state: 42 };
    let mut b = CountingSource { state: 42 };
    for _ in 0..32 {
        let sa = <ModelScalar as Samplable>::random(&mut a);
        let sb = <ModelScalar as Samplable>::random(&mut b);
        assert_eq!(sa, sb);
    }
}

#[test]
fn sampling_stays_in_the_field() {
    let mut src = CountingSource { state: 7 };
    for _ in 0..64 {
        let s = <ModelScalar as Samplable>::random(&mut src);
        assert!(s.as_u64() < MODEL_ORDER);
    }
}

#[test]
fn from_uniform_is_wide_reduction() {
    assert_eq!(ModelScalar::from_uniform(0).as_u64(), 0);
    assert_eq!(ModelScalar::from_uniform(13).as_u64(), 0);
    assert_eq!(ModelScalar::from_uniform(27).as_u64(), 1);
    assert_eq!(ModelScalar::from_uniform(u32::MAX).as_u64(), (u32::MAX as u64) % MODEL_ORDER);
}

#[test]
fn secure_erase_zeroes_values() {
    let mut s = ModelScalar::new(11);
    s.erase();
    assert!(ModelScalar::is_zero(&s));
    let mut p = ModelPoint::new(7);
    p.erase();
    assert!(ModelPoint::is_zero(&p));
}

#[test]
fn default_is_the_identity() {
    assert_eq!(ModelScalar::default(), ModelScalar::zero());
    assert_eq!(ModelPoint::default(), ModelPoint::zero());
}

#[test]
fn curve_contract_name() {
    assert_eq!(<ModelCurve as Curve>::curve_name(), "model13");
}

/// Protocol code written once against the contract: a key agreement
/// where each side multiplies the other's public point by its own
/// scalar must end at the same point, over any conforming curve.
fn key_agreement_succeeds<E: Curve>(sa: E::Scalar, sb: E::Scalar) -> bool {
    let ga = <E::Scalar as Multiplicative<CurveGenerator>>::mul(&sa, &CurveGenerator);
    let gb = <E::Scalar as Multiplicative<CurveGenerator>>::mul(&sb, &CurveGenerator);
    let ka = <E::Scalar as Multiplicative<E::Point>>::mul(&sa, &gb);
    let kb = <E::Scalar as Multiplicative<E::Point>>::mul(&sb, &ga);
    ka == kb
}

#[test]
fn generic_key_agreement_over_the_contract() {
    for a in 1..MODEL_ORDER {
        for b in 1..MODEL_ORDER {
            assert!(key_agreement_succeeds::<ModelCurve>(
                ModelScalar::new(a),
                ModelScalar::new(b)
            ));
        }
    }
}
