use generic_ec_core::bytes::ByteArray;
use generic_ec_core::rust_crypto::RustCryptoCurve;
use generic_ec_core::rust_crypto::Secp256k1Curve;
use generic_ec_core::rust_crypto::Secp256r1;
use generic_ec_core::rust_crypto::Stark;
use generic_ec_core::rust_crypto::XmdSha256;

#[test]
fn adapter_values_are_all_equal() {
    let a = Secp256k1Curve::new();
    let b = Secp256k1Curve::default();
    assert!(a == b);
    assert!(a == b.clone());
}

#[test]
fn adapter_orders_equal() {
    let a = Secp256r1::new();
    let b = Secp256r1::new();
    assert_eq!(a.partial_cmp(&b), Some(core::cmp::Ordering::Equal));
    assert!(!(a < b));
    assert!(a <= b);
}

#[test]
fn adapter_curve_names() {
    assert_eq!(Secp256k1Curve::curve_name(), "secp256k1");
    assert_eq!(Secp256r1::curve_name(), "secp256r1");
    assert_eq!(Stark::curve_name(), "stark");
}

#[test]
fn adapter_works_for_any_engine_pairing() {
    // The strategy parameter is type-level only; pairing the same engine
    // with the same strategy through the generic type gives the same
    // adapter as the alias.
    let a: RustCryptoCurve<k256::Secp256k1, XmdSha256> = RustCryptoCurve::new();
    let b = Secp256k1Curve::new();
    assert!(a == b);
}

#[test]
fn byte_arrays_start_zeroed() {
    let b = <[u8; 4] as ByteArray>::zeroes();
    assert_eq!(b, [0u8; 4]);
    let c = <[u8; 33] as ByteArray>::zeroes();
    assert!(c.iter().all(|x| *x == 0));
}

#[test]
fn byte_arrays_read_and_write() {
    let mut b = <[u8; 3] as ByteArray>::zeroes();
    b.set_byte(1, 0xab);
    assert_eq!(b.byte_at(0), 0);
    assert_eq!(b.byte_at(1), 0xab);
    assert_eq!(b, [0u8, 0xab, 0u8]);
}
