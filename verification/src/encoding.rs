//! Encoding capabilities.
//!
//! Scalars serialize as fixed-width big-endian or little-endian integers;
//! points serialize compressed (one coordinate plus a disambiguating tag)
//! or uncompressed (both coordinates).  The byte meaning of an integer is
//! fixed here by the spec functions [`be_bytes`]/[`be_value`] and
//! [`le_bytes`]/[`le_value`], and exact decoding is proved to invert
//! encoding for every residue that fits the width.

use vstd::prelude::*;

verus! {

use vstd::arithmetic::div_mod::lemma_fundamental_div_mod;
use vstd::arithmetic::div_mod::lemma_multiply_divide_lt;
use vstd::arithmetic::power::pow;
use crate::algebra::Element;
use crate::bytes::ByteArray;

/// The `w`-byte big-endian serialization of `v` (least significant last).
pub open spec fn be_bytes(v: nat, w: nat) -> Seq<u8>
    decreases w,
{
    if w == 0 {
        Seq::empty()
    } else {
        be_bytes(v / 256, (w - 1) as nat).push((v % 256) as u8)
    }
}

/// The integer a big-endian byte string stands for.
pub open spec fn be_value(b: Seq<u8>) -> nat
    decreases b.len(),
{
    if b.len() == 0 {
        0
    } else {
        be_value(b.drop_last()) * 256 + (b.last() as nat)
    }
}

/// The `w`-byte little-endian serialization of `v` (least significant first).
pub open spec fn le_bytes(v: nat, w: nat) -> Seq<u8>
    decreases w,
{
    if w == 0 {
        Seq::empty()
    } else {
        seq![(v % 256) as u8].add(le_bytes(v / 256, (w - 1) as nat))
    }
}

/// The integer a little-endian byte string stands for.
pub open spec fn le_value(b: Seq<u8>) -> nat
    decreases b.len(),
{
    if b.len() == 0 {
        0
    } else {
        (b[0] as nat) + 256 * le_value(b.subrange(1, b.len() as int))
    }
}

/// A big-endian serialization has exactly the requested width.
pub proof fn lemma_be_bytes_len(v: nat, w: nat)
    ensures
        be_bytes(v, w).len() == w,
    decreases w,
{
    if w > 0 {
        lemma_be_bytes_len(v / 256, (w - 1) as nat);
    }
}

/// A little-endian serialization has exactly the requested width.
pub proof fn lemma_le_bytes_len(v: nat, w: nat)
    ensures
        le_bytes(v, w).len() == w,
    decreases w,
{
    if w > 0 {
        lemma_le_bytes_len(v / 256, (w - 1) as nat);
    }
}

/// Reading back a `w`-byte big-endian serialization recovers the
/// integer, for every integer that fits in `w` bytes.
pub proof fn lemma_be_round_trip(v: nat, w: nat)
    requires
        v < pow(256, w),
    ensures
        be_value(be_bytes(v, w)) == v,
    decreases w,
{
    reveal(pow);
    if w == 0 {
        assert(pow(256, 0) == 1);
    } else {
        let rest = be_bytes(v / 256, (w - 1) as nat);
        let s = rest.push((v % 256) as u8);
        assert(s.drop_last() =~= rest);
        assert(pow(256, w) == 256 * pow(256, (w - 1) as nat));
        lemma_multiply_divide_lt(v as int, 256, pow(256, (w - 1) as nat));
        lemma_be_round_trip(v / 256, (w - 1) as nat);
        lemma_fundamental_div_mod(v as int, 256);
    }
}

/// Reading back a `w`-byte little-endian serialization recovers the
/// integer, for every integer that fits in `w` bytes.
pub proof fn lemma_le_round_trip(v: nat, w: nat)
    requires
        v < pow(256, w),
    ensures
        le_value(le_bytes(v, w)) == v,
    decreases w,
{
    reveal(pow);
    if w == 0 {
        assert(pow(256, 0) == 1);
    } else {
        let rest = le_bytes(v / 256, (w - 1) as nat);
        let s = seq![(v % 256) as u8].add(rest);
        lemma_le_bytes_len(v / 256, (w - 1) as nat);
        assert(s.subrange(1, s.len() as int) =~= rest);
        assert(pow(256, w) == 256 * pow(256, (w - 1) as nat));
        lemma_multiply_divide_lt(v as int, 256, pow(256, (w - 1) as nat));
        lemma_le_round_trip(v / 256, (w - 1) as nat);
        lemma_fundamental_div_mod(v as int, 256);
    }
}

/// Fixed-width integer serialization of a scalar, big- and little-endian,
/// with a lenient decoder (reduces out-of-range values modulo the order)
/// and a strict decoder (returns nothing unless the bytes are the
/// canonical serialization of an in-range residue).
pub trait IntegerEncoding: Element {
    type Bytes: ByteArray;

    /// The width is large enough to hold every residue of the field.
    proof fn lemma_width_fits()
        ensures
            Self::order() <= pow(256, <Self::Bytes as ByteArray>::width()),
    ;

    fn to_be_bytes(&self) -> (r: Self::Bytes)
        requires
            self.wf(),
        ensures
            r.bytes() == be_bytes(self.value(), <Self::Bytes as ByteArray>::width()),
    ;

    fn to_le_bytes(&self) -> (r: Self::Bytes)
        requires
            self.wf(),
        ensures
            r.bytes() == le_bytes(self.value(), <Self::Bytes as ByteArray>::width()),
    ;

    fn from_be_bytes(bytes: &Self::Bytes) -> (r: Self)
        ensures
            r.wf(),
            r.value() == be_value(bytes.bytes()) % Self::order(),
    ;

    fn from_le_bytes(bytes: &Self::Bytes) -> (r: Self)
        ensures
            r.wf(),
            r.value() == le_value(bytes.bytes()) % Self::order(),
    ;

    fn from_be_bytes_exact(bytes: &Self::Bytes) -> (r: Option<Self>)
        ensures
            be_value(bytes.bytes()) < Self::order() ==> (r matches Some(s) && s.wf() && s.value()
                == be_value(bytes.bytes())),
            be_value(bytes.bytes()) >= Self::order() ==> r is None,
    ;

    fn from_le_bytes_exact(bytes: &Self::Bytes) -> (r: Option<Self>)
        ensures
            le_value(bytes.bytes()) < Self::order() ==> (r matches Some(s) && s.wf() && s.value()
                == le_value(bytes.bytes())),
            le_value(bytes.bytes()) >= Self::order() ==> r is None,
    ;
}

/// Strict decoding inverts fixed-width integer encoding: for every
/// residue of the field, the big- and little-endian serializations read
/// back as exactly that residue, so the strict decoders are owed success
/// on every encoder output.
pub proof fn lemma_integer_encoding_round_trip<T: IntegerEncoding>(v: nat)
    requires
        v < T::order(),
    ensures
        be_value(be_bytes(v, <T::Bytes as ByteArray>::width())) == v,
        le_value(le_bytes(v, <T::Bytes as ByteArray>::width())) == v,
{
    T::lemma_width_fits();
    lemma_be_round_trip(v, <T::Bytes as ByteArray>::width());
    lemma_le_round_trip(v, <T::Bytes as ByteArray>::width());
}

/// Compressed point serialization: fixed-width bytes holding one
/// coordinate and a disambiguating tag.
pub trait CompressedEncoding: Element {
    type Bytes: ByteArray;

    /// The canonical compressed serialization of the element.
    spec fn compressed_spec(self) -> Seq<u8>;

    fn to_bytes_compressed(&self) -> (r: Self::Bytes)
        requires
            self.wf(),
        ensures
            r.bytes() == self.compressed_spec(),
    ;
}

/// Uncompressed point serialization: fixed-width bytes holding both
/// coordinates directly.
pub trait UncompressedEncoding: Element {
    type Bytes: ByteArray;

    /// The canonical uncompressed serialization of the element.
    spec fn uncompressed_spec(self) -> Seq<u8>;

    fn to_bytes_uncompressed(&self) -> (r: Self::Bytes)
        requires
            self.wf(),
        ensures
            r.bytes() == self.uncompressed_spec(),
    ;
}

/// Generic decoding of an arbitrary byte slice, with validation.
///
/// The decoder is total: adversarial input of any length is answered
/// with `None`, never a fault, and a returned value is always valid.
pub trait Decode: Element {
    /// Which byte strings decode, and to what.
    spec fn decode_spec(bytes: Seq<u8>) -> Option<Self>;

    /// Decoding yields only well-formed values, on every input.
    proof fn lemma_decode_wf(bytes: Seq<u8>)
        ensures
            Self::decode_spec(bytes) matches Some(v) ==> v.wf(),
    ;

    fn decode(bytes: &[u8]) -> (r: Option<Self>)
        ensures
            r == Self::decode_spec(bytes@),
    ;
}

} // verus!
