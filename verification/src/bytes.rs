//! Fixed-length byte buffers.
//!
//! Point and scalar serializations are fixed-width byte strings.  The
//! [`ByteArray`] capability unifies the buffer types a curve may pick:
//! a buffer can be built all-zero, read byte by byte, and overwritten
//! byte by byte, and its width is a constant of the type.

use vstd::prelude::*;

verus! {

broadcast use vstd::array::group_array_axioms;

/// A fixed-length, independently addressable byte buffer.
pub trait ByteArray: Sized + Clone + Send + Sync + 'static {
    /// The bytes held, as a sequence.
    spec fn bytes(self) -> Seq<u8>;

    /// The fixed width of the buffer, in bytes.
    spec fn width() -> nat;

    /// Every value of the type holds exactly `width()` bytes.
    proof fn lemma_width(self)
        ensures
            self.bytes().len() == Self::width(),
    ;

    /// New byte array of zeroes.
    fn zeroes() -> (r: Self)
        ensures
            r.bytes() == Seq::new(Self::width(), |i: int| 0u8),
    ;

    /// Read the byte at position `i`.
    fn byte_at(&self, i: usize) -> (r: u8)
        requires
            (i as nat) < Self::width(),
        ensures
            r == self.bytes()[i as int],
    ;

    /// The whole buffer, as a read slice.
    fn as_bytes(&self) -> (r: &[u8])
        ensures
            r@ == self.bytes(),
    ;

    /// Overwrite the byte at position `i`.
    fn set_byte(&mut self, i: usize, v: u8)
        requires
            (i as nat) < Self::width(),
        ensures
            final(self).bytes() == old(self).bytes().update(i as int, v),
    ;
}

impl<const N: usize> ByteArray for [u8; N] {
    open spec fn bytes(self) -> Seq<u8> {
        self@
    }

    open spec fn width() -> nat {
        N as nat
    }

    proof fn lemma_width(self) {
    }

    fn zeroes() -> (r: Self) {
        let r: [u8; N] = [0u8; N];
        proof {
            assert(r@ =~= Seq::new(N as nat, |i: int| 0u8));
        }
        r
    }

    fn byte_at(&self, i: usize) -> (r: u8) {
        self[i]
    }

    fn as_bytes(&self) -> (r: &[u8]) {
        self.as_slice()
    }

    fn set_byte(&mut self, i: usize, v: u8) {
        self[i] = v;
    }
}

} // verus!
