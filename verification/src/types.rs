//! The encode/decode contract that generic logs require of their value type.

use vstd::prelude::*;

verus! {

/// A value type that a generic log can store.  Encoding is a pure function
/// of the value; decoding is total over bytes and undoes encoding, stated
/// over the type's abstraction (its view).
pub trait Type: View + Sized {
    /// The byte encoding of the value.
    spec fn encode_spec(&self) -> Seq<u8>;

    /// The abstraction of the value that the given bytes decode to.
    spec fn decode_spec(bytes: Seq<u8>) -> Self::V;

    /// Decoding an encoding yields the encoded value's abstraction back.
    proof fn lemma_round_trip(&self)
        ensures
            Self::decode_spec(self.encode_spec()) == self@,
    ;

    /// Returns the number of bytes the encoding takes.
    fn encoded_len(&self) -> (r: usize)
        ensures
            r == self.encode_spec().len(),
    ;

    /// Encodes the value to bytes.
    fn encode(&self) -> (r: Vec<u8>)
        ensures
            r@ == self.encode_spec(),
    ;

    /// Decodes a value from bytes.  Total: bytes that no encoding produces
    /// decode to a type-chosen fallback.
    fn decode(bytes: &[u8]) -> (r: Self)
        ensures
            r@ == Self::decode_spec(bytes@),
    ;
}

impl Type for u64 {
    /// Eight bytes, little-endian.
    open spec fn encode_spec(&self) -> Seq<u8> {
        vstd::bytes::spec_u64_to_le_bytes(*self)
    }

    /// The little-endian reading of eight bytes; zero for any other length.
    open spec fn decode_spec(bytes: Seq<u8>) -> u64 {
        if bytes.len() == 8 {
            vstd::bytes::spec_u64_from_le_bytes(bytes)
        } else {
            0
        }
    }

    proof fn lemma_round_trip(&self) {
        vstd::bytes::lemma_auto_spec_u64_to_from_le_bytes();
    }

    fn encoded_len(&self) -> (r: usize) {
        proof {
            vstd::bytes::lemma_auto_spec_u64_to_from_le_bytes();
        }
        8
    }

    fn encode(&self) -> (r: Vec<u8>) {
        vstd::bytes::u64_to_le_bytes(*self)
    }

    fn decode(bytes: &[u8]) -> (r: Self) {
        if bytes.len() == 8 {
            vstd::bytes::u64_from_le_bytes(bytes)
        } else {
            0
        }
    }
}

impl Type for Vec<u8> {
    /// The bytes themselves.
    open spec fn encode_spec(&self) -> Seq<u8> {
        self@
    }

    /// The bytes themselves.
    open spec fn decode_spec(bytes: Seq<u8>) -> Seq<u8> {
        bytes
    }

    proof fn lemma_round_trip(&self) {
    }

    fn encoded_len(&self) -> (r: usize) {
        self.len()
    }

    fn encode(&self) -> (r: Vec<u8>) {
        let mut out: Vec<u8> = Vec::new();
        out.extend_from_slice(self.as_slice());
        proof {
            assert(out@ =~= self@);
        }
        out
    }

    fn decode(bytes: &[u8]) -> (r: Self) {
        let mut out: Vec<u8> = Vec::new();
        out.extend_from_slice(bytes);
        proof {
            assert(out@ =~= bytes@);
        }
        out
    }
}

} // verus!
