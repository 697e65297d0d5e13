//! The checksum that frames every record.

use vstd::prelude::*;

verus! {

/// The digest that [`crc32`] returns for the given bytes: the CRC32 of the
/// bytes, zero-extended to 64 bits.  The digest depends on the bytes alone,
/// so equal byte sequences always carry equal digests.
pub uninterp spec fn crc32_of(bytes: Seq<u8>) -> u64;

/// Relies on `dbutils::checksum::Crc32` (its `BuildChecksumer::checksum_one`
/// computes `crc32fast::hash(src) as u64`): the digest is a pure function of
/// the input bytes.
#[verifier::external_body]
pub(crate) fn crc32(bytes: &[u8]) -> (r: u64)
    ensures
        r == crc32_of(bytes@),
{
    dbutils::checksum::BuildChecksumer::checksum_one(&dbutils::checksum::Crc32::new(), bytes)
}

} // verus!
