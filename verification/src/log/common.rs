//! Well-formedness of a log and the common read-only capabilities.

use vstd::prelude::*;
use crate::arena::{ArenaView, HEADER_SIZE};
use crate::checksum::crc32_of;
use crate::log::sealed::Sealed;
use crate::log::Mutable;
use crate::options::Options;

verus! {

/// The version of the arena layout itself, as opposed to the caller-chosen
/// magic version.
pub const CURRENT_VERSION: u16 = 0;

/// A log is well formed when its arena is, and the arena's record region
/// starts right after the header and the caller-reserved prefix.
pub open spec fn log_wf(a: ArenaView, opts: Options) -> bool {
    &&& a.wf()
    &&& a.data_offset == HEADER_SIZE + opts.reserved
}

/// The read-only capabilities common to every log flavour.
pub trait Log: Sealed {
    /// Returns the caller-assigned id of the log.
    fn id(&self) -> (r: u32)
        ensures
            r == self.id_spec(),
    ;

    /// Calculates the checksum that the log stores after a payload.
    fn checksum(&self, bytes: &[u8]) -> (r: u64)
        ensures
            r == crc32_of(bytes@),
    ;

    /// Returns the options of the log.
    fn options(&self) -> (r: &Options)
        ensures
            *r == self.options_spec(),
    ;

    /// Returns the magic version that the log's header carries.
    fn magic_version(&self) -> (r: u16)
        ensures
            r == self.options_spec().magic_version,
    ;

    /// Returns the version of the arena layout itself.
    fn version(&self) -> (r: u16)
        ensures
            r == CURRENT_VERSION,
    ;

    /// Returns the advisory count of discarded payload bytes.
    fn discarded(&self) -> (r: u32)
        ensures
            r == self.arena_spec()@.discarded,
    ;

    /// Returns the data offset of the log: the first byte of the record
    /// region.
    fn data_offset(&self) -> (r: usize)
        ensures
            r == self.arena_spec()@.data_offset,
    ;

    /// Borrows the caller-reserved region that follows the header.
    fn reserved_slice(&self) -> (r: &[u8])
        requires
            log_wf(self.arena_spec()@, self.options_spec()),
        ensures
            r@ == self.arena_spec()@.bytes.subrange(
                HEADER_SIZE as int,
                HEADER_SIZE + self.options_spec().reserved,
            ),
    ;
}

/// Extension methods for [`Log`].
pub trait LogExt: Log {
    /// Copies the log's allocated prefix — header, reserved region and every
    /// record written so far — to the end of `out`.
    fn flush_to(&self, out: &mut Vec<u8>)
        requires
            log_wf(self.arena_spec()@, self.options_spec()),
        ensures
            final(out)@ == old(out)@ + self.arena_spec()@.bytes.subrange(
                0,
                self.arena_spec()@.allocated,
            ),
    ;
}

impl<L: Log> LogExt for L {
    fn flush_to(&self, out: &mut Vec<u8>) {
        let arena = self.allocator();
        let bytes = arena.read_at(0, arena.allocated());
        let ghost out0 = out@;
        let n: usize = bytes.len();
        let mut i: usize = 0;
        while i < n
            invariant
                i <= n == bytes@.len(),
                out@ == out0 + bytes@.subrange(0, i as int),
            decreases n - i,
        {
            out.push(*vstd::slice::slice_index_get(bytes, i));
            proof {
                assert(out@ =~= out0 + bytes@.subrange(0, i + 1));
            }
            i = i + 1;
        }
        proof {
            assert(out@ =~= out0 + bytes@);
        }
    }
}

/// The mutable capabilities beyond inserting.
pub trait MutableLog: Log + Mutable {
    /// Overwrites the start of the caller-reserved region with `data`.
    fn write_reserved_slice(&mut self, data: &[u8])
        requires
            log_wf(old(self).arena_spec()@, old(self).options_spec()),
            data@.len() <= old(self).options_spec().reserved,
        ensures
            log_wf(final(self).arena_spec()@, final(self).options_spec()),
            final(self).id_spec() == old(self).id_spec(),
            final(self).options_spec() == old(self).options_spec(),
            final(self).arena_spec()@.allocated == old(self).arena_spec()@.allocated,
            final(self).arena_spec()@.discarded == old(self).arena_spec()@.discarded,
            final(self).arena_spec()@.bytes == old(self).arena_spec()@.bytes.subrange(
                0,
                HEADER_SIZE as int,
            ) + data@ + old(self).arena_spec()@.bytes.subrange(
                HEADER_SIZE + data@.len(),
                old(self).arena_spec()@.capacity(),
            ),
    ;
}

} // verus!
