//! The read path: id check, bounds check, optional checksum verification,
//! zero-copy access into the arena.

use vstd::prelude::*;
use crate::arena::{Arena, ArenaView};
use crate::checksum::{crc32, crc32_of};
use crate::error::Error;
use crate::log::common::{log_wf, Log};
use crate::options::Options;
use crate::types::Type;

verus! {

/// What reading `len` payload bytes at `offset`, with expected log id `id`,
/// returns from a log whose arena is `a`, whose options are `opts` and whose
/// id is `fid`.  The checks run in this order: id, empty read, bounds,
/// checksum.
pub open spec fn read_result(
    a: ArenaView,
    opts: Options,
    fid: u32,
    id: u32,
    offset: u32,
    len: u32,
) -> Result<Seq<u8>, Error> {
    if id != fid {
        Err(Error::IdMismatch)
    } else if len == 0 {
        Ok(Seq::empty())
    } else if offset < a.data_offset || offset + len + 8 > a.allocated {
        Err(Error::OutOfBounds {
            offset,
            len: (len + 8) as u32,
            data_offset: a.data_offset as u32,
            end_offset: a.allocated as u32,
        })
    } else {
        let payload = a.bytes.subrange(offset as int, offset + len);
        let stored = vstd::bytes::spec_u64_from_le_bytes(
            a.bytes.subrange(offset + len, offset + len + 8),
        );
        if opts.validate_checksum && stored != crc32_of(payload) {
            Err(Error::ChecksumMismatch)
        } else {
            Ok(payload)
        }
    }
}

/// The shared read path of every log flavour.
pub(crate) fn read_in<'a>(
    arena: &'a Arena,
    opts: &Options,
    fid: u32,
    id: u32,
    offset: u32,
    len: u32,
) -> (r: Result<&'a [u8], Error>)
    requires
        arena@.wf(),
    ensures
        match (r, read_result(arena@, *opts, fid, id, offset, len)) {
            (Ok(b), Ok(s)) => b@ == s,
            (Err(e), Err(m)) => e == m,
            _ => false,
        },
{
    if id != fid {
        return Err(Error::IdMismatch);
    }
    if len == 0 {
        return Ok(arena.read_at(0, 0));
    }
    let data_offset = arena.data_offset();
    let allocated = arena.allocated();
    let total: u64 = len as u64 + 8;
    if (offset as u64) < data_offset as u64 || offset as u64 + total > allocated as u64 {
        return Err(Error::out_of_bounds(offset, total as u32, data_offset, allocated));
    }
    let record = arena.read_at(offset, len + 8);
    let payload = vstd::slice::slice_subrange(record, 0, len as usize);
    proof {
        assert(payload@ =~= arena@.bytes.subrange(offset as int, offset + len));
    }
    if opts.validate_checksum() {
        let stored_bytes = vstd::slice::slice_subrange(record, len as usize, len as usize + 8);
        proof {
            assert(stored_bytes@ =~= arena@.bytes.subrange(offset + len, offset + len + 8));
        }
        let stored = vstd::bytes::u64_from_le_bytes(stored_bytes);
        let digest = crc32(payload);
        if stored != digest {
            return Err(Error::checksum_mismatch());
        }
    }
    Ok(payload)
}

/// The value log reader abstraction.
pub trait LogReader: Log {
    /// Reads a value from the log: id check, empty read, bounds check,
    /// optional checksum verification, then the zero-copy payload.
    fn read(&self, id: u32, offset: u32, len: u32) -> (r: Result<&[u8], Error>)
        requires
            log_wf(self.arena_spec()@, self.options_spec()),
        ensures
            match (
                r,
                read_result(self.arena_spec()@, self.options_spec(), self.id_spec(), id, offset, len),
            ) {
                (Ok(b), Ok(s)) => b@ == s,
                (Err(e), Err(m)) => e == m,
                _ => false,
            },
    ;
}

/// Extension methods for [`LogReader`].
pub trait LogReaderExt: LogReader {
    /// Reads a value from the log and decodes it as a `T`.
    fn read_generic<T: Type>(&self, id: u32, offset: u32, len: u32) -> (r: Result<T, Error>)
        requires
            log_wf(self.arena_spec()@, self.options_spec()),
        ensures
            match (
                r,
                read_result(self.arena_spec()@, self.options_spec(), self.id_spec(), id, offset, len),
            ) {
                (Ok(v), Ok(s)) => v@ == T::decode_spec(s),
                (Err(e), Err(m)) => e == m,
                _ => false,
            },
    ;
}

impl<L: LogReader> LogReaderExt for L {
    fn read_generic<T: Type>(&self, id: u32, offset: u32, len: u32) -> (r: Result<T, Error>) {
        match self.read(id, offset, len) {
            Ok(bytes) => Ok(T::decode(bytes)),
            Err(e) => Err(e),
        }
    }
}

/// The generic value log reader abstraction.
pub trait GenericLogReader: Log {
    /// The value type stored in the log.
    type Type: Type;

    /// Reads a value from the log and decodes it.
    fn read(&self, id: u32, offset: u32, len: u32) -> (r: Result<Self::Type, Error>)
        requires
            log_wf(self.arena_spec()@, self.options_spec()),
        ensures
            match (
                r,
                read_result(self.arena_spec()@, self.options_spec(), self.id_spec(), id, offset, len),
            ) {
                (Ok(v), Ok(s)) => v@ == <Self::Type as Type>::decode_spec(s),
                (Err(e), Err(m)) => e == m,
                _ => false,
            },
    ;
}

} // verus!
