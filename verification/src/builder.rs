//! The builder that assembles a log: fresh in memory, or reopened from
//! previously written bytes.

use vstd::prelude::*;
use crate::arena::{check_header, header_ok, spec_magic_text, write_header, Arena, HEADER_SIZE,
    MAGIC_TEXT_SIZE};
use crate::error::{sat_u32, Error};
use crate::log::common::log_wf;
use crate::log::reader::read_result;
use crate::log::{ImmutableValueLog, ValueLog};
use crate::options::{Freelist, Options};

verus! {

/// The builder to build a log.
#[derive(Debug, Clone, Copy, PartialEq, Eq, Structural)]
pub struct Builder {
    /// The options being assembled.
    pub opts: Options,
}

impl Builder {
    /// Creates a new builder with the default options.
    #[inline]
    pub fn new() -> (r: Self)
        ensures
            r.opts == Options::spec_new(),
    {
        Builder { opts: Options::new() }
    }

    /// Replaces the whole option set.
    #[inline]
    pub fn with_options(self, opts: Options) -> (r: Self)
        ensures
            r.opts == opts,
    {
        Builder { opts }
    }

    /// Sets the reserved bytes of the log.
    #[inline]
    pub fn with_reserved(self, reserved: u32) -> (r: Self)
        ensures
            r.opts == (Options { reserved, ..self.opts }),
    {
        Builder { opts: self.opts.with_reserved(reserved) }
    }

    /// Sets whether data is flushed to disk as soon as a value is inserted.
    #[inline]
    pub fn with_sync(self, sync: bool) -> (r: Self)
        ensures
            r.opts == (Options { sync, ..self.opts }),
    {
        Builder { opts: self.opts.with_sync(sync) }
    }

    /// Sets whether the checksum of a value is validated when reading it.
    #[inline]
    pub fn with_validate_checksum(self, validate_checksum: bool) -> (r: Self)
        ensures
            r.opts == (Options { validate_checksum, ..self.opts }),
    {
        Builder { opts: self.opts.with_validate_checksum(validate_checksum) }
    }

    /// Sets whether the first page of the log is locked in memory.
    #[inline]
    pub fn with_lock_meta(self, lock_meta: bool) -> (r: Self)
        ensures
            r.opts == (Options { lock_meta, ..self.opts }),
    {
        Builder { opts: self.opts.with_lock_meta(lock_meta) }
    }

    /// Sets the magic version of the value log.
    #[inline]
    pub fn with_magic_version(self, magic_version: u16) -> (r: Self)
        ensures
            r.opts == (Options { magic_version, ..self.opts }),
    {
        Builder { opts: self.opts.with_magic_version(magic_version) }
    }

    /// Sets the freelist kind of the value log.
    #[inline]
    pub fn with_freelist(self, freelist: Freelist) -> (r: Self)
        ensures
            r.opts == (Options { freelist, ..self.opts }),
    {
        Builder { opts: self.opts.with_freelist(freelist) }
    }

    /// Sets whether in-memory logs also carry the magic header.
    #[inline]
    pub fn with_unify(self, unify: bool) -> (r: Self)
        ensures
            r.opts == (Options { unify, ..self.opts }),
    {
        Builder { opts: self.opts.with_unify(unify) }
    }

    /// Sets the maximum size of a record (payload plus trailing checksum).
    #[inline]
    pub fn with_maximum_value_size(self, size: u32) -> (r: Self)
        ensures
            r.opts == (Options { max_value_size: size, ..self.opts }),
    {
        Builder { opts: self.opts.with_maximum_value_size(size) }
    }

    /// Sets the capacity of the underlying arena.
    #[inline]
    pub fn with_capacity(self, capacity: u32) -> (r: Self)
        ensures
            r.opts == (Options { capacity: Some(capacity), ..self.opts }),
    {
        Builder { opts: self.opts.with_capacity(capacity) }
    }

    /// Sets the option for read access.
    #[inline]
    pub fn with_read(self, read: bool) -> (r: Self)
        ensures
            r.opts == (Options { read, ..self.opts }),
    {
        Builder { opts: self.opts.with_read(read) }
    }

    /// Sets the option for write access.
    #[inline]
    pub fn with_write(self, write: bool) -> (r: Self)
        ensures
            r.opts == (Options { write, ..self.opts }),
    {
        Builder { opts: self.opts.with_write(write) }
    }

    /// Sets the option for creating the file if it does not exist.
    #[inline]
    pub fn with_create(self, create: bool) -> (r: Self)
        ensures
            r.opts == (Options { create, ..self.opts }),
    {
        Builder { opts: self.opts.with_create(create) }
    }

    /// Sets the option for failing if the file already exists.
    #[inline]
    pub fn with_create_new(self, create_new: bool) -> (r: Self)
        ensures
            r.opts == (Options { create_new, ..self.opts }),
    {
        Builder { opts: self.opts.with_create_new(create_new) }
    }

    /// Sets the option for append mode; implies write access.
    #[inline]
    pub fn with_append(self, append: bool) -> (r: Self)
        ensures
            r.opts == (Options { write: true, append, ..self.opts }),
    {
        Builder { opts: self.opts.with_append(append) }
    }

    /// Sets the option for truncating the file on open; implies write access.
    #[inline]
    pub fn with_truncate(self, truncate: bool) -> (r: Self)
        ensures
            r.opts == (Options { write: true, truncate, ..self.opts }),
    {
        Builder { opts: self.opts.with_truncate(truncate) }
    }

    /// Sets the byte offset at which the file is mapped.
    #[inline]
    pub fn with_offset(self, offset: u64) -> (r: Self)
        ensures
            r.opts == (Options { offset, ..self.opts }),
    {
        Builder { opts: self.opts.with_offset(offset) }
    }

    /// Sets the option for stack-style mappings.
    #[inline]
    pub fn with_stack(self, stack: bool) -> (r: Self)
        ensures
            r.opts == (Options { stack, ..self.opts }),
    {
        Builder { opts: self.opts.with_stack(stack) }
    }

    /// Sets the requested huge-page size exponent.
    #[inline]
    pub fn with_huge(self, huge: Option<u8>) -> (r: Self)
        ensures
            r.opts == (Options { huge, ..self.opts }),
    {
        Builder { opts: self.opts.with_huge(huge) }
    }

    /// Sets the option for populating the mapping eagerly.
    #[inline]
    pub fn with_populate(self, populate: bool) -> (r: Self)
        ensures
            r.opts == (Options { populate, ..self.opts }),
    {
        Builder { opts: self.opts.with_populate(populate) }
    }

    /// Returns the option for read access.
    #[inline]
    pub fn read(&self) -> (r: bool)
        ensures
            r == self.opts.read,
    {
        self.opts.read
    }

    /// Returns the option for write access.
    #[inline]
    pub fn write(&self) -> (r: bool)
        ensures
            r == self.opts.write,
    {
        self.opts.write
    }

    /// Returns the option for append mode.
    #[inline]
    pub fn append(&self) -> (r: bool)
        ensures
            r == self.opts.append,
    {
        self.opts.append
    }

    /// Returns the option for truncating the file on open.
    #[inline]
    pub fn truncate(&self) -> (r: bool)
        ensures
            r == self.opts.truncate,
    {
        self.opts.truncate
    }

    /// Returns the option for creating the file if it does not exist.
    #[inline]
    pub fn create(&self) -> (r: bool)
        ensures
            r == self.opts.create,
    {
        self.opts.create
    }

    /// Returns the option for failing if the file already exists.
    #[inline]
    pub fn create_new(&self) -> (r: bool)
        ensures
            r == self.opts.create_new,
    {
        self.opts.create_new
    }

    /// Returns the byte offset at which the file is mapped.
    #[inline]
    pub fn offset(&self) -> (r: u64)
        ensures
            r == self.opts.offset,
    {
        self.opts.offset
    }

    /// Returns the option for stack-style mappings.
    #[inline]
    pub fn stack(&self) -> (r: bool)
        ensures
            r == self.opts.stack,
    {
        self.opts.stack
    }

    /// Returns the requested huge-page size exponent.
    #[inline]
    pub fn huge(&self) -> (r: Option<u8>)
        ensures
            r == self.opts.huge,
    {
        self.opts.huge
    }

    /// Returns the option for populating the mapping eagerly.
    #[inline]
    pub fn populate(&self) -> (r: bool)
        ensures
            r == self.opts.populate,
    {
        self.opts.populate
    }

    /// Returns the reserved bytes of the log.
    #[inline]
    pub fn reserved(&self) -> (r: u32)
        ensures
            r == self.opts.reserved,
    {
        self.opts.reserved
    }

    /// Returns whether data is flushed to disk as soon as a value is inserted.
    #[inline]
    pub fn sync(&self) -> (r: bool)
        ensures
            r == self.opts.sync,
    {
        self.opts.sync
    }

    /// Returns whether the first page of the log is locked in memory.
    #[inline]
    pub fn lock_meta(&self) -> (r: bool)
        ensures
            r == self.opts.lock_meta,
    {
        self.opts.lock_meta
    }

    /// Returns the maximum size of a record (payload plus trailing checksum).
    #[inline]
    pub fn maximum_value_size(&self) -> (r: u32)
        ensures
            r == self.opts.max_value_size,
    {
        self.opts.max_value_size
    }

    /// Returns the configured capacity, or zero where none was set.
    #[inline]
    pub fn capacity(&self) -> (r: u32)
        ensures
            r == self.opts.spec_capacity(),
    {
        self.opts.capacity()
    }

    /// Returns whether in-memory logs also carry the magic header.
    #[inline]
    pub fn unify(&self) -> (r: bool)
        ensures
            r == self.opts.unify,
    {
        self.opts.unify
    }

    /// Returns the magic version of the value log.
    #[inline]
    pub fn magic_version(&self) -> (r: u16)
        ensures
            r == self.opts.magic_version,
    {
        self.opts.magic_version
    }

    /// Returns the freelist kind of the value log.
    #[inline]
    pub fn freelist(&self) -> (r: Freelist)
        ensures
            r == self.opts.freelist,
    {
        self.opts.freelist
    }

    /// Creates a new in-memory value log backed by a fresh, zero-filled
    /// arena of the configured capacity.  With `unify` set, the magic header
    /// is written; the record region is empty either way.
    pub fn alloc_log(self, fid: u32) -> (r: Result<ValueLog, Error>)
        ensures
            match r {
                Ok(log) => {
                    &&& HEADER_SIZE + self.opts.reserved <= self.opts.spec_capacity()
                    &&& log.wf()
                    &&& log.fid == fid
                    &&& log.options == self.opts
                    &&& log.arena@.capacity() == self.opts.spec_capacity()
                    &&& log.arena@.data_offset == HEADER_SIZE + self.opts.reserved
                    &&& log.arena@.allocated == log.arena@.data_offset
                    &&& log.arena@.discarded == 0
                    &&& (self.opts.unify ==> header_ok(log.arena@.bytes, self.opts.magic_version))
                    &&& forall|i: int|
                        HEADER_SIZE <= i < log.arena@.capacity() ==> log.arena@.bytes[i] == 0u8
                    &&& (!self.opts.unify ==> forall|i: int|
                        0 <= i < log.arena@.capacity() ==> log.arena@.bytes[i] == 0u8)
                },
                Err(e) => {
                    &&& HEADER_SIZE + self.opts.reserved > self.opts.spec_capacity()
                    &&& e == (Error::InsufficientSpace {
                        requested: sat_u32(HEADER_SIZE + self.opts.reserved),
                        available: self.opts.spec_capacity(),
                    })
                },
            },
    {
        let capacity = self.opts.capacity();
        let mut arena = match Arena::new(capacity, self.opts.reserved()) {
            Ok(a) => a,
            Err(e) => {
                return Err(e);
            },
        };
        if self.opts.unify() {
            let ghost before = arena@;
            write_header(&mut arena, self.opts.magic_version());
            proof {
                assert forall|i: int|
                    HEADER_SIZE <= i < arena@.capacity() implies arena@.bytes[i] == 0u8 by {
                    assert(arena@.bytes.subrange(HEADER_SIZE as int, arena@.capacity())[i
                        - HEADER_SIZE] == arena@.bytes[i]);
                    assert(before.bytes.subrange(HEADER_SIZE as int, before.capacity())[i
                        - HEADER_SIZE] == before.bytes[i]);
                }
            }
        }
        Ok(ValueLog::construct(fid, arena, self.opts))
    }

    /// Opens previously written bytes — the allocated prefix that
    /// `flush_to` emits — as a frozen, read-only log.  The header must carry
    /// the magic text and the configured magic version; everything up to the
    /// end of the bytes counts as allocated.
    pub fn open(self, data: Vec<u8>, fid: u32) -> (r: Result<ImmutableValueLog, Error>)
        requires
            data@.len() <= u32::MAX,
        ensures
            match r {
                Ok(log) => {
                    &&& data@.len() >= HEADER_SIZE + self.opts.reserved
                    &&& header_ok(data@, self.opts.magic_version)
                    &&& log.wf()
                    &&& log.fid == fid
                    &&& log.options == self.opts
                    &&& log.arena@.bytes == data@
                    &&& log.arena@.allocated == data@.len()
                    &&& log.arena@.data_offset == HEADER_SIZE + self.opts.reserved
                    &&& log.arena@.discarded == 0
                },
                Err(e) => {
                    &&& !(data@.len() >= HEADER_SIZE + self.opts.reserved && header_ok(
                        data@,
                        self.opts.magic_version,
                    ))
                    &&& (data@.len() < HEADER_SIZE + self.opts.reserved ==> e == (
                    Error::InsufficientSpace {
                        requested: sat_u32(HEADER_SIZE + self.opts.reserved),
                        available: data@.len() as u32,
                    }))
                    &&& (data@.len() >= HEADER_SIZE + self.opts.reserved && !header_ok(
                        data@,
                        self.opts.magic_version,
                    ) ==> {
                        &&& (e == Error::BadMagicText || e == Error::BadMagicVersion)
                        &&& (e == Error::BadMagicText <==> (data@.len() < HEADER_SIZE
                            || data@.subrange(0, MAGIC_TEXT_SIZE as int) != spec_magic_text()))
                    })
                },
            },
    {
        let needed: u64 = HEADER_SIZE as u64 + self.opts.reserved() as u64;
        if (data.len() as u64) < needed {
            let requested: u32 = if needed > u32::MAX as u64 {
                u32::MAX
            } else {
                needed as u32
            };
            return Err(Error::InsufficientSpace { requested, available: data.len() as u32 });
        }
        match check_header(data.as_slice(), self.opts.magic_version()) {
            Ok(_) => {},
            Err(e) => {
                return Err(e);
            },
        }
        let data_offset: u32 = HEADER_SIZE + self.opts.reserved();
        let ghost bytes = data@;
        let arena = Arena::from_bytes(data, data_offset, 0);
        proof {
            assert(arena@.bytes =~= bytes);
        }
        Ok(ImmutableValueLog::construct(fid, arena, self.opts))
    }

    /// Opens previously written bytes as a mutable log that appends after
    /// them.  The header check is the same as for [`Builder::open`]; the
    /// arena is grown with zeroes up to the configured capacity where that
    /// exceeds the bytes' length.
    pub fn open_mut(self, data: Vec<u8>, fid: u32) -> (r: Result<ValueLog, Error>)
        requires
            data@.len() <= u32::MAX,
        ensures
            match r {
                Ok(log) => {
                    &&& data@.len() >= HEADER_SIZE + self.opts.reserved
                    &&& header_ok(data@, self.opts.magic_version)
                    &&& log.wf()
                    &&& log.fid == fid
                    &&& log.options == self.opts
                    &&& log.arena@.bytes.subrange(0, data@.len() as int) == data@
                    &&& log.arena@.capacity() == if self.opts.spec_capacity() <= data@.len() {
                        data@.len() as int
                    } else {
                        self.opts.spec_capacity() as int
                    }
                    &&& log.arena@.allocated == data@.len()
                    &&& log.arena@.data_offset == HEADER_SIZE + self.opts.reserved
                    &&& log.arena@.discarded == 0
                },
                Err(e) => {
                    &&& !(data@.len() >= HEADER_SIZE + self.opts.reserved && header_ok(
                        data@,
                        self.opts.magic_version,
                    ))
                    &&& (data@.len() < HEADER_SIZE + self.opts.reserved ==> e == (
                    Error::InsufficientSpace {
                        requested: sat_u32(HEADER_SIZE + self.opts.reserved),
                        available: data@.len() as u32,
                    }))
                    &&& (data@.len() >= HEADER_SIZE + self.opts.reserved && !header_ok(
                        data@,
                        self.opts.magic_version,
                    ) ==> {
                        &&& (e == Error::BadMagicText || e == Error::BadMagicVersion)
                        &&& (e == Error::BadMagicText <==> (data@.len() < HEADER_SIZE
                            || data@.subrange(0, MAGIC_TEXT_SIZE as int) != spec_magic_text()))
                    })
                },
            },
    {
        let needed: u64 = HEADER_SIZE as u64 + self.opts.reserved() as u64;
        if (data.len() as u64) < needed {
            let requested: u32 = if needed > u32::MAX as u64 {
                u32::MAX
            } else {
                needed as u32
            };
            return Err(Error::InsufficientSpace { requested, available: data.len() as u32 });
        }
        match check_header(data.as_slice(), self.opts.magic_version()) {
            Ok(_) => {},
            Err(e) => {
                return Err(e);
            },
        }
        let data_offset: u32 = HEADER_SIZE + self.opts.reserved();
        let ghost bytes = data@;
        let arena = Arena::from_bytes(data, data_offset, self.opts.capacity());
        proof {
            assert(arena@.bytes.subrange(0, bytes.len() as int) =~= bytes);
        }
        Ok(ValueLog::construct(fid, arena, self.opts))
    }
}

impl Default for Builder {
    /// The same builder as [`Builder::new`].
    #[inline]
    fn default() -> (r: Builder)
        ensures
            r.opts == Options::spec_new(),
    {
        Builder::new()
    }
}

/// Reopen round trip: the allocated prefix of a well-formed log whose header
/// is in place still carries that header, and every read that succeeds in
/// the original log returns the same bytes from the reopened, frozen arena —
/// the arena that [`Builder::open`] builds from those bytes.
pub proof fn lemma_reopen_round_trip(
    a: crate::arena::ArenaView,
    opts: Options,
    fid: u32,
    id: u32,
    offset: u32,
    len: u32,
)
    requires
        log_wf(a, opts),
        header_ok(a.bytes, opts.magic_version),
    ensures
        ({
            let prefix = a.bytes.subrange(0, a.allocated);
            let reopened = crate::arena::ArenaView {
                bytes: prefix,
                allocated: a.allocated,
                data_offset: a.data_offset,
                discarded: 0,
            };
            &&& header_ok(prefix, opts.magic_version)
            &&& (read_result(a, opts, fid, id, offset, len) is Ok ==> read_result(
                reopened,
                opts,
                fid,
                id,
                offset,
                len,
            ) == read_result(a, opts, fid, id, offset, len))
        }),
{
    let prefix = a.bytes.subrange(0, a.allocated);
    assert(prefix.subrange(0, MAGIC_TEXT_SIZE as int) =~= a.bytes.subrange(
        0,
        MAGIC_TEXT_SIZE as int,
    ));
    assert(prefix.subrange(MAGIC_TEXT_SIZE as int, HEADER_SIZE as int) =~= a.bytes.subrange(
        MAGIC_TEXT_SIZE as int,
        HEADER_SIZE as int,
    ));
    if read_result(a, opts, fid, id, offset, len) is Ok && len > 0 {
        assert(prefix.subrange(offset as int, offset + len) =~= a.bytes.subrange(
            offset as int,
            offset + len,
        ));
        assert(prefix.subrange(offset + len, offset + len + 8) =~= a.bytes.subrange(
            offset + len,
            offset + len + 8,
        ));
    }
}

/// Header mismatch: corrupting any single header byte — one of the magic
/// text bytes or one of the two version bytes — makes the header check fail
/// on reopen.
pub proof fn lemma_open_header_mismatch(bytes: Seq<u8>, magic_version: u16, i: int, b: u8)
    requires
        header_ok(bytes, magic_version),
        0 <= i < HEADER_SIZE,
        b != bytes[i],
    ensures
        !header_ok(bytes.update(i, b), magic_version),
{
    let corrupted = bytes.update(i, b);
    if i < MAGIC_TEXT_SIZE {
        assert(corrupted.subrange(0, MAGIC_TEXT_SIZE as int)[i] == b);
        assert(bytes.subrange(0, MAGIC_TEXT_SIZE as int)[i] == bytes[i]);
    } else {
        vstd::bytes::lemma_auto_spec_u16_to_from_le_bytes();
        let s0 = bytes.subrange(MAGIC_TEXT_SIZE as int, HEADER_SIZE as int);
        let s1 = corrupted.subrange(MAGIC_TEXT_SIZE as int, HEADER_SIZE as int);
        assert(s1[i - MAGIC_TEXT_SIZE] == b);
        assert(s0[i - MAGIC_TEXT_SIZE] == bytes[i]);
        assert(s0 != s1);
        if vstd::bytes::spec_u16_from_le_bytes(s1) == magic_version {
            assert(vstd::bytes::spec_u16_to_le_bytes(vstd::bytes::spec_u16_from_le_bytes(s0))
                == s0);
            assert(vstd::bytes::spec_u16_to_le_bytes(vstd::bytes::spec_u16_from_le_bytes(s1))
                == s1);
            assert(false);
        }
        assert(corrupted.subrange(0, MAGIC_TEXT_SIZE as int) =~= bytes.subrange(
            0,
            MAGIC_TEXT_SIZE as int,
        ));
    }
}

} // verus!
