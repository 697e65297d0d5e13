//! The bump-allocated byte store backing a value log, together with the
//! magic header that frames it.

use vstd::prelude::*;
use vstd::pervasive::VecAdditionalExecFns;
use crate::error::{bad_magic_text, bad_magic_version, Error};

verus! {

/// Number of bytes in the magic header: six bytes of magic text followed by
/// a two-byte little-endian magic version.
pub const HEADER_SIZE: u32 = 8;

/// Number of bytes of magic text at the start of the header.
pub const MAGIC_TEXT_SIZE: u32 = 6;

/// The magic text `"valog!"` that opens every header.
pub open spec fn spec_magic_text() -> Seq<u8> {
    seq![0x76u8, 0x61u8, 0x6cu8, 0x6fu8, 0x67u8, 0x21u8]
}

/// Whether `bytes` begin with the magic text followed by the little-endian
/// encoding of `magic_version`.
pub open spec fn header_ok(bytes: Seq<u8>, magic_version: u16) -> bool {
    &&& bytes.len() >= HEADER_SIZE
    &&& bytes.subrange(0, MAGIC_TEXT_SIZE as int) == spec_magic_text()
    &&& vstd::bytes::spec_u16_from_le_bytes(
        bytes.subrange(MAGIC_TEXT_SIZE as int, HEADER_SIZE as int),
    ) == magic_version
}

/// The abstract state of an [`Arena`].
#[verifier::ext_equal]
pub struct ArenaView {
    /// Every byte of the arena, header and reserved region included.
    pub bytes: Seq<u8>,
    /// The allocation high-water mark: bytes below it hold the header, the
    /// reserved region and the records written so far.
    pub allocated: int,
    /// The first byte of the record region.
    pub data_offset: int,
    /// The advisory count of discarded payload bytes.
    pub discarded: int,
}

impl ArenaView {
    /// The fixed size of the arena.
    pub open spec fn capacity(self) -> int {
        self.bytes.len() as int
    }

    /// Structural well-formedness: the regions nest and every counter fits
    /// its machine width.
    pub open spec fn wf(self) -> bool {
        &&& HEADER_SIZE <= self.data_offset <= self.allocated <= self.capacity() <= u32::MAX
        &&& 0 <= self.discarded <= u32::MAX
    }
}

/// A fixed-capacity byte arena with bump allocation, a record region that
/// starts after the header and the caller-reserved prefix, and an advisory
/// discard counter.
#[derive(Debug, Clone)]
pub struct Arena {
    buf: Vec<u8>,
    allocated: u32,
    data_offset: u32,
    discarded: u32,
}

impl View for Arena {
    type V = ArenaView;

    closed spec fn view(&self) -> ArenaView {
        ArenaView {
            bytes: self.buf@,
            allocated: self.allocated as int,
            data_offset: self.data_offset as int,
            discarded: self.discarded as int,
        }
    }
}

impl Arena {
    /// Creates a zero-filled arena of the given capacity whose record region
    /// starts after the header and `reserved` further bytes.  Fails when the
    /// capacity cannot even hold that prefix.
    pub fn new(capacity: u32, reserved: u32) -> (r: Result<Arena, Error>)
        ensures
            match r {
                Ok(a) => {
                    &&& a@.wf()
                    &&& HEADER_SIZE + reserved <= capacity
                    &&& a@.capacity() == capacity
                    &&& a@.data_offset == HEADER_SIZE + reserved
                    &&& a@.allocated == a@.data_offset
                    &&& a@.discarded == 0
                    &&& a@.bytes == Seq::new(capacity as nat, |i: int| 0u8)
                },
                Err(e) => {
                    &&& HEADER_SIZE + reserved > capacity
                    &&& e == (Error::InsufficientSpace {
                        requested: if HEADER_SIZE + reserved <= u32::MAX {
                            (HEADER_SIZE + reserved) as u32
                        } else {
                            u32::MAX
                        },
                        available: capacity,
                    })
                },
            },
    {
        let needed: u64 = HEADER_SIZE as u64 + reserved as u64;
        if needed > capacity as u64 {
            let requested: u32 = if needed > u32::MAX as u64 {
                u32::MAX
            } else {
                needed as u32
            };
            return Err(Error::InsufficientSpace { requested, available: capacity });
        }
        let mut buf: Vec<u8> = Vec::new();
        while buf.len() < capacity as usize
            invariant
                buf@.len() <= capacity,
                forall|i: int| 0 <= i < buf@.len() ==> buf@[i] == 0u8,
            decreases capacity - buf.len(),
        {
            buf.push(0u8);
        }
        proof {
            assert(buf@ =~= Seq::new(capacity as nat, |i: int| 0u8));
        }
        let data_offset: u32 = HEADER_SIZE + reserved;
        Ok(Arena { buf, allocated: data_offset, data_offset, discarded: 0 })
    }

    /// Rehydrates an arena from previously written bytes; everything up to
    /// the end of `buf` counts as allocated, and the arena is padded with
    /// zeroes up to `capacity` where that is larger.
    pub(crate) fn from_bytes(buf: Vec<u8>, data_offset: u32, capacity: u32) -> (r: Arena)
        requires
            HEADER_SIZE <= data_offset <= buf@.len() <= u32::MAX,
        ensures
            r@.wf(),
            r@.allocated == buf@.len(),
            r@.data_offset == data_offset,
            r@.discarded == 0,
            r@.capacity() == if capacity <= buf@.len() { buf@.len() as int } else { capacity as int },
            r@.bytes == buf@ + Seq::new((r@.capacity() - buf@.len()) as nat, |i: int| 0u8),
    {
        let allocated: u32 = buf.len() as u32;
        let mut buf = buf;
        let ghost orig = buf@;
        while buf.len() < capacity as usize
            invariant
                orig.len() <= buf@.len() <= vstd::math::max(capacity as int, orig.len() as int),
                buf@.subrange(0, orig.len() as int) == orig,
                forall|i: int| orig.len() <= i < buf@.len() ==> buf@[i] == 0u8,
            decreases capacity - buf.len(),
        {
            buf.push(0u8);
        }
        proof {
            assert(buf@ =~= orig + Seq::new((buf@.len() - orig.len()) as nat, |i: int| 0u8));
        }
        Arena { buf, allocated, data_offset, discarded: 0 }
    }

    /// Returns the fixed size of the arena.
    #[inline]
    pub fn capacity(&self) -> (r: u32)
        requires
            self@.wf(),
        ensures
            r == self@.capacity(),
    {
        self.buf.len() as u32
    }

    /// Returns the allocation high-water mark.
    #[inline]
    pub fn allocated(&self) -> (r: u32)
        ensures
            r == self@.allocated,
    {
        self.allocated
    }

    /// Returns the first byte of the record region.
    #[inline]
    pub fn data_offset(&self) -> (r: u32)
        ensures
            r == self@.data_offset,
    {
        self.data_offset
    }

    /// Returns the advisory count of discarded payload bytes.
    #[inline]
    pub fn discarded(&self) -> (r: u32)
        ensures
            r == self@.discarded,
    {
        self.discarded
    }

    /// Bumps the high-water mark by `size` bytes and returns the offset of
    /// the fresh region, or reports how much space was left.
    pub fn alloc_bytes(&mut self, size: u32) -> (r: Result<u32, Error>)
        requires
            old(self)@.wf(),
        ensures
            final(self)@.wf(),
            final(self)@.bytes == old(self)@.bytes,
            final(self)@.data_offset == old(self)@.data_offset,
            final(self)@.discarded == old(self)@.discarded,
            match r {
                Ok(offset) => {
                    &&& old(self)@.allocated + size <= old(self)@.capacity()
                    &&& offset == old(self)@.allocated
                    &&& final(self)@.allocated == old(self)@.allocated + size
                },
                Err(e) => {
                    &&& old(self)@.allocated + size > old(self)@.capacity()
                    &&& final(self)@.allocated == old(self)@.allocated
                    &&& e == (Error::InsufficientSpace {
                        requested: size,
                        available: (old(self)@.capacity() - old(self)@.allocated) as u32,
                    })
                },
            },
    {
        let remaining: u32 = self.buf.len() as u32 - self.allocated;
        if size > remaining {
            return Err(Error::InsufficientSpace { requested: size, available: remaining });
        }
        let offset = self.allocated;
        self.allocated = self.allocated + size;
        Ok(offset)
    }

    /// Raises the advisory discard counter by `n`, saturating at the
    /// counter's width.
    pub fn increase_discarded(&mut self, n: u32)
        requires
            old(self)@.wf(),
        ensures
            final(self)@.wf(),
            final(self)@.bytes == old(self)@.bytes,
            final(self)@.allocated == old(self)@.allocated,
            final(self)@.data_offset == old(self)@.data_offset,
            final(self)@.discarded == if old(self)@.discarded + n <= u32::MAX {
                old(self)@.discarded + n
            } else {
                u32::MAX as int
            },
    {
        let room: u32 = u32::MAX - self.discarded;
        if n > room {
            self.discarded = u32::MAX;
        } else {
            self.discarded = self.discarded + n;
        }
    }

    /// Copies `data` into the arena at `offset`, leaving every other byte
    /// and every counter unchanged.
    pub fn write_at(&mut self, offset: u32, data: &[u8])
        requires
            old(self)@.wf(),
            offset + data@.len() <= old(self)@.capacity(),
        ensures
            final(self)@.wf(),
            final(self)@.allocated == old(self)@.allocated,
            final(self)@.data_offset == old(self)@.data_offset,
            final(self)@.discarded == old(self)@.discarded,
            final(self)@.bytes == old(self)@.bytes.subrange(0, offset as int) + data@
                + old(self)@.bytes.subrange(
                offset + data@.len(),
                old(self)@.capacity(),
            ),
    {
        let ghost orig = self@;
        let n: usize = data.len();
        let mut i: usize = 0;
        while i < n
            invariant
                orig.wf(),
                i <= n == data@.len(),
                offset + n <= orig.capacity(),
                self@.bytes.len() == orig.bytes.len(),
                self@.allocated == orig.allocated,
                self@.data_offset == orig.data_offset,
                self@.discarded == orig.discarded,
                forall|j: int| 0 <= j < i ==> self@.bytes[offset + j] == data@[j],
                forall|j: int|
                    0 <= j < orig.bytes.len() && !(offset <= j < offset + i) ==> self@.bytes[j]
                        == orig.bytes[j],
            decreases n - i,
        {
            let b: u8 = *vstd::slice::slice_index_get(data, i);
            self.buf.set(offset as usize + i, b);
            i = i + 1;
        }
        proof {
            assert(self@.bytes =~= orig.bytes.subrange(0, offset as int) + data@
                + orig.bytes.subrange(offset + data@.len(), orig.capacity()));
        }
    }

    /// Writes the little-endian encoding of `value` at `offset`.
    pub fn write_u64_le(&mut self, offset: u32, value: u64)
        requires
            old(self)@.wf(),
            offset + 8 <= old(self)@.capacity(),
        ensures
            final(self)@.wf(),
            final(self)@.allocated == old(self)@.allocated,
            final(self)@.data_offset == old(self)@.data_offset,
            final(self)@.discarded == old(self)@.discarded,
            final(self)@.bytes == old(self)@.bytes.subrange(0, offset as int)
                + vstd::bytes::spec_u64_to_le_bytes(value) + old(self)@.bytes.subrange(
                offset + 8,
                old(self)@.capacity(),
            ),
    {
        let bytes = vstd::bytes::u64_to_le_bytes(value);
        self.write_at(offset, bytes.as_slice());
    }

    /// Overwrites the single byte at `offset`.  The byte may sit anywhere in
    /// the arena, so this can invalidate a stored record or the header; reads
    /// detect the damage through the checksum, opens through the header check.
    pub fn set_byte(&mut self, offset: u32, value: u8)
        requires
            old(self)@.wf(),
            offset < old(self)@.capacity(),
        ensures
            final(self)@.wf(),
            final(self)@.allocated == old(self)@.allocated,
            final(self)@.data_offset == old(self)@.data_offset,
            final(self)@.discarded == old(self)@.discarded,
            final(self)@.bytes == old(self)@.bytes.update(offset as int, value),
    {
        self.buf.set(offset as usize, value);
    }

    /// Borrows `len` bytes starting at `offset`, zero-copy.
    pub fn read_at(&self, offset: u32, len: u32) -> (r: &[u8])
        requires
            self@.wf(),
            offset + len <= self@.capacity(),
        ensures
            r@ == self@.bytes.subrange(offset as int, offset + len),
    {
        vstd::slice::slice_subrange(self.buf.as_slice(), offset as usize, offset as usize + len as usize)
    }
}

/// Returns the magic text as bytes.
fn magic_text() -> (r: Vec<u8>)
    ensures
        r@ == spec_magic_text(),
{
    let mut magic: Vec<u8> = Vec::new();
    magic.push(0x76u8);
    magic.push(0x61u8);
    magic.push(0x6cu8);
    magic.push(0x6fu8);
    magic.push(0x67u8);
    magic.push(0x21u8);
    proof {
        assert(magic@ =~= spec_magic_text());
    }
    magic
}

/// Writes the magic text and `magic_version` into the first eight bytes of
/// the arena, leaving the rest untouched.
pub fn write_header(arena: &mut Arena, magic_version: u16)
    requires
        old(arena)@.wf(),
    ensures
        final(arena)@.wf(),
        final(arena)@.allocated == old(arena)@.allocated,
        final(arena)@.data_offset == old(arena)@.data_offset,
        final(arena)@.discarded == old(arena)@.discarded,
        final(arena)@.bytes.len() == old(arena)@.bytes.len(),
        header_ok(final(arena)@.bytes, magic_version),
        final(arena)@.bytes.subrange(HEADER_SIZE as int, final(arena)@.capacity()) == old(arena)@.bytes.subrange(
            HEADER_SIZE as int,
            old(arena)@.capacity(),
        ),
{
    let magic = magic_text();
    arena.write_at(0, magic.as_slice());
    let version_bytes = vstd::bytes::u16_to_le_bytes(magic_version);
    arena.write_at(MAGIC_TEXT_SIZE, version_bytes.as_slice());
    proof {
        vstd::bytes::lemma_auto_spec_u16_to_from_le_bytes();
        assert(arena@.bytes.subrange(0, MAGIC_TEXT_SIZE as int) =~= spec_magic_text());
        assert(arena@.bytes.subrange(MAGIC_TEXT_SIZE as int, HEADER_SIZE as int)
            =~= vstd::bytes::spec_u16_to_le_bytes(magic_version));
        assert(arena@.bytes.subrange(HEADER_SIZE as int, arena@.capacity())
            =~= old(arena)@.bytes.subrange(HEADER_SIZE as int, old(arena)@.capacity()));
    }
}

/// Checks that `data` begins with the magic text and the expected magic
/// version; returns the version on success.
pub fn check_header(data: &[u8], magic_version: u16) -> (r: Result<u16, Error>)
    ensures
        match r {
            Ok(v) => v == magic_version && header_ok(data@, magic_version),
            Err(e) => {
                &&& !header_ok(data@, magic_version)
                &&& (e == Error::BadMagicText || e == Error::BadMagicVersion)
                &&& e == Error::BadMagicText <==> (data@.len() < HEADER_SIZE || data@.subrange(
                    0,
                    MAGIC_TEXT_SIZE as int,
                ) != spec_magic_text())
            },
        },
{
    if data.len() < HEADER_SIZE as usize {
        return Err(bad_magic_text());
    }
    let magic = magic_text();
    let mut i: usize = 0;
    while i < MAGIC_TEXT_SIZE as usize
        invariant
            data@.len() >= HEADER_SIZE,
            magic@ == spec_magic_text(),
            i <= MAGIC_TEXT_SIZE,
            forall|j: int| 0 <= j < i ==> data@[j] == spec_magic_text()[j],
        decreases MAGIC_TEXT_SIZE - i,
    {
        let expected: u8 = *vstd::slice::slice_index_get(magic.as_slice(), i);
        let got: u8 = *vstd::slice::slice_index_get(data, i);
        if got != expected {
            proof {
                assert(data@.subrange(0, MAGIC_TEXT_SIZE as int) != spec_magic_text());
            }
            return Err(bad_magic_text());
        }
        i = i + 1;
    }
    proof {
        assert(data@.subrange(0, MAGIC_TEXT_SIZE as int) =~= spec_magic_text());
    }
    let version_bytes = vstd::slice::slice_subrange(
        data,
        MAGIC_TEXT_SIZE as usize,
        HEADER_SIZE as usize,
    );
    let version = vstd::bytes::u16_from_le_bytes(version_bytes);
    if version != magic_version {
        return Err(bad_magic_version());
    }
    Ok(version)
}

} // verus!
