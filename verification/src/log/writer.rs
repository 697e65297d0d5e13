//! The append path: size check, bump allocation, payload fill, trailing
//! checksum.

use vstd::prelude::*;
use crate::arena::{Arena, ArenaView};
use crate::buffer::{pad_payload, VacantBuffer};
use crate::checksum::{crc32, crc32_of};
use crate::error::{Either, Error};
use crate::log::common::{log_wf, Log};
use crate::log::reader::read_result;
use crate::log::ValuePointer;
use crate::options::Options;
use crate::types::Type;

verus! {

/// The pointer or error that inserting `payload` into a log with arena `a`,
/// options `opts` and id `fid` produces.  An empty payload succeeds with the
/// zero pointer; otherwise the record must fit the configured maximum and the
/// remaining capacity, and on success the pointer names the record's offset
/// and the payload length.
pub open spec fn insert_outcome(
    a: ArenaView,
    opts: Options,
    fid: u32,
    payload: Seq<u8>,
) -> Result<ValuePointer<u32>, Error> {
    if payload.len() == 0 {
        Ok(ValuePointer { id: fid, offset: 0, size: 0, tombstone: false })
    } else if payload.len() + 8 > opts.max_value_size {
        Err(Error::ValueTooLarge {
            size: (payload.len() + 8) as usize,
            maximum: opts.max_value_size as usize,
        })
    } else if a.allocated + payload.len() + 8 > a.capacity() {
        Err(Error::InsufficientSpace {
            requested: (payload.len() + 8) as u32,
            available: (a.capacity() - a.allocated) as u32,
        })
    } else {
        Ok(ValuePointer {
            id: fid,
            offset: a.allocated as u32,
            size: payload.len() as u32,
            tombstone: false,
        })
    }
}

/// The arena after a successful, non-empty insert of `payload`: the record —
/// the payload followed by the little-endian checksum — sits at the old
/// high-water mark, and every other byte is unchanged.
pub open spec fn arena_after_insert(a: ArenaView, payload: Seq<u8>) -> ArenaView {
    ArenaView {
        bytes: a.bytes.subrange(0, a.allocated) + payload + vstd::bytes::spec_u64_to_le_bytes(
            crc32_of(payload),
        ) + a.bytes.subrange(a.allocated + payload.len() + 8, a.capacity()),
        allocated: a.allocated + payload.len() + 8,
        data_offset: a.data_offset,
        discarded: a.discarded,
    }
}

/// The arena after an insert: unchanged unless the insert succeeded with a
/// non-empty payload.
pub open spec fn arena_after(a: ArenaView, opts: Options, fid: u32, payload: Seq<u8>) -> ArenaView {
    if payload.len() > 0 && insert_outcome(a, opts, fid, payload) is Ok {
        arena_after_insert(a, payload)
    } else {
        a
    }
}

/// The shared append path of every log flavour.
pub(crate) fn insert_in(arena: &mut Arena, opts: &Options, fid: u32, value: &[u8]) -> (r: Result<
    ValuePointer<u32>,
    Error,
>)
    requires
        old(arena)@.wf(),
        value@.len() + 8 <= usize::MAX,
    ensures
        final(arena)@.wf(),
        r == insert_outcome(old(arena)@, *opts, fid, value@),
        final(arena)@ == arena_after(old(arena)@, *opts, fid, value@),
{
    if value.len() == 0 {
        return Ok(ValuePointer::new(fid, 0, 0));
    }
    let total_len: usize = value.len() + 8;
    let max = opts.maximum_value_size();
    if total_len as u64 > max as u64 {
        return Err(Error::value_too_large(total_len, max as usize));
    }
    let total: u32 = total_len as u32;
    let offset = match arena.alloc_bytes(total) {
        Ok(offset) => offset,
        Err(e) => {
            return Err(e);
        },
    };
    arena.write_at(offset, value);
    let digest = crc32(value);
    arena.write_u64_le(offset + (value.len() as u32), digest);
    proof {
        assert(arena@.bytes =~= arena_after_insert(old(arena)@, value@).bytes);
        assert(arena@ == arena_after(old(arena)@, *opts, fid, value@));
    }
    Ok(ValuePointer::new(fid, offset, value.len() as u32))
}

/// The same outcome with the pointer marked as a tombstone.
pub open spec fn mark_tombstone(r: Result<ValuePointer<u32>, Error>) -> Result<
    ValuePointer<u32>,
    Error,
> {
    match r {
        Ok(p) => Ok(ValuePointer { tombstone: true, ..p }),
        Err(e) => Err(e),
    }
}

/// The discard counter after `n` more payload bytes are flagged: it
/// saturates at its width.
pub open spec fn bump_discarded(d: int, n: int) -> int {
    if d + n <= u32::MAX {
        d + n
    } else {
        u32::MAX as int
    }
}

/// The error that an insert of a `size`-byte payload reports before any
/// payload bytes exist: the record is too large, or it does not fit the
/// remaining capacity.
pub open spec fn size_check(a: ArenaView, opts: Options, size: u32) -> Option<Error> {
    if size + 8 > opts.max_value_size {
        Some(Error::ValueTooLarge {
            size: (size + 8) as usize,
            maximum: opts.max_value_size as usize,
        })
    } else if a.allocated + size + 8 > a.capacity() {
        Some(Error::InsufficientSpace {
            requested: (size + 8) as u32,
            available: (a.capacity() - a.allocated) as u32,
        })
    } else {
        None
    }
}

/// The mutable value log abstraction.
pub trait LogWriter: Log {
    /// Inserts a value into the log, returning a pointer that resolves it.
    fn insert(&mut self, value: &[u8]) -> (r: Result<ValuePointer<u32>, Error>)
        requires
            log_wf(old(self).arena_spec()@, old(self).options_spec()),
            value@.len() + 8 <= usize::MAX,
        ensures
            log_wf(final(self).arena_spec()@, final(self).options_spec()),
            final(self).id_spec() == old(self).id_spec(),
            final(self).options_spec() == old(self).options_spec(),
            r == insert_outcome(
                old(self).arena_spec()@,
                old(self).options_spec(),
                old(self).id_spec(),
                value@,
            ),
            final(self).arena_spec()@ == arena_after(
                old(self).arena_spec()@,
                old(self).options_spec(),
                old(self).id_spec(),
                value@,
            ),
    ;

    /// Inserts a value and flags its payload bytes as discarded, so that an
    /// outer index can account for garbage.  The record itself is written
    /// exactly as [`LogWriter::insert`] writes it.
    fn insert_tombstone(&mut self, value: &[u8]) -> (r: Result<ValuePointer<u32>, Error>)
        requires
            log_wf(old(self).arena_spec()@, old(self).options_spec()),
            value@.len() + 8 <= usize::MAX,
        ensures
            log_wf(final(self).arena_spec()@, final(self).options_spec()),
            final(self).id_spec() == old(self).id_spec(),
            final(self).options_spec() == old(self).options_spec(),
            r == mark_tombstone(
                insert_outcome(
                    old(self).arena_spec()@,
                    old(self).options_spec(),
                    old(self).id_spec(),
                    value@,
                ),
            ),
            ({
                let after = arena_after(
                    old(self).arena_spec()@,
                    old(self).options_spec(),
                    old(self).id_spec(),
                    value@,
                );
                &&& final(self).arena_spec()@.bytes == after.bytes
                &&& final(self).arena_spec()@.allocated == after.allocated
                &&& final(self).arena_spec()@.data_offset == after.data_offset
            }),
            final(self).arena_spec()@.discarded == if r is Ok {
                bump_discarded(old(self).arena_spec()@.discarded, value@.len() as int)
            } else {
                old(self).arena_spec()@.discarded
            },
    ;
}

/// Extension methods for [`LogWriter`].
pub trait LogWriterExt: LogWriter {
    /// Encodes a value and inserts the encoding.
    fn insert_generic<T: Type>(&mut self, value: &T) -> (r: Result<ValuePointer<u32>, Error>)
        requires
            log_wf(old(self).arena_spec()@, old(self).options_spec()),
            value.encode_spec().len() + 8 <= usize::MAX,
        ensures
            log_wf(final(self).arena_spec()@, final(self).options_spec()),
            final(self).id_spec() == old(self).id_spec(),
            final(self).options_spec() == old(self).options_spec(),
            r == insert_outcome(
                old(self).arena_spec()@,
                old(self).options_spec(),
                old(self).id_spec(),
                value.encode_spec(),
            ),
            final(self).arena_spec()@ == arena_after(
                old(self).arena_spec()@,
                old(self).options_spec(),
                old(self).id_spec(),
                value.encode_spec(),
            ),
    ;

    /// Encodes a value, inserts the encoding, and flags its bytes as
    /// discarded.
    fn insert_generic_tombstone<T: Type>(&mut self, value: &T) -> (r: Result<
        ValuePointer<u32>,
        Error,
    >)
        requires
            log_wf(old(self).arena_spec()@, old(self).options_spec()),
            value.encode_spec().len() + 8 <= usize::MAX,
        ensures
            log_wf(final(self).arena_spec()@, final(self).options_spec()),
            final(self).id_spec() == old(self).id_spec(),
            final(self).options_spec() == old(self).options_spec(),
            r == mark_tombstone(
                insert_outcome(
                    old(self).arena_spec()@,
                    old(self).options_spec(),
                    old(self).id_spec(),
                    value.encode_spec(),
                ),
            ),
            ({
                let after = arena_after(
                    old(self).arena_spec()@,
                    old(self).options_spec(),
                    old(self).id_spec(),
                    value.encode_spec(),
                );
                &&& final(self).arena_spec()@.bytes == after.bytes
                &&& final(self).arena_spec()@.allocated == after.allocated
                &&& final(self).arena_spec()@.data_offset == after.data_offset
            }),
            final(self).arena_spec()@.discarded == if r is Ok {
                bump_discarded(
                    old(self).arena_spec()@.discarded,
                    value.encode_spec().len() as int,
                )
            } else {
                old(self).arena_spec()@.discarded
            },
    ;

    /// Inserts a value built in place: the closure fills a fresh
    /// [`VacantBuffer`] of capacity `size`, and whatever it wrote, brought to
    /// exactly `size` bytes, becomes the payload.  The closure only runs when
    /// the record passed the size and capacity checks.
    fn insert_with<E, F: FnOnce(VacantBuffer) -> Result<VacantBuffer, E>>(
        &mut self,
        size: u32,
        f: F,
    ) -> (r: Result<ValuePointer<u32>, Either<E, Error>>)
        requires
            log_wf(old(self).arena_spec()@, old(self).options_spec()),
            forall|vb: VacantBuffer|
                vb@ == Seq::<u8>::empty() && vb.spec_capacity() == size ==> #[trigger] call_requires(
                    f,
                    (vb,),
                ),
        ensures
            log_wf(final(self).arena_spec()@, final(self).options_spec()),
            final(self).id_spec() == old(self).id_spec(),
            final(self).options_spec() == old(self).options_spec(),
            size == 0 ==> r == Ok::<ValuePointer<u32>, Either<E, Error>>(
                ValuePointer { id: old(self).id_spec(), offset: 0, size: 0, tombstone: false },
            ) && final(self).arena_spec()@ == old(self).arena_spec()@,
            size > 0 && r is Ok ==> exists|vb0: VacantBuffer, vb1: VacantBuffer|
                {
                    &&& vb0@ == Seq::<u8>::empty()
                    &&& vb0.spec_capacity() == size
                    &&& #[trigger] call_ensures(f, (vb0,), Ok(vb1))
                    &&& r == Ok::<ValuePointer<u32>, Either<E, Error>>(
                        insert_outcome(
                            old(self).arena_spec()@,
                            old(self).options_spec(),
                            old(self).id_spec(),
                            pad_payload(vb1@, size as nat),
                        )->Ok_0,
                    )
                    &&& insert_outcome(
                        old(self).arena_spec()@,
                        old(self).options_spec(),
                        old(self).id_spec(),
                        pad_payload(vb1@, size as nat),
                    ) is Ok
                    &&& final(self).arena_spec()@ == arena_after(
                        old(self).arena_spec()@,
                        old(self).options_spec(),
                        old(self).id_spec(),
                        pad_payload(vb1@, size as nat),
                    )
                },
            size > 0 && r is Err && r->Err_0 is Left ==> {
                &&& size_check(old(self).arena_spec()@, old(self).options_spec(), size) is None
                &&& final(self).arena_spec()@ == old(self).arena_spec()@
            },
            size > 0 && r is Err && r->Err_0 is Right ==> {
                &&& size_check(old(self).arena_spec()@, old(self).options_spec(), size) == Some(
                    r->Err_0->Right_0,
                )
                &&& final(self).arena_spec()@ == old(self).arena_spec()@
            },
    ;

    /// Inserts a value built in place and flags its bytes as discarded.
    fn insert_tombstone_with<E, F: FnOnce(VacantBuffer) -> Result<VacantBuffer, E>>(
        &mut self,
        size: u32,
        f: F,
    ) -> (r: Result<ValuePointer<u32>, Either<E, Error>>)
        requires
            log_wf(old(self).arena_spec()@, old(self).options_spec()),
            forall|vb: VacantBuffer|
                vb@ == Seq::<u8>::empty() && vb.spec_capacity() == size ==> #[trigger] call_requires(
                    f,
                    (vb,),
                ),
        ensures
            log_wf(final(self).arena_spec()@, final(self).options_spec()),
            final(self).id_spec() == old(self).id_spec(),
            final(self).options_spec() == old(self).options_spec(),
            size == 0 ==> r == Ok::<ValuePointer<u32>, Either<E, Error>>(
                ValuePointer { id: old(self).id_spec(), offset: 0, size: 0, tombstone: true },
            ) && final(self).arena_spec()@ == old(self).arena_spec()@,
            size > 0 && r is Ok ==> exists|vb0: VacantBuffer, vb1: VacantBuffer|
                {
                    &&& vb0@ == Seq::<u8>::empty()
                    &&& vb0.spec_capacity() == size
                    &&& #[trigger] call_ensures(f, (vb0,), Ok(vb1))
                    &&& r == Ok::<ValuePointer<u32>, Either<E, Error>>(
                        mark_tombstone(
                            insert_outcome(
                                old(self).arena_spec()@,
                                old(self).options_spec(),
                                old(self).id_spec(),
                                pad_payload(vb1@, size as nat),
                            ),
                        )->Ok_0,
                    )
                    &&& insert_outcome(
                        old(self).arena_spec()@,
                        old(self).options_spec(),
                        old(self).id_spec(),
                        pad_payload(vb1@, size as nat),
                    ) is Ok
                    &&& ({
                        let after = arena_after(
                            old(self).arena_spec()@,
                            old(self).options_spec(),
                            old(self).id_spec(),
                            pad_payload(vb1@, size as nat),
                        );
                        &&& final(self).arena_spec()@.bytes == after.bytes
                        &&& final(self).arena_spec()@.allocated == after.allocated
                        &&& final(self).arena_spec()@.data_offset == after.data_offset
                    })
                    &&& final(self).arena_spec()@.discarded == bump_discarded(
                        old(self).arena_spec()@.discarded,
                        size as int,
                    )
                },
            size > 0 && r is Err && r->Err_0 is Left ==> {
                &&& size_check(old(self).arena_spec()@, old(self).options_spec(), size) is None
                &&& final(self).arena_spec()@ == old(self).arena_spec()@
            },
            size > 0 && r is Err && r->Err_0 is Right ==> {
                &&& size_check(old(self).arena_spec()@, old(self).options_spec(), size) == Some(
                    r->Err_0->Right_0,
                )
                &&& final(self).arena_spec()@ == old(self).arena_spec()@
            },
    ;
}

impl<L: LogWriter> LogWriterExt for L {
    fn insert_generic<T: Type>(&mut self, value: &T) -> (r: Result<ValuePointer<u32>, Error>) {
        let bytes = value.encode();
        self.insert(bytes.as_slice())
    }

    fn insert_generic_tombstone<T: Type>(&mut self, value: &T) -> (r: Result<
        ValuePointer<u32>,
        Error,
    >) {
        let bytes = value.encode();
        self.insert_tombstone(bytes.as_slice())
    }

    fn insert_with<E, F: FnOnce(VacantBuffer) -> Result<VacantBuffer, E>>(
        &mut self,
        size: u32,
        f: F,
    ) -> (r: Result<ValuePointer<u32>, Either<E, Error>>) {
        if size == 0 {
            let id = self.id();
            return Ok(ValuePointer::new(id, 0, 0));
        }
        let max = self.options().maximum_value_size();
        if size as u64 + 8 > max as u64 {
            return Err(
                Either::Right(Error::value_too_large(#[verifier::truncate] ((size as u64 + 8) as usize), max as usize)),
            );
        }
        let arena = self.allocator();
        let allocated = arena.allocated();
        let capacity = arena.capacity();
        if allocated as u64 + (size as u64 + 8) > capacity as u64 {
            return Err(
                Either::Right(
                    Error::InsufficientSpace { requested: size + 8, available: capacity - allocated },
                ),
            );
        }
        let vb = VacantBuffer::new(size as usize);
        let ghost gvb0 = vb;
        let vb1 = match f(vb) {
            Ok(vb1) => vb1,
            Err(e) => {
                return Err(Either::Left(e));
            },
        };
        let ghost gvb1 = vb1;
        let payload = vb1.into_padded(size as usize);
        proof {
            assert(pad_payload(gvb1@, size as nat).len() == size);
        }
        match self.insert(payload.as_slice()) {
            Ok(p) => {
                proof {
                    assert(call_ensures(f, (gvb0,), Ok(gvb1)));
                }
                Ok(p)
            },
            Err(_) => {
                proof {
                    assert(false);
                }
                vstd::pervasive::unreached()
            },
        }
    }

    fn insert_tombstone_with<E, F: FnOnce(VacantBuffer) -> Result<VacantBuffer, E>>(
        &mut self,
        size: u32,
        f: F,
    ) -> (r: Result<ValuePointer<u32>, Either<E, Error>>) {
        if size == 0 {
            let id = self.id();
            return Ok(ValuePointer::new(id, 0, 0).with_tombstone());
        }
        let max = self.options().maximum_value_size();
        if size as u64 + 8 > max as u64 {
            return Err(
                Either::Right(Error::value_too_large(#[verifier::truncate] ((size as u64 + 8) as usize), max as usize)),
            );
        }
        let arena = self.allocator();
        let allocated = arena.allocated();
        let capacity = arena.capacity();
        if allocated as u64 + (size as u64 + 8) > capacity as u64 {
            return Err(
                Either::Right(
                    Error::InsufficientSpace { requested: size + 8, available: capacity - allocated },
                ),
            );
        }
        let vb = VacantBuffer::new(size as usize);
        let ghost gvb0 = vb;
        let vb1 = match f(vb) {
            Ok(vb1) => vb1,
            Err(e) => {
                return Err(Either::Left(e));
            },
        };
        let ghost gvb1 = vb1;
        let payload = vb1.into_padded(size as usize);
        proof {
            assert(pad_payload(gvb1@, size as nat).len() == size);
        }
        match self.insert_tombstone(payload.as_slice()) {
            Ok(p) => {
                proof {
                    assert(call_ensures(f, (gvb0,), Ok(gvb1)));
                }
                Ok(p)
            },
            Err(_) => {
                proof {
                    assert(false);
                }
                vstd::pervasive::unreached()
            },
        }
    }
}

/// The generic value log writer abstraction.
pub trait GenericLogWriter: Log {
    /// The value type stored in the log.
    type Type: Type;

    /// Encodes a value and inserts the encoding.
    fn insert(&mut self, value: &Self::Type) -> (r: Result<ValuePointer<u32>, Error>)
        requires
            log_wf(old(self).arena_spec()@, old(self).options_spec()),
            value.encode_spec().len() + 8 <= usize::MAX,
        ensures
            log_wf(final(self).arena_spec()@, final(self).options_spec()),
            final(self).id_spec() == old(self).id_spec(),
            final(self).options_spec() == old(self).options_spec(),
            r == insert_outcome(
                old(self).arena_spec()@,
                old(self).options_spec(),
                old(self).id_spec(),
                value.encode_spec(),
            ),
            final(self).arena_spec()@ == arena_after(
                old(self).arena_spec()@,
                old(self).options_spec(),
                old(self).id_spec(),
                value.encode_spec(),
            ),
    ;

    /// Encodes a value, inserts the encoding, and flags its bytes as
    /// discarded.
    fn insert_tombstone(&mut self, value: &Self::Type) -> (r: Result<ValuePointer<u32>, Error>)
        requires
            log_wf(old(self).arena_spec()@, old(self).options_spec()),
            value.encode_spec().len() + 8 <= usize::MAX,
        ensures
            log_wf(final(self).arena_spec()@, final(self).options_spec()),
            final(self).id_spec() == old(self).id_spec(),
            final(self).options_spec() == old(self).options_spec(),
            r == mark_tombstone(
                insert_outcome(
                    old(self).arena_spec()@,
                    old(self).options_spec(),
                    old(self).id_spec(),
                    value.encode_spec(),
                ),
            ),
            ({
                let after = arena_after(
                    old(self).arena_spec()@,
                    old(self).options_spec(),
                    old(self).id_spec(),
                    value.encode_spec(),
                );
                &&& final(self).arena_spec()@.bytes == after.bytes
                &&& final(self).arena_spec()@.allocated == after.allocated
                &&& final(self).arena_spec()@.data_offset == after.data_offset
            }),
            final(self).arena_spec()@.discarded == if r is Ok {
                bump_discarded(
                    old(self).arena_spec()@.discarded,
                    value.encode_spec().len() as int,
                )
            } else {
                old(self).arena_spec()@.discarded
            },
    ;
}

/// Every successful insert returns a pointer that names the payload exactly:
/// its id is the log's, its size is the payload length, and a non-empty
/// record lies between the data offset and the capacity.
pub proof fn lemma_insert_pointer_bounds(a: ArenaView, opts: Options, fid: u32, payload: Seq<u8>)
    requires
        a.wf(),
        insert_outcome(a, opts, fid, payload) is Ok,
    ensures
        ({
            let p = insert_outcome(a, opts, fid, payload)->Ok_0;
            &&& p.id == fid
            &&& p.size == payload.len()
            &&& !p.tombstone
            &&& (payload.len() == 0 ==> p.offset == 0)
            &&& (payload.len() > 0 ==> {
                &&& p.offset == a.allocated
                &&& a.data_offset <= p.offset
                &&& p.offset + p.size + 8 == arena_after(a, opts, fid, payload).allocated
                &&& p.offset + p.size + 8 <= a.capacity()
            })
        }),
{
}

/// An empty insert always succeeds with the zero pointer and changes
/// nothing.
pub proof fn lemma_empty_insert(a: ArenaView, opts: Options, fid: u32)
    ensures
        insert_outcome(a, opts, fid, Seq::<u8>::empty()) == Ok::<ValuePointer<u32>, Error>(
            ValuePointer { id: fid, offset: 0, size: 0, tombstone: false },
        ),
        arena_after(a, opts, fid, Seq::<u8>::empty()) == a,
{
}

/// Round trip: reading back the pointer that a successful insert returned
/// yields the inserted payload, with or without checksum validation.
pub proof fn lemma_insert_then_read(a: ArenaView, opts: Options, fid: u32, payload: Seq<u8>)
    requires
        a.wf(),
        insert_outcome(a, opts, fid, payload) is Ok,
    ensures
        ({
            let p = insert_outcome(a, opts, fid, payload)->Ok_0;
            read_result(arena_after(a, opts, fid, payload), opts, fid, p.id, p.offset, p.size)
                == Ok::<Seq<u8>, Error>(payload)
        }),
{
    if payload.len() == 0 {
        assert(payload =~= Seq::<u8>::empty());
    } else {
        vstd::bytes::lemma_auto_spec_u64_to_from_le_bytes();
        let a2 = arena_after(a, opts, fid, payload);
        let off = a.allocated;
        let n = payload.len() as int;
        assert(a2.bytes.subrange(off, off + n) =~= payload);
        assert(a2.bytes.subrange(off + n, off + n + 8) =~= vstd::bytes::spec_u64_to_le_bytes(
            crc32_of(payload),
        ));
    }
}

/// Two consecutive successful, non-empty inserts produce records in disjoint
/// byte ranges: the second record starts where the first one, checksum
/// included, ends.
pub proof fn lemma_sequential_inserts_disjoint(
    a: ArenaView,
    opts: Options,
    fid: u32,
    p1: Seq<u8>,
    p2: Seq<u8>,
)
    requires
        a.wf(),
        p1.len() > 0,
        p2.len() > 0,
        insert_outcome(a, opts, fid, p1) is Ok,
        insert_outcome(arena_after(a, opts, fid, p1), opts, fid, p2) is Ok,
    ensures
        ({
            let q1 = insert_outcome(a, opts, fid, p1)->Ok_0;
            let q2 = insert_outcome(arena_after(a, opts, fid, p1), opts, fid, p2)->Ok_0;
            q1.offset + q1.size + 8 <= q2.offset
        }),
{
}

/// Generic round trip: reading back a generic insert yields a payload that
/// decodes to the inserted value's abstraction.
pub proof fn lemma_generic_round_trip<T: Type>(a: ArenaView, opts: Options, fid: u32, value: &T)
    requires
        a.wf(),
        insert_outcome(a, opts, fid, value.encode_spec()) is Ok,
    ensures
        ({
            let p = insert_outcome(a, opts, fid, value.encode_spec())->Ok_0;
            let stored = read_result(
                arena_after(a, opts, fid, value.encode_spec()),
                opts,
                fid,
                p.id,
                p.offset,
                p.size,
            );
            &&& stored == Ok::<Seq<u8>, Error>(value.encode_spec())
            &&& T::decode_spec(stored->Ok_0) == value@
        }),
{
    lemma_insert_then_read(a, opts, fid, value.encode_spec());
    value.lemma_round_trip();
}

/// Append-only: an insert never disturbs an existing record.  A read of a
/// range that already lay inside the record region returns the same result
/// after any further insert.
pub proof fn lemma_insert_preserves_reads(
    a: ArenaView,
    opts: Options,
    fid: u32,
    payload: Seq<u8>,
    id: u32,
    offset: u32,
    len: u32,
)
    requires
        a.wf(),
        a.data_offset <= offset,
        offset + len + 8 <= a.allocated,
    ensures
        read_result(arena_after(a, opts, fid, payload), opts, fid, id, offset, len) == read_result(
            a,
            opts,
            fid,
            id,
            offset,
            len,
        ),
{
    let a2 = arena_after(a, opts, fid, payload);
    if payload.len() > 0 && insert_outcome(a, opts, fid, payload) is Ok {
        vstd::bytes::lemma_auto_spec_u64_to_from_le_bytes();
        assert(a2.bytes.subrange(offset as int, offset + len) =~= a.bytes.subrange(
            offset as int,
            offset + len,
        ));
        assert(a2.bytes.subrange(offset + len, offset + len + 8) =~= a.bytes.subrange(
            offset + len,
            offset + len + 8,
        ));
    }
}

/// Tombstone accounting: as long as the discard counter does not saturate, a
/// tombstone insert of `n` payload bytes raises it by exactly `n`; it never
/// decreases.
pub proof fn lemma_tombstone_discard(d: int, n: int)
    requires
        0 <= d <= u32::MAX,
        0 <= n,
    ensures
        d + n <= u32::MAX ==> bump_discarded(d, n) == d + n,
        bump_discarded(d, n) >= d,
{
}

} // verus!
