//! The log types, value pointers, and the capability traits.

use vstd::prelude::*;
use crate::arena::{Arena, HEADER_SIZE};
use crate::checksum::crc32;
use crate::error::Error;
use crate::options::Options;
use crate::types::Type;

pub mod common;
pub mod reader;
pub mod writer;
pub mod sealed;

use common::{log_wf, Log, MutableLog, CURRENT_VERSION};
use reader::{read_in, GenericLogReader, LogReader, LogReaderExt};
use sealed::Sealed;
use writer::{insert_in, GenericLogWriter, LogWriter, LogWriterExt};

verus! {

/// A marker trait for logs that are frozen and cannot be modified.
pub trait Frozen {
}

/// A marker trait for logs that are mutable and accept inserts.
pub trait Mutable {
}

/// The pointer to a value in a log: the log's id, the byte offset of the
/// payload, and the payload length.  A tombstone flag rides along so that an
/// outer index can tell deletions from live values; reads ignore it.
#[derive(Debug, Clone, Copy, PartialEq, Eq, Hash)]
pub struct ValuePointer<I> {
    /// The id of the log that produced this pointer.
    pub id: I,
    /// The byte offset of the first payload byte.
    pub offset: u32,
    /// The payload length, trailing checksum excluded.
    pub size: u32,
    /// Whether the value was inserted as a tombstone.
    pub tombstone: bool,
}

impl<I> ValuePointer<I> {
    /// Creates a new value pointer, not marked as a tombstone.
    #[inline]
    pub fn new(id: I, offset: u32, size: u32) -> (r: Self)
        ensures
            r == (ValuePointer { id, offset, size, tombstone: false }),
    {
        Self { id, offset, size, tombstone: false }
    }

    /// Returns the id of the log that produced this pointer.
    #[inline]
    pub fn id(&self) -> (r: &I)
        ensures
            *r == self.id,
    {
        &self.id
    }

    /// Returns the byte offset of the value.
    #[inline]
    pub fn offset(&self) -> (r: u32)
        ensures
            r == self.offset,
    {
        self.offset
    }

    /// Returns the size of the value.
    #[inline]
    pub fn size(&self) -> (r: u32)
        ensures
            r == self.size,
    {
        self.size
    }

    /// Returns the same pointer, marked as a tombstone.
    #[inline]
    pub fn with_tombstone(self) -> (r: Self)
        ensures
            r == (ValuePointer { tombstone: true, ..self }),
    {
        ValuePointer { tombstone: true, ..self }
    }

    /// Returns whether the value was inserted as a tombstone.
    #[inline]
    pub fn is_tombstone(&self) -> (r: bool)
        ensures
            r == self.tombstone,
    {
        self.tombstone
    }
}

/// The mutable value log: reads and inserts over a single-owner arena.
#[derive(Debug)]
pub struct ValueLog {
    /// The caller-assigned log id.
    pub fid: u32,
    /// The backing arena.
    pub arena: Arena,
    /// The frozen options snapshot.
    pub options: Options,
}

impl ValueLog {
    /// Well-formedness: the arena is well formed and its record region
    /// starts where the options say.
    pub open spec fn wf(&self) -> bool {
        log_wf(self.arena@, self.options)
    }

    /// Assembles a log from its parts.
    pub fn construct(fid: u32, arena: Arena, options: Options) -> (r: Self)
        requires
            log_wf(arena@, options),
        ensures
            r == (ValueLog { fid, arena, options }),
    {
        ValueLog { fid, arena, options }
    }
}

impl Mutable for ValueLog {
}

impl Sealed for ValueLog {
    open spec fn arena_spec(&self) -> Arena {
        self.arena
    }

    open spec fn options_spec(&self) -> Options {
        self.options
    }

    open spec fn id_spec(&self) -> u32 {
        self.fid
    }

    fn allocator(&self) -> (r: &Arena) {
        &self.arena
    }
}

impl Log for ValueLog {
    fn id(&self) -> (r: u32) {
        self.fid
    }

    fn checksum(&self, bytes: &[u8]) -> (r: u64) {
        crc32(bytes)
    }

    fn options(&self) -> (r: &Options) {
        &self.options
    }

    fn magic_version(&self) -> (r: u16) {
        self.options.magic_version
    }

    fn version(&self) -> (r: u16) {
        CURRENT_VERSION
    }

    fn discarded(&self) -> (r: u32) {
        self.arena.discarded()
    }

    fn data_offset(&self) -> (r: usize) {
        self.arena.data_offset() as usize
    }

    fn reserved_slice(&self) -> (r: &[u8]) {
        self.arena.read_at(HEADER_SIZE, self.options.reserved())
    }
}

impl LogReader for ValueLog {
    fn read(&self, id: u32, offset: u32, len: u32) -> (r: Result<&[u8], Error>) {
        read_in(&self.arena, &self.options, self.fid, id, offset, len)
    }
}

impl LogWriter for ValueLog {
    fn insert(&mut self, value: &[u8]) -> (r: Result<ValuePointer<u32>, Error>) {
        insert_in(&mut self.arena, &self.options, self.fid, value)
    }

    fn insert_tombstone(&mut self, value: &[u8]) -> (r: Result<ValuePointer<u32>, Error>) {
        match insert_in(&mut self.arena, &self.options, self.fid, value) {
            Ok(p) => {
                proof {
                    assert(value@.len() <= u32::MAX);
                }
                self.arena.increase_discarded(value.len() as u32);
                Ok(p.with_tombstone())
            },
            Err(e) => Err(e),
        }
    }
}

impl MutableLog for ValueLog {
    fn write_reserved_slice(&mut self, data: &[u8]) {
        self.arena.write_at(HEADER_SIZE, data);
    }
}

/// The immutable value log: reads only, cheap to share by cloning.
#[derive(Debug, Clone)]
pub struct ImmutableValueLog {
    /// The caller-assigned log id.
    pub fid: u32,
    /// The backing arena.
    pub arena: Arena,
    /// The frozen options snapshot.
    pub options: Options,
}

impl ImmutableValueLog {
    /// Well-formedness: the arena is well formed and its record region
    /// starts where the options say.
    pub open spec fn wf(&self) -> bool {
        log_wf(self.arena@, self.options)
    }

    /// Assembles a log from its parts.
    pub fn construct(fid: u32, arena: Arena, options: Options) -> (r: Self)
        requires
            log_wf(arena@, options),
        ensures
            r == (ImmutableValueLog { fid, arena, options }),
    {
        ImmutableValueLog { fid, arena, options }
    }
}

impl Frozen for ImmutableValueLog {
}

impl Sealed for ImmutableValueLog {
    open spec fn arena_spec(&self) -> Arena {
        self.arena
    }

    open spec fn options_spec(&self) -> Options {
        self.options
    }

    open spec fn id_spec(&self) -> u32 {
        self.fid
    }

    fn allocator(&self) -> (r: &Arena) {
        &self.arena
    }
}

impl Log for ImmutableValueLog {
    fn id(&self) -> (r: u32) {
        self.fid
    }

    fn checksum(&self, bytes: &[u8]) -> (r: u64) {
        crc32(bytes)
    }

    fn options(&self) -> (r: &Options) {
        &self.options
    }

    fn magic_version(&self) -> (r: u16) {
        self.options.magic_version
    }

    fn version(&self) -> (r: u16) {
        CURRENT_VERSION
    }

    fn discarded(&self) -> (r: u32) {
        self.arena.discarded()
    }

    fn data_offset(&self) -> (r: usize) {
        self.arena.data_offset() as usize
    }

    fn reserved_slice(&self) -> (r: &[u8]) {
        self.arena.read_at(HEADER_SIZE, self.options.reserved())
    }
}

impl LogReader for ImmutableValueLog {
    fn read(&self, id: u32, offset: u32, len: u32) -> (r: Result<&[u8], Error>) {
        read_in(&self.arena, &self.options, self.fid, id, offset, len)
    }
}

/// A mutable log that stores one value type, encoding on insert and decoding
/// on read.
#[derive(Debug)]
pub struct GenericValueLog<T: Type> {
    /// The raw log underneath.
    pub log: ValueLog,
    /// Ties the stored value type to the log.
    pub marker: core::marker::PhantomData<T>,
}

impl<T: Type> GenericValueLog<T> {
    /// Well-formedness of the raw log underneath.
    pub open spec fn wf(&self) -> bool {
        self.log.wf()
    }

    /// Wraps a raw log.
    pub fn new(log: ValueLog) -> (r: Self)
        ensures
            r.log == log,
    {
        GenericValueLog { log, marker: core::marker::PhantomData }
    }
}

impl<T: Type> Mutable for GenericValueLog<T> {
}

impl<T: Type> Sealed for GenericValueLog<T> {
    open spec fn arena_spec(&self) -> Arena {
        self.log.arena
    }

    open spec fn options_spec(&self) -> Options {
        self.log.options
    }

    open spec fn id_spec(&self) -> u32 {
        self.log.fid
    }

    fn allocator(&self) -> (r: &Arena) {
        &self.log.arena
    }
}

impl<T: Type> Log for GenericValueLog<T> {
    fn id(&self) -> (r: u32) {
        self.log.fid
    }

    fn checksum(&self, bytes: &[u8]) -> (r: u64) {
        crc32(bytes)
    }

    fn options(&self) -> (r: &Options) {
        &self.log.options
    }

    fn magic_version(&self) -> (r: u16) {
        self.log.options.magic_version
    }

    fn version(&self) -> (r: u16) {
        CURRENT_VERSION
    }

    fn discarded(&self) -> (r: u32) {
        self.log.arena.discarded()
    }

    fn data_offset(&self) -> (r: usize) {
        self.log.arena.data_offset() as usize
    }

    fn reserved_slice(&self) -> (r: &[u8]) {
        self.log.arena.read_at(HEADER_SIZE, self.log.options.reserved())
    }
}

impl<T: Type> GenericLogWriter for GenericValueLog<T> {
    type Type = T;

    fn insert(&mut self, value: &T) -> (r: Result<ValuePointer<u32>, Error>) {
        self.log.insert_generic(value)
    }

    fn insert_tombstone(&mut self, value: &T) -> (r: Result<ValuePointer<u32>, Error>) {
        self.log.insert_generic_tombstone(value)
    }
}

impl<T: Type> GenericLogReader for GenericValueLog<T> {
    type Type = T;

    fn read(&self, id: u32, offset: u32, len: u32) -> (r: Result<T, Error>) {
        self.log.read_generic(id, offset, len)
    }
}

/// An immutable log that stores one value type, decoding on read.
#[derive(Debug)]
pub struct ImmutableGenericValueLog<T: Type> {
    /// The raw log underneath.
    pub log: ImmutableValueLog,
    /// Ties the stored value type to the log.
    pub marker: core::marker::PhantomData<T>,
}

impl<T: Type> ImmutableGenericValueLog<T> {
    /// Well-formedness of the raw log underneath.
    pub open spec fn wf(&self) -> bool {
        self.log.wf()
    }

    /// Wraps a raw log.
    pub fn new(log: ImmutableValueLog) -> (r: Self)
        ensures
            r.log == log,
    {
        ImmutableGenericValueLog { log, marker: core::marker::PhantomData }
    }
}

impl<T: Type> Frozen for ImmutableGenericValueLog<T> {
}

impl<T: Type> Sealed for ImmutableGenericValueLog<T> {
    open spec fn arena_spec(&self) -> Arena {
        self.log.arena
    }

    open spec fn options_spec(&self) -> Options {
        self.log.options
    }

    open spec fn id_spec(&self) -> u32 {
        self.log.fid
    }

    fn allocator(&self) -> (r: &Arena) {
        &self.log.arena
    }
}

impl<T: Type> Log for ImmutableGenericValueLog<T> {
    fn id(&self) -> (r: u32) {
        self.log.fid
    }

    fn checksum(&self, bytes: &[u8]) -> (r: u64) {
        crc32(bytes)
    }

    fn options(&self) -> (r: &Options) {
        &self.log.options
    }

    fn magic_version(&self) -> (r: u16) {
        self.log.options.magic_version
    }

    fn version(&self) -> (r: u16) {
        CURRENT_VERSION
    }

    fn discarded(&self) -> (r: u32) {
        self.log.arena.discarded()
    }

    fn data_offset(&self) -> (r: usize) {
        self.log.arena.data_offset() as usize
    }

    fn reserved_slice(&self) -> (r: &[u8]) {
        self.log.arena.read_at(HEADER_SIZE, self.log.options.reserved())
    }
}

impl<T: Type> GenericLogReader for ImmutableGenericValueLog<T> {
    type Type = T;

    fn read(&self, id: u32, offset: u32, len: u32) -> (r: Result<T, Error>) {
        self.log.read_generic(id, offset, len)
    }
}

} // verus!
