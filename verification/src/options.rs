//! Frozen configuration of a value log.

use vstd::prelude::*;

verus! {

/// Freelist behaviour that a backing allocator may use.  The value log keeps
/// it only as configuration: records are never reclaimed individually.
#[derive(Debug, Clone, Copy, PartialEq, Eq, Structural)]
pub enum Freelist {
    /// Keep no freelist at all.
    Disabled,
    /// Detach a region from the freelist optimistically.
    Optimistic,
    /// Detach a region from the freelist only when it fits exactly.
    Pessimistic,
}

/// Options for configuring a value log.  Frozen once the log is constructed.
#[derive(Debug, Clone, Copy, PartialEq, Eq, Structural)]
pub struct Options {
    /// Cap on `payload + 8` for a single insert.
    pub max_value_size: u32,
    /// User-visible compatibility tag stored in the header.
    pub magic_version: u16,
    /// Arena size for in-memory logs.
    pub capacity: Option<u32>,
    /// Write the header even for in-memory logs.
    pub unify: bool,
    /// Freelist kind forwarded to the allocator.
    pub freelist: Freelist,
    /// Extra caller-reserved bytes after the eight-byte header.
    pub reserved: u32,
    /// Lock the first page in memory on file-backed logs.
    pub lock_meta: bool,
    /// Flush after each insert on file-backed logs.
    pub sync: bool,
    /// Verify the stored checksum on reads.
    pub validate_checksum: bool,
    /// Fail if the file already exists.
    pub create_new: bool,
    /// Create the file if it does not exist.
    pub create: bool,
    /// Open the file for reading.
    pub read: bool,
    /// Open the file for writing.
    pub write: bool,
    /// Open the file in append mode.
    pub append: bool,
    /// Truncate the file on open.
    pub truncate: bool,
    /// Map the file starting at this byte offset.
    pub offset: u64,
    /// Map with stack-style grow-down semantics.
    pub stack: bool,
    /// Request huge pages of the given size exponent.
    pub huge: Option<u8>,
    /// Populate the mapping eagerly.
    pub populate: bool,
}

impl Options {
    /// Creates a new set of options with the default values.
    #[inline]
    pub fn new() -> (r: Self)
        ensures
            r == Options::spec_new(),
    {
        Self {
            max_value_size: u32::MAX,
            capacity: None,
            unify: false,
            magic_version: 0,
            freelist: Freelist::Disabled,
            reserved: 0,
            lock_meta: false,
            sync: true,
            validate_checksum: true,
            create_new: false,
            create: false,
            read: false,
            write: false,
            append: false,
            truncate: false,
            offset: 0,
            stack: false,
            huge: None,
            populate: false,
        }
    }

    /// The default option set: checksum validation and per-insert sync on,
    /// everything else off or empty.
    pub open spec fn spec_new() -> Self {
        Options {
            max_value_size: u32::MAX,
            capacity: None,
            unify: false,
            magic_version: 0,
            freelist: Freelist::Disabled,
            reserved: 0,
            lock_meta: false,
            sync: true,
            validate_checksum: true,
            create_new: false,
            create: false,
            read: false,
            write: false,
            append: false,
            truncate: false,
            offset: 0,
            stack: false,
            huge: None,
            populate: false,
        }
    }

    /// Sets the reserved bytes of the log, placed between the header and the
    /// record region.
    #[inline]
    pub fn with_reserved(self, reserved: u32) -> (r: Self)
        ensures
            r == (Options { reserved, ..self }),
    {
        Options { reserved, ..self }
    }

    /// Sets whether data is flushed to disk as soon as a value is inserted.
    #[inline]
    pub fn with_sync(self, sync: bool) -> (r: Self)
        ensures
            r == (Options { sync, ..self }),
    {
        Options { sync, ..self }
    }

    /// Sets whether the checksum of a value is validated when reading it.
    #[inline]
    pub fn with_validate_checksum(self, validate_checksum: bool) -> (r: Self)
        ensures
            r == (Options { validate_checksum, ..self }),
    {
        Options { validate_checksum, ..self }
    }

    /// Sets whether the first page of the log is locked in memory.
    #[inline]
    pub fn with_lock_meta(self, lock_meta: bool) -> (r: Self)
        ensures
            r == (Options { lock_meta, ..self }),
    {
        Options { lock_meta, ..self }
    }

    /// Sets the magic version of the value log.
    #[inline]
    pub fn with_magic_version(self, magic_version: u16) -> (r: Self)
        ensures
            r == (Options { magic_version, ..self }),
    {
        Options { magic_version, ..self }
    }

    /// Sets the freelist kind of the value log.
    #[inline]
    pub fn with_freelist(self, freelist: Freelist) -> (r: Self)
        ensures
            r == (Options { freelist, ..self }),
    {
        Options { freelist, ..self }
    }

    /// Sets whether in-memory logs also carry the magic header.
    #[inline]
    pub fn with_unify(self, unify: bool) -> (r: Self)
        ensures
            r == (Options { unify, ..self }),
    {
        Options { unify, ..self }
    }

    /// Sets the maximum size of a record (payload plus trailing checksum).
    #[inline]
    pub fn with_maximum_value_size(self, size: u32) -> (r: Self)
        ensures
            r == (Options { max_value_size: size, ..self }),
    {
        Options { max_value_size: size, ..self }
    }

    /// Sets the capacity of the underlying arena.
    #[inline]
    pub fn with_capacity(self, capacity: u32) -> (r: Self)
        ensures
            r == (Options { capacity: Some(capacity), ..self }),
    {
        Options { capacity: Some(capacity), ..self }
    }

    /// Returns the reserved bytes of the log.
    #[inline]
    pub fn reserved(&self) -> (r: u32)
        ensures
            r == self.reserved,
    {
        self.reserved
    }

    /// Returns whether data is flushed to disk as soon as a value is inserted.
    #[inline]
    pub fn sync(&self) -> (r: bool)
        ensures
            r == self.sync,
    {
        self.sync
    }

    /// Returns whether the checksum of a value is validated when reading it.
    #[inline]
    pub fn validate_checksum(&self) -> (r: bool)
        ensures
            r == self.validate_checksum,
    {
        self.validate_checksum
    }

    /// Returns whether the first page of the log is locked in memory.
    #[inline]
    pub fn lock_meta(&self) -> (r: bool)
        ensures
            r == self.lock_meta,
    {
        self.lock_meta
    }

    /// Returns the maximum size of a record (payload plus trailing checksum).
    #[inline]
    pub fn maximum_value_size(&self) -> (r: u32)
        ensures
            r == self.max_value_size,
    {
        self.max_value_size
    }

    /// Returns the configured capacity, or zero where none was set.
    #[inline]
    pub fn capacity(&self) -> (r: u32)
        ensures
            r == self.spec_capacity(),
    {
        match self.capacity {
            Some(capacity) => capacity,
            None => 0,
        }
    }

    /// The configured capacity, or zero where none was set.
    pub open spec fn spec_capacity(&self) -> u32 {
        match self.capacity {
            Some(capacity) => capacity,
            None => 0,
        }
    }

    /// Returns whether in-memory logs also carry the magic header.
    #[inline]
    pub fn unify(&self) -> (r: bool)
        ensures
            r == self.unify,
    {
        self.unify
    }

    /// Returns the magic version of the value log.
    #[inline]
    pub fn magic_version(&self) -> (r: u16)
        ensures
            r == self.magic_version,
    {
        self.magic_version
    }

    /// Returns the freelist kind of the value log.
    #[inline]
    pub fn freelist(&self) -> (r: Freelist)
        ensures
            r == self.freelist,
    {
        self.freelist
    }

    /// Sets the option for read access.
    #[inline]
    pub fn with_read(self, read: bool) -> (r: Self)
        ensures
            r == (Options { read, ..self }),
    {
        Options { read, ..self }
    }

    /// Sets the option for write access.
    #[inline]
    pub fn with_write(self, write: bool) -> (r: Self)
        ensures
            r == (Options { write, ..self }),
    {
        Options { write, ..self }
    }

    /// Sets the option for append mode; implies write access.
    #[inline]
    pub fn with_append(self, append: bool) -> (r: Self)
        ensures
            r == (Options { write: true, append, ..self }),
    {
        Options { write: true, append, ..self }
    }

    /// Sets the option for truncating the file on open; implies write access.
    #[inline]
    pub fn with_truncate(self, truncate: bool) -> (r: Self)
        ensures
            r == (Options { write: true, truncate, ..self }),
    {
        Options { write: true, truncate, ..self }
    }

    /// Sets the option for creating the file if it does not exist.
    #[inline]
    pub fn with_create(self, create: bool) -> (r: Self)
        ensures
            r == (Options { create, ..self }),
    {
        Options { create, ..self }
    }

    /// Sets the option for failing if the file already exists.
    #[inline]
    pub fn with_create_new(self, create_new: bool) -> (r: Self)
        ensures
            r == (Options { create_new, ..self }),
    {
        Options { create_new, ..self }
    }

    /// Sets the byte offset at which the file is mapped.
    #[inline]
    pub fn with_offset(self, offset: u64) -> (r: Self)
        ensures
            r == (Options { offset, ..self }),
    {
        Options { offset, ..self }
    }

    /// Sets the option for stack-style mappings.
    #[inline]
    pub fn with_stack(self, stack: bool) -> (r: Self)
        ensures
            r == (Options { stack, ..self }),
    {
        Options { stack, ..self }
    }

    /// Sets the requested huge-page size exponent.
    #[inline]
    pub fn with_huge(self, huge: Option<u8>) -> (r: Self)
        ensures
            r == (Options { huge, ..self }),
    {
        Options { huge, ..self }
    }

    /// Sets the option for populating the mapping eagerly.
    #[inline]
    pub fn with_populate(self, populate: bool) -> (r: Self)
        ensures
            r == (Options { populate, ..self }),
    {
        Options { populate, ..self }
    }

    /// Returns the option for read access.
    #[inline]
    pub fn read(&self) -> (r: bool)
        ensures
            r == self.read,
    {
        self.read
    }

    /// Returns the option for write access.
    #[inline]
    pub fn write(&self) -> (r: bool)
        ensures
            r == self.write,
    {
        self.write
    }

    /// Returns the option for append mode.
    #[inline]
    pub fn append(&self) -> (r: bool)
        ensures
            r == self.append,
    {
        self.append
    }

    /// Returns the option for truncating the file on open.
    #[inline]
    pub fn truncate(&self) -> (r: bool)
        ensures
            r == self.truncate,
    {
        self.truncate
    }

    /// Returns the option for creating the file if it does not exist.
    #[inline]
    pub fn create(&self) -> (r: bool)
        ensures
            r == self.create,
    {
        self.create
    }

    /// Returns the option for failing if the file already exists.
    #[inline]
    pub fn create_new(&self) -> (r: bool)
        ensures
            r == self.create_new,
    {
        self.create_new
    }

    /// Returns the byte offset at which the file is mapped.
    #[inline]
    pub fn offset(&self) -> (r: u64)
        ensures
            r == self.offset,
    {
        self.offset
    }

    /// Returns the option for stack-style mappings.
    #[inline]
    pub fn stack(&self) -> (r: bool)
        ensures
            r == self.stack,
    {
        self.stack
    }

    /// Returns the requested huge-page size exponent.
    #[inline]
    pub fn huge(&self) -> (r: Option<u8>)
        ensures
            r == self.huge,
    {
        self.huge
    }

    /// Returns the option for populating the mapping eagerly.
    #[inline]
    pub fn populate(&self) -> (r: bool)
        ensures
            r == self.populate,
    {
        self.populate
    }
}

impl Default for Options {
    /// The same option set as [`Options::new`].
    #[inline]
    fn default() -> (r: Options)
        ensures
            r == Options::spec_new(),
    {
        Options::new()
    }
}

} // verus!
