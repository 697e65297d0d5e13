//! An append-only, checksummed value log: the value side of a WiscKey-style
//! key/value engine.
//!
//! A log owns a bump-allocated byte arena with a fixed capacity.  Each insert
//! appends one record — the payload followed by an eight-byte little-endian
//! checksum of the payload — and hands back a compact [`ValuePointer`] that
//! later resolves the payload again.  Reads are bounds-checked and, when
//! enabled, verified against the stored checksum.

pub mod arena;
pub mod buffer;
pub mod builder;
pub mod checksum;
pub mod error;
pub mod log;
pub mod options;
pub mod types;

pub use buffer::VacantBuffer;
pub use builder::Builder;
pub use error::{Either, Error};
pub use log::common::{Log, LogExt, MutableLog};
pub use log::reader::{GenericLogReader, LogReader, LogReaderExt};
pub use log::sealed::Sealed;
pub use log::writer::{GenericLogWriter, LogWriter, LogWriterExt};
pub use log::{
    Frozen, GenericValueLog, ImmutableGenericValueLog, ImmutableValueLog, Mutable, ValueLog,
    ValuePointer,
};
pub use options::{Freelist, Options};
pub use types::Type;
