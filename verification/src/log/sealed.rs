//! The internal plumbing trait shared by every log flavour.

use vstd::prelude::*;
use crate::arena::Arena;
use crate::options::Options;

verus! {

/// Grants access to the backing arena and fixes a log's abstract state: its
/// arena, its options snapshot and its caller-assigned id.
pub trait Sealed {
    /// The backing arena, as a spec-level value.
    spec fn arena_spec(&self) -> Arena;

    /// The options snapshot, as a spec-level value.
    spec fn options_spec(&self) -> Options;

    /// The caller-assigned log id.
    spec fn id_spec(&self) -> u32;

    /// Returns the backing arena.
    fn allocator(&self) -> (r: &Arena)
        ensures
            *r == self.arena_spec(),
    ;
}

} // verus!
