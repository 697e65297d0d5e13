//! A fixed-capacity byte builder that in-place insert closures fill.

use vstd::prelude::*;
use crate::error::{sat_u32, Error};

verus! {

/// `s` brought to exactly `n` bytes: truncated, or padded with zeroes.
pub open spec fn pad_payload(s: Seq<u8>, n: nat) -> Seq<u8> {
    if s.len() >= n {
        s.subrange(0, n as int)
    } else {
        s + Seq::new((n - s.len()) as nat, |i: int| 0u8)
    }
}

/// A byte buffer with a fixed capacity, handed to the closure of an in-place
/// insert.  The closure fills it; whatever it wrote, brought to the promised
/// size, becomes the record's payload.
#[derive(Debug)]
pub struct VacantBuffer {
    data: Vec<u8>,
    capacity: usize,
}

impl View for VacantBuffer {
    type V = Seq<u8>;

    closed spec fn view(&self) -> Seq<u8> {
        self.data@
    }
}

impl VacantBuffer {
    /// The fixed capacity of the buffer.
    pub closed spec fn spec_capacity(&self) -> nat {
        self.capacity as nat
    }

    /// The buffer never holds more than its capacity.
    pub open spec fn wf(&self) -> bool {
        self@.len() <= self.spec_capacity()
    }

    /// Creates an empty buffer of the given capacity.
    pub fn new(capacity: usize) -> (r: Self)
        ensures
            r@ == Seq::<u8>::empty(),
            r.spec_capacity() == capacity,
            r.wf(),
    {
        VacantBuffer { data: Vec::new(), capacity }
    }

    /// Returns the fixed capacity of the buffer.
    #[inline]
    pub fn capacity(&self) -> (r: usize)
        ensures
            r == self.spec_capacity(),
    {
        self.capacity
    }

    /// Returns how many bytes have been written so far.
    #[inline]
    pub fn len(&self) -> (r: usize)
        ensures
            r == self@.len(),
    {
        self.data.len()
    }

    /// Returns how many bytes still fit.
    #[inline]
    pub fn remaining(&self) -> (r: usize)
        requires
            self.wf(),
        ensures
            r == self.spec_capacity() - self@.len(),
    {
        self.capacity - self.data.len()
    }

    /// Appends `s` to the buffer, or fails without change when it does not
    /// fit the remaining capacity.
    pub fn put_slice(&mut self, s: &[u8]) -> (r: Result<(), Error>)
        requires
            old(self).wf(),
        ensures
            final(self).wf(),
            final(self).spec_capacity() == old(self).spec_capacity(),
            match r {
                Ok(()) => {
                    &&& old(self)@.len() + s@.len() <= old(self).spec_capacity()
                    &&& final(self)@ == old(self)@ + s@
                },
                Err(e) => {
                    &&& old(self)@.len() + s@.len() > old(self).spec_capacity()
                    &&& final(self)@ == old(self)@
                    &&& e == (Error::InsufficientSpace {
                        requested: sat_u32(s@.len() as int),
                        available: sat_u32(old(self).spec_capacity() - old(self)@.len()),
                    })
                },
            },
    {
        let room: usize = self.capacity - self.data.len();
        if s.len() > room {
            let requested: u32 = if s.len() > u32::MAX as usize {
                u32::MAX
            } else {
                s.len() as u32
            };
            let available: u32 = if room > u32::MAX as usize {
                u32::MAX
            } else {
                room as u32
            };
            return Err(Error::InsufficientSpace { requested, available });
        }
        let ghost before = self.data@;
        let ghost cap0 = self.capacity;
        let n: usize = s.len();
        let mut i: usize = 0;
        while i < n
            invariant
                i <= n == s@.len(),
                self.data@ == before + s@.subrange(0, i as int),
                self.capacity == cap0,
            decreases n - i,
        {
            self.data.push(*vstd::slice::slice_index_get(s, i));
            proof {
                assert(self.data@ =~= before + s@.subrange(0, i + 1));
            }
            i = i + 1;
        }
        proof {
            assert(self.data@ =~= before + s@);
        }
        Ok(())
    }

    /// Consumes the buffer and returns its bytes brought to exactly `n`:
    /// truncated, or padded with zeroes.
    pub fn into_padded(self, n: usize) -> (r: Vec<u8>)
        ensures
            r@ == pad_payload(self@, n as nat),
    {
        let ghost orig = self@;
        let mut data = self.data;
        if data.len() > n {
            data.truncate(n);
        } else {
            let ghost before = data@;
            while data.len() < n
                invariant
                    before.len() <= data@.len() <= vstd::math::max(n as int, before.len() as int),
                    data@.subrange(0, before.len() as int) == before,
                    forall|i: int| before.len() <= i < data@.len() ==> data@[i] == 0u8,
                decreases n - data.len(),
            {
                data.push(0u8);
            }
            proof {
                assert(data@ =~= before + Seq::new((data@.len() - before.len()) as nat, |i: int| 0u8));
            }
        }
        proof {
            assert(data@ =~= pad_payload(orig, n as nat));
        }
        data
    }
}

} // verus!
