//! A configuration-space accessor backed by a captured in-memory byte dump.

use vstd::prelude::*;
use vstd::slice::{slice_subrange, slice_to_vec};

use crate::access::Access;
use crate::error::Result;

verus! {

/// What a read of `length` bytes at `offset` returns out of a dump: the bytes
/// up to the end of the dump, silently truncated — never an error.
pub open spec fn spec_dump_read(dump: Seq<u8>, offset: nat, length: nat) -> Seq<u8> {
    let start = if offset > dump.len() {
        dump.len()
    } else {
        offset
    };
    let end = if start + length > dump.len() {
        dump.len()
    } else {
        start + length
    };
    dump.subrange(start as int, end as int)
}

/// A read-only accessor over a point-in-time capture of configuration space.
pub struct DumpAccess {
    dump: Vec<u8>,
}

impl View for DumpAccess {
    type V = Seq<u8>;

    closed spec fn view(&self) -> Seq<u8> {
        self.dump@
    }
}

impl DumpAccess {
    pub fn new(dump: &[u8]) -> (r: DumpAccess)
        ensures
            r@ == dump@,
    {
        DumpAccess { dump: slice_to_vec(dump) }
    }
}

impl Access for DumpAccess {
    /// Reading never fails; past-the-end requests truncate.
    fn read(&self, offset: u64, length: usize) -> (r: Result<Vec<u8>>)
        ensures
            r is Ok,
            r->Ok_0@ == spec_dump_read(self@, offset as nat, length as nat),
    {
        let len = self.dump.len();
        let start: usize = if offset >= len as u64 {
            len
        } else {
            offset as usize
        };
        let end: usize = if length > len - start {
            len
        } else {
            start + length
        };
        Ok(slice_to_vec(slice_subrange(self.dump.as_slice(), start, end)))
    }

    /// Writing to a captured dump is a no-op that reports full acceptance:
    /// a dump models read-only state.
    fn write(&self, _offset: u64, buffer: &[u8]) -> (r: Result<usize>)
        ensures
            r is Ok,
            r->Ok_0 == buffer@.len(),
    {
        Ok(buffer.len())
    }
}

} // verus!
