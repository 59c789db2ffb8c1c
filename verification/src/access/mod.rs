//! Random-access views of a PCI function's configuration space, independent of
//! the backing store.

pub mod dump;
pub mod sysfs;

use vstd::prelude::*;

use crate::error::Result;

verus! {

/// A backing store for one function's configuration-space bytes.
///
/// `read` may return fewer bytes than requested (a dump truncates at its end);
/// consumers that need the full length must treat a short read as a failure at
/// their own layer. `write` reports how many bytes the store accepted; a
/// read-only store may accept them all without changing anything. Implementors
/// outside this crate (a live register file) are not verified: nothing beyond
/// these two bounds is promised of them.
pub trait Access {
    fn read(&self, offset: u64, length: usize) -> (r: Result<Vec<u8>>)
        ensures
            r is Ok ==> r->Ok_0@.len() <= length,
    ;

    fn write(&self, offset: u64, value: &[u8]) -> (r: Result<usize>)
        ensures
            r is Ok ==> r->Ok_0 <= value@.len(),
    ;
}

} // verus!
