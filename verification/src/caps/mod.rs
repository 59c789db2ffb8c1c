//! Capability structures: the typed records, and the walker that traverses
//! the traditional and extended capability chains of one function.

pub mod binary_parser;
pub mod header;
pub mod power_management;
pub mod unknown;

use vstd::prelude::*;

use crate::access::Access;
use crate::caps::header::{CommonHeader, Header};
use crate::caps::power_management::{spec_pm_string, PowerManagementCapability};
use crate::caps::unknown::{spec_unknown_string, UnknownCapability, UnknownExtendedCapability};
use crate::error::Result;

verus! {

/// A decoded capability structure: something with an offset and a rendering.
pub trait Capability: Sized {
    /// The absolute configuration-space offset of the capability header.
    spec fn offset_spec(&self) -> u64;

    fn cap_string(&self, verbosity: u8) -> Result<String>;

    fn offset(&self) -> (r: Result<u64>)
        ensures
            r == Result::<u64>::Ok(self.offset_spec()),
    ;
}

/// One record of a function's capability list: the specialized Power
/// Management decoder for capability ID 1, generic pass-through records for
/// everything else.
#[derive(Debug, PartialEq, Eq, Structural)]
pub enum CapabilityRecord {
    PowerManagement(PowerManagementCapability),
    Unknown(UnknownCapability),
    UnknownExtended(UnknownExtendedCapability),
}

/// The rendered form of one capability record.
pub open spec fn spec_cap_record_string(c: CapabilityRecord, verbosity: u8) -> Seq<char> {
    match c {
        CapabilityRecord::PowerManagement(p) => spec_pm_string(p, verbosity),
        CapabilityRecord::Unknown(u) => spec_unknown_string(u.id as nat, u.offset as nat),
        CapabilityRecord::UnknownExtended(u) => spec_unknown_string(u.id as nat, u.offset as nat),
    }
}

impl Capability for CapabilityRecord {
    open spec fn offset_spec(&self) -> u64 {
        match self {
            CapabilityRecord::PowerManagement(p) => p.offset as u64,
            CapabilityRecord::Unknown(u) => u.offset as u64,
            CapabilityRecord::UnknownExtended(u) => u.offset as u64,
        }
    }

    /// Renders the record under its own decoder.
    fn cap_string(&self, verbosity: u8) -> (r: Result<String>)
        ensures
            r is Ok,
            r->Ok_0@ == spec_cap_record_string(*self, verbosity),
    {
        match self {
            CapabilityRecord::PowerManagement(p) => p.cap_string(verbosity),
            CapabilityRecord::Unknown(u) => u.cap_string(verbosity),
            CapabilityRecord::UnknownExtended(u) => u.cap_string(verbosity),
        }
    }

    fn offset(&self) -> (r: Result<u64>)
        ensures
            r == Result::<u64>::Ok(self.offset_spec()),
    {
        match self {
            CapabilityRecord::PowerManagement(p) => p.offset(),
            CapabilityRecord::Unknown(u) => u.offset(),
            CapabilityRecord::UnknownExtended(u) => u.offset(),
        }
    }
}

/// How many entries of `s` are true: the size of a walker's visited set.
pub open spec fn count_true(s: Seq<bool>) -> nat
    decreases s.len(),
{
    if s.len() == 0 {
        0
    } else {
        count_true(s.drop_last()) + if s.last() {
            1nat
        } else {
            0nat
        }
    }
}

proof fn lemma_count_true_zero(s: Seq<bool>)
    requires
        forall|i: int| 0 <= i < s.len() ==> !s[i],
    ensures
        count_true(s) == 0,
    decreases s.len(),
{
    if s.len() > 0 {
        lemma_count_true_zero(s.drop_last());
    }
}

proof fn lemma_count_true_le(s: Seq<bool>)
    ensures
        count_true(s) <= s.len(),
    decreases s.len(),
{
    if s.len() > 0 {
        lemma_count_true_le(s.drop_last());
    }
}

proof fn lemma_count_true_update(s: Seq<bool>, i: int)
    requires
        0 <= i < s.len(),
        !s[i],
    ensures
        count_true(s.update(i, true)) == count_true(s) + 1,
    decreases s.len(),
{
    if i == s.len() - 1 {
        assert(s.update(i, true).drop_last() =~= s.drop_last());
    } else {
        assert(s.update(i, true).drop_last() =~= s.drop_last().update(i, true));
        lemma_count_true_update(s.drop_last(), i);
    }
}

/// How a scan's result list is laid out: the traditional records come first,
/// the extended records after them, and within each chain no offset appears
/// twice.
pub open spec fn spec_scan_split(caps: Seq<CapabilityRecord>, t: int) -> bool {
    &&& 0 <= t <= caps.len()
    &&& (forall|i: int| 0 <= i < t ==> !((#[trigger] caps[i]) is UnknownExtended))
    &&& (forall|i: int| t <= i < caps.len() ==> (#[trigger] caps[i]) is UnknownExtended)
    &&& (forall|i: int, j: int|
        0 <= i < j < t ==> #[trigger] caps[i].offset_spec() != #[trigger] caps[j].offset_spec())
    &&& (forall|i: int, j: int|
        t <= i < j < caps.len() ==> #[trigger] caps[i].offset_spec()
            != #[trigger] caps[j].offset_spec())
}

/// Walks the capability chains of one function through its byte accessor and
/// dispatches each offset to a typed or generic record decoder.
pub struct CapabilityFactory<'a, A: Access> {
    access: &'a A,
}

impl<'a, A: Access> CapabilityFactory<'a, A> {
    pub fn new(access: &'a A) -> CapabilityFactory<'a, A> {
        CapabilityFactory { access }
    }

    /// Walks the traditional chain, then — only when the status register
    /// advertises extended capabilities — the extended chain. Some devices
    /// advertise extended capabilities they do not have, so any error while
    /// walking the extended chain degrades to "no extended capabilities"
    /// instead of failing the scan.
    pub fn scan(&self) -> (r: Result<Vec<CapabilityRecord>>)
        ensures
            r is Ok ==> r->Ok_0@.len() <= 255 + 4095,
            r is Ok ==> exists|t: int| #[trigger] spec_scan_split(r->Ok_0@, t),
    {
        let mut capabilities = self.scan_trad()?;
        let ghost t = capabilities@.len() as int;

        let raw = self.access.read(0, 0x40)?;
        let header = Header::new(raw.as_slice())?;

        let has_extended_capabilities = header.status()? & (1u16 << 4) > 0;
        if has_extended_capabilities {
            // Some devices advertise extended capabilities even though they
            // don't have them; ignore errors in that case.
            match self.scan_extended() {
                Ok(mut extended) => {
                    capabilities.append(&mut extended);
                    proof {
                        assert(0 <= t <= capabilities@.len());
                    }
                },
                Err(_) => {
                    proof {
                        assert(t == capabilities@.len());
                    }
                },
            }
        }
        let r: Result<Vec<CapabilityRecord>> = Ok(capabilities);
        proof {
            assert(spec_scan_split(r->Ok_0@, t));
        }
        r
    }

    /// Walks the traditional chain: one byte of capability ID at each offset,
    /// one byte of next-offset after it, anchored at the capability pointer.
    /// The set of visited offsets is seeded with zero, so a zero next-offset
    /// terminates, and no offset is ever visited twice — a cyclic chain from
    /// a malformed device stops as soon as it closes on itself.
    fn scan_trad(&self) -> (r: Result<Vec<CapabilityRecord>>)
        ensures
            r is Ok ==> r->Ok_0@.len() <= 255,
            r is Ok ==> forall|i: int|
                0 <= i < r->Ok_0@.len() ==> !((#[trigger] r->Ok_0@[i]) is UnknownExtended),
            r is Ok ==> forall|i: int, j: int|
                0 <= i < j < r->Ok_0@.len() ==> #[trigger] r->Ok_0@[i].offset_spec()
                    != #[trigger] r->Ok_0@[j].offset_spec(),
    {
        let mut capabilities: Vec<CapabilityRecord> = Vec::new();
        let mut seen: Vec<bool> = vec![false; 256];
        proof {
            lemma_count_true_zero(seen@);
            lemma_count_true_update(seen@, 0);
        }
        seen[0] = true;

        let mut bytes = self.access.read(0x34, 1)?;
        let mut offset: u8 = match bytes.pop() {
            Some(b) => b,
            None => 0,
        };

        while !seen[offset as usize]
            invariant
                seen@.len() == 256,
                seen@[0],
                1 <= count_true(seen@),
                capabilities@.len() + 1 <= count_true(seen@),
                forall|m: int|
                    0 <= m < capabilities@.len() ==> {
                        &&& !((#[trigger] capabilities@[m]) is UnknownExtended)
                        &&& capabilities@[m].offset_spec() < 256
                        &&& seen@[capabilities@[m].offset_spec() as int]
                    },
                forall|i: int, j: int|
                    0 <= i < j < capabilities@.len() ==> #[trigger] capabilities@[i].offset_spec()
                        != #[trigger] capabilities@[j].offset_spec(),
            decreases 256 - count_true(seen@),
        {
            proof {
                lemma_count_true_update(seen@, offset as int);
                lemma_count_true_le(seen@.update(offset as int, true));
            }
            seen[offset as usize] = true;

            let id = UnknownCapability::id(self.access, offset)?;
            capabilities.push(self.new_trad(id, offset)?);
            offset = UnknownCapability::next(self.access, offset)?;
        }
        proof {
            lemma_count_true_le(seen@);
        }
        Ok(capabilities)
    }

    /// Walks the extended chain from its fixed anchor at offset 0x100: a
    /// two-byte ID at each offset and a next-offset in the top twelve bits of
    /// the following two bytes. The same cycle guard as the traditional chain
    /// bounds the walk by the 4096 word-aligned offsets of extended
    /// configuration space.
    fn scan_extended(&self) -> (r: Result<Vec<CapabilityRecord>>)
        ensures
            r is Ok ==> r->Ok_0@.len() <= 4095,
            r is Ok ==> forall|i: int|
                0 <= i < r->Ok_0@.len() ==> (#[trigger] r->Ok_0@[i]) is UnknownExtended,
            r is Ok ==> forall|i: int, j: int|
                0 <= i < j < r->Ok_0@.len() ==> #[trigger] r->Ok_0@[i].offset_spec()
                    != #[trigger] r->Ok_0@[j].offset_spec(),
    {
        let mut capabilities: Vec<CapabilityRecord> = Vec::new();
        let mut seen: Vec<bool> = vec![false; 4096];
        proof {
            lemma_count_true_zero(seen@);
            lemma_count_true_update(seen@, 0);
        }
        seen[0] = true;

        let mut offset: u16 = 0x100;

        while !seen[offset as usize]
            invariant
                seen@.len() == 4096,
                seen@[0],
                offset < 4096,
                1 <= count_true(seen@),
                capabilities@.len() + 1 <= count_true(seen@),
                forall|m: int|
                    0 <= m < capabilities@.len() ==> {
                        &&& ((#[trigger] capabilities@[m]) is UnknownExtended)
                        &&& capabilities@[m].offset_spec() < 4096
                        &&& seen@[capabilities@[m].offset_spec() as int]
                    },
                forall|i: int, j: int|
                    0 <= i < j < capabilities@.len() ==> #[trigger] capabilities@[i].offset_spec()
                        != #[trigger] capabilities@[j].offset_spec(),
            decreases 4096 - count_true(seen@),
        {
            proof {
                lemma_count_true_update(seen@, offset as int);
                lemma_count_true_le(seen@.update(offset as int, true));
            }
            seen[offset as usize] = true;

            let id = UnknownExtendedCapability::id(self.access, offset)?;
            capabilities.push(self.new_extended(id, offset)?);
            offset = UnknownExtendedCapability::next(self.access, offset)?;
        }
        proof {
            lemma_count_true_le(seen@);
        }
        Ok(capabilities)
    }

    /// Dispatches one traditional capability offset: ID 1 gets the Power
    /// Management decoder, everything else a generic record.
    fn new_trad(&self, id: u8, offset: u8) -> (r: Result<CapabilityRecord>)
        ensures
            r is Ok ==> r->Ok_0.offset_spec() == offset as u64,
            r is Ok ==> !(r->Ok_0 is UnknownExtended),
    {
        match id {
            0x1 => Ok(
                CapabilityRecord::PowerManagement(
                    PowerManagementCapability::new(self.access, offset)?,
                ),
            ),
            _ => Ok(CapabilityRecord::Unknown(UnknownCapability::new(self.access, offset)?)),
        }
    }

    /// Wraps one extended capability offset in a generic record.
    fn new_extended(&self, _id: u16, offset: u16) -> (r: Result<CapabilityRecord>)
        ensures
            r is Ok ==> r->Ok_0.offset_spec() == offset as u64,
            r is Ok ==> r->Ok_0 is UnknownExtended,
    {
        Ok(
            CapabilityRecord::UnknownExtended(
                UnknownExtendedCapability::new(self.access, offset)?,
            ),
        )
    }
}

} // verus!
