//! Generic pass-through capability records: every capability ID without a
//! specialized decoder is kept as its ID and offset and rendered as a
//! placeholder.

use vstd::prelude::*;
use vstd::string::StringExecFns;

use core::ops::Range;

use crate::access::Access;
use crate::caps::binary_parser::BinaryParser;
use crate::caps::Capability;
use crate::error::{Error, ErrorKind, IoErrorClass, Result};
use crate::text::{dec_string, hex_string, spec_dec, spec_hex};

verus! {

/// The error reported when the accessor hands back fewer bytes than a
/// capability field needs.
pub open spec fn spec_short_read_message(offset: nat) -> Seq<char> {
    "Unable to read offset "@ + spec_dec(offset)
}

fn short_read_error(offset: u64) -> (e: Error)
    ensures
        e.error_kind == ErrorKind::IoError(IoErrorClass::PermissionDenied),
        e.message@ == spec_short_read_message(offset as nat),
{
    let mut message = String::from_str("Unable to read offset ");
    message.append(dec_string(offset).as_str());
    Error { error_kind: ErrorKind::IoError(IoErrorClass::PermissionDenied), message }
}

/// The placeholder line of a capability without a specialized decoder.
pub open spec fn spec_unknown_string(id: nat, offset: nat) -> Seq<char> {
    "Capability 0x"@ + spec_hex(id, 1) + " at 0x"@ + spec_hex(offset, 1)
}

/// A traditional capability this crate does not specialize: its one-byte ID
/// and the byte offset of its header.
#[derive(Debug, PartialEq, Eq, Structural)]
pub struct UnknownCapability {
    pub offset: u8,
    pub id: u8,
}

impl UnknownCapability {
    /// Reads the capability's ID and captures it together with its offset.
    pub fn new<A: Access>(access: &A, offset: u8) -> (r: Result<UnknownCapability>)
        ensures
            r is Ok ==> r->Ok_0.offset == offset,
    {
        let id = Self::id(access, offset)?;
        Ok(UnknownCapability { offset, id })
    }

    /// The one-byte capability ID stored at the capability's own offset.
    pub fn id<A: Access>(access: &A, offset: u8) -> Result<u8> {
        let mut bytes = access.read(offset as u64, 1)?;
        match bytes.pop() {
            Some(b) => Ok(b),
            None => Err(short_read_error(offset as u64 + 1)),
        }
    }

    /// The one-byte next-capability offset stored right after the ID;
    /// an offset of zero terminates the chain.
    pub fn next<A: Access>(access: &A, offset: u8) -> Result<u8> {
        let mut bytes = access.read(offset as u64 + 1, 1)?;
        match bytes.pop() {
            Some(b) => Ok(b),
            None => Err(short_read_error(offset as u64 + 1)),
        }
    }
}

impl Capability for UnknownCapability {
    open spec fn offset_spec(&self) -> u64 {
        self.offset as u64
    }

    /// Renders the placeholder line; verbosity does not change it.
    fn cap_string(&self, _verbosity: u8) -> (r: Result<String>)
        ensures
            r is Ok,
            r->Ok_0@ == spec_unknown_string(self.id as nat, self.offset as nat),
    {
        let mut text = String::from_str("Capability 0x");
        text.append(hex_string(self.id as u64, 1).as_str());
        text.append(" at 0x");
        text.append(hex_string(self.offset as u64, 1).as_str());
        proof {
            reveal_strlit("Capability 0x");
            reveal_strlit(" at 0x");
            assert(text@ =~= spec_unknown_string(self.id as nat, self.offset as nat));
        }
        Ok(text)
    }

    fn offset(&self) -> (r: Result<u64>)
        ensures
            r == Result::<u64>::Ok(self.offset_spec()),
    {
        Ok(self.offset as u64)
    }
}

/// An extended capability this crate does not specialize: its two-byte ID and
/// the absolute offset of its header.
#[derive(Debug, PartialEq, Eq, Structural)]
pub struct UnknownExtendedCapability {
    pub offset: u16,
    pub id: u16,
}

impl UnknownExtendedCapability {
    /// Reads the capability's ID and captures it together with its offset.
    pub fn new<A: Access>(access: &A, offset: u16) -> (r: Result<UnknownExtendedCapability>)
        ensures
            r is Ok ==> r->Ok_0.offset == offset,
    {
        let id = Self::id(access, offset)?;
        Ok(UnknownExtendedCapability { offset, id })
    }

    /// The two-byte capability ID stored at the capability's own offset.
    pub fn id<A: Access>(access: &A, offset: u16) -> Result<u16> {
        let bytes = access.read(offset as u64, 2)?;
        BinaryParser::le16(bytes.as_slice(), Range { start: 0, end: 2 })
    }

    /// The next-capability offset: the top twelve bits of the two-byte field
    /// after the ID; the low four bits carry the capability version and are
    /// discarded here. An offset of zero terminates the chain.
    pub fn next<A: Access>(access: &A, offset: u16) -> (r: Result<u16>)
        ensures
            r is Ok ==> r->Ok_0 < 0x1000,
    {
        let bytes = access.read(offset as u64 + 2, 2)?;
        let field = BinaryParser::le16(bytes.as_slice(), Range { start: 0, end: 2 })?;
        let next = field >> 4;
        proof {
            assert(field >> 4 < 0x1000) by (bit_vector);
        }
        Ok(next)
    }
}

impl Capability for UnknownExtendedCapability {
    open spec fn offset_spec(&self) -> u64 {
        self.offset as u64
    }

    /// Renders the placeholder line; verbosity does not change it.
    fn cap_string(&self, _verbosity: u8) -> (r: Result<String>)
        ensures
            r is Ok,
            r->Ok_0@ == spec_unknown_string(self.id as nat, self.offset as nat),
    {
        let mut text = String::from_str("Capability 0x");
        text.append(hex_string(self.id as u64, 1).as_str());
        text.append(" at 0x");
        text.append(hex_string(self.offset as u64, 1).as_str());
        proof {
            reveal_strlit("Capability 0x");
            reveal_strlit(" at 0x");
            assert(text@ =~= spec_unknown_string(self.id as nat, self.offset as nat));
        }
        Ok(text)
    }

    fn offset(&self) -> (r: Result<u64>)
        ensures
            r == Result::<u64>::Ok(self.offset_spec()),
    {
        Ok(self.offset as u64)
    }
}

} // verus!
