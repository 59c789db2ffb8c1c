//! One PCI function: its address, its decoded header, and its capability
//! list, all derived once from a point-in-time read through its accessor.

use vstd::prelude::*;
use vstd::string::StringExecFns;

use crate::access::Access;
use crate::bdf::{spec_bdf_eq, spec_bdf_string, BusDeviceFunction};
use crate::caps::binary_parser::spec_le16_at;
use crate::caps::header::{
    spec_bus_string, spec_device_string, spec_subsystem_string, CommonHeader, Header,
};
use crate::caps::{spec_cap_record_string, Capability, CapabilityFactory, CapabilityRecord};
use crate::error::{ErrorKind, Result};
use crate::text::{hex_string, spec_hex};
use crate::vdc::VendorDeviceClass;

verus! {

/// The description of a function's header under a verbosity: the one-line
/// description alone, or with the layout's detail line at verbosity 1 and up.
pub open spec fn spec_header_string(h: Header, verbosity: u8) -> Seq<char> {
    if verbosity == 0 {
        spec_device_string(h.raw_spec())
    } else {
        match h {
            Header::Type0(_) => spec_device_string(h.raw_spec()) + "\n\t"@ + spec_subsystem_string(
                h.raw_spec(),
            ),
            Header::Type1(_) => spec_device_string(h.raw_spec()) + "\n\t"@ + spec_bus_string(
                h.raw_spec(),
            ),
        }
    }
}

/// The capability section of a function's description: one indented line per
/// record, in scan order.
pub open spec fn spec_cap_lines(caps: Seq<CapabilityRecord>, verbosity: u8) -> Seq<char>
    decreases caps.len(),
{
    if caps.len() == 0 {
        Seq::empty()
    } else {
        spec_cap_lines(caps.drop_last(), verbosity) + "\n\tCapabilities: ["@ + spec_hex(
            caps.last().offset_spec() as nat,
            1,
        ) + "] "@ + spec_cap_record_string(caps.last(), verbosity)
    }
}

/// A decoded PCI function.
pub struct Function<A: Access> {
    pub bdf: BusDeviceFunction,
    pub header: Header,
    pub access: A,
    pub capabilities: Result<Vec<CapabilityRecord>>,
}

impl<A: Access> Function<A> {
    /// Reads the function's header through the accessor, scans its capability
    /// chains, and keeps the accessor for later raw reads. A failed header
    /// read fails the whole function; a failed capability scan is kept as the
    /// failed result and rendered as a placeholder.
    pub fn new(bdf: BusDeviceFunction, accessor: A) -> (r: Result<Function<A>>)
        ensures
            r is Ok ==> r->Ok_0.bdf == bdf,
            r is Ok ==> r->Ok_0.header.raw_spec().len() >= 0x0F,
    {
        let raw = accessor.read(0, 0x40)?;
        let header = Header::new(raw.as_slice())?;
        let capabilities = CapabilityFactory::new(&accessor).scan();
        Ok(Function { bdf, header, access: accessor, capabilities })
    }

    pub fn vendor_id(&self) -> (r: Result<u16>)
        ensures
            r is Ok <==> self.header.raw_spec().len() >= 0x02,
            r is Ok ==> r->Ok_0 == spec_le16_at(self.header.raw_spec(), 0x00),
            r is Err ==> r->Err_0.error_kind == ErrorKind::SliceParseError,
    {
        self.header.vendor_id()
    }

    pub fn device_id(&self) -> (r: Result<u16>)
        ensures
            r is Ok <==> self.header.raw_spec().len() >= 0x04,
            r is Ok ==> r->Ok_0 == spec_le16_at(self.header.raw_spec(), 0x02),
            r is Err ==> r->Err_0.error_kind == ErrorKind::SliceParseError,
    {
        self.header.device_id()
    }

    pub fn revision_id(&self) -> (r: Result<u8>)
        ensures
            r is Ok <==> self.header.raw_spec().len() >= 0x09,
            r is Ok ==> r->Ok_0 == self.header.raw_spec()[0x08],
            r is Err ==> r->Err_0.error_kind == ErrorKind::SliceParseError,
    {
        self.header.revision_id()
    }

    /// The 16-bit class code: the base class in the high byte, the sub-class
    /// in the low byte.
    pub fn class_code(&self) -> (r: Result<u16>)
        ensures
            r is Ok <==> self.header.raw_spec().len() >= 0x0C,
            r is Ok ==> r->Ok_0 == (self.header.raw_spec()[0x0B] as u16) << 8 | (
            self.header.raw_spec()[0x0A] as u16),
            r is Err ==> r->Err_0.error_kind == ErrorKind::SliceParseError,
    {
        Ok((self.base_class_code()? as u16) << 8 | self.sub_class_code()? as u16)
    }

    pub fn base_class_code(&self) -> (r: Result<u8>)
        ensures
            r is Ok <==> self.header.raw_spec().len() >= 0x0C,
            r is Ok ==> r->Ok_0 == self.header.raw_spec()[0x0B],
            r is Err ==> r->Err_0.error_kind == ErrorKind::SliceParseError,
    {
        self.header.base_class_code()
    }

    pub fn sub_class_code(&self) -> (r: Result<u8>)
        ensures
            r is Ok <==> self.header.raw_spec().len() >= 0x0B,
            r is Ok ==> r->Ok_0 == self.header.raw_spec()[0x0A],
            r is Err ==> r->Err_0.error_kind == ErrorKind::SliceParseError,
    {
        self.header.sub_class_code()
    }

    /// The subsystem vendor ID of an endpoint; a bridge has none.
    pub fn subsystem_vendor_id(&self) -> (r: Result<Option<u16>>)
        ensures
            self.header is Type1 ==> r == Result::<Option<u16>>::Ok(Option::<u16>::None),
            self.header is Type0 ==> ((r is Ok <==> self.header.raw_spec().len() >= 0x2E) && (
            r is Ok ==> r->Ok_0 == Some(spec_le16_at(self.header.raw_spec(), 0x2C)))),
            r is Err ==> r->Err_0.error_kind == ErrorKind::SliceParseError,
    {
        match &self.header {
            Header::Type0(h) => Ok(Some(h.subsystem_vendor_id()?)),
            _ => Ok(None),
        }
    }

    /// The subsystem device ID of an endpoint; a bridge has none.
    pub fn subsystem_id(&self) -> (r: Result<Option<u16>>)
        ensures
            self.header is Type1 ==> r == Result::<Option<u16>>::Ok(Option::<u16>::None),
            self.header is Type0 ==> ((r is Ok <==> self.header.raw_spec().len() >= 0x30) && (
            r is Ok ==> r->Ok_0 == Some(spec_le16_at(self.header.raw_spec(), 0x2E)))),
            r is Err ==> r->Err_0.error_kind == ErrorKind::SliceParseError,
    {
        match &self.header {
            Header::Type0(h) => Ok(Some(h.subsystem_id()?)),
            _ => Ok(None),
        }
    }

    /// The raw configuration bytes to hex-dump at a verbosity tier: nothing at
    /// tier 0, the 64-byte header from tier 1, the rest of the legacy 256
    /// bytes from tier 3, and extended space from tier 4. Reads past what the
    /// accessor can supply degrade to what it returned.
    pub fn config_with_verbosity(&self, verbosity: u8) -> (r: Result<Vec<u8>>)
        ensures
            verbosity == 0 ==> r is Ok && r->Ok_0@ == Seq::<u8>::empty(),
            r is Ok ==> r->Ok_0@.len() <= 0x1000,
    {
        let mut config: Vec<u8> = Vec::new();

        if verbosity >= 1 {
            config = self.access.read(0, 0x40)?;
        }
        if verbosity >= 3 {
            let mut rest = match self.access.read(0x40, 0x100 - 0x40) {
                Ok(v) => v,
                Err(_) => Vec::new(),
            };
            config.append(&mut rest);
        }
        if verbosity >= 4 {
            let mut rest = match self.access.read(0x100, 0x1000 - 0x100) {
                Ok(v) => v,
                Err(_) => Vec::new(),
            };
            config.append(&mut rest);
        }
        proof {
            assert(verbosity == 0 ==> config@ =~= Seq::<u8>::empty());
        }
        Ok(config)
    }

    /// Whether the function matches a vendor/device/class filter: every
    /// component present in the filter must equal the function's.
    pub fn matches_vdc(&self, other: &VendorDeviceClass) -> (r: Result<bool>)
        ensures
            r is Ok <==> ((other.vendor is Some ==> self.header.raw_spec().len() >= 0x02) && (
            other.device is Some ==> self.header.raw_spec().len() >= 0x04) && (other.class is Some
                ==> self.header.raw_spec().len() >= 0x0C)),
            r is Ok ==> r->Ok_0 == ({
                let raw = self.header.raw_spec();
                &&& (other.vendor is Some ==> other.vendor->0 == spec_le16_at(raw, 0x00))
                &&& (other.device is Some ==> other.device->0 == spec_le16_at(raw, 0x02))
                &&& (other.class is Some ==> other.class->0 == (raw[0x0B] as u16) << 8 | (
                raw[0x0A] as u16))
            }),
            r is Err ==> r->Err_0.error_kind == ErrorKind::SliceParseError,
    {
        let vendor_eq = match other.vendor {
            None => true,
            Some(vendor) => vendor == self.vendor_id()?,
        };
        let device_eq = match other.device {
            None => true,
            Some(device) => device == self.device_id()?,
        };
        let class_eq = match other.class {
            None => true,
            Some(class) => class == self.class_code()?,
        };
        Ok(vendor_eq && device_eq && class_eq)
    }

    /// Whether the function's address matches a (possibly partial) address.
    pub fn matches_bdf(&self, other: &BusDeviceFunction) -> (r: bool)
        ensures
            r == spec_bdf_eq(self.bdf, *other),
    {
        self.bdf == *other
    }

    /// Renders the function: its address and header description, and from
    /// verbosity 1 its capability list, one indented line per record — or a
    /// placeholder line when the capability scan failed.
    pub fn to_string(&self, verbosity: u8) -> (r: Result<String>)
        ensures
            r is Ok <==> ((verbosity == 0 && self.header.raw_spec().len() >= 0x0C) || (verbosity
                >= 1 && (self.header is Type0 ==> self.header.raw_spec().len() >= 0x30) && (
            self.header is Type1 ==> self.header.raw_spec().len() >= 0x1C))),
            r is Ok ==> r->Ok_0@ == spec_bdf_string(self.bdf) + " "@ + spec_header_string(
                self.header,
                verbosity,
            ) + if verbosity > 0 {
                match self.capabilities {
                    Ok(caps) => spec_cap_lines(caps@, verbosity),
                    Err(_) => "\n\tCapabilities: <access denied>"@,
                }
            } else {
                Seq::<char>::empty()
            },
            r is Err ==> r->Err_0.error_kind == ErrorKind::SliceParseError,
    {
        let mut text = self.bdf.bdf_string();
        text.append(" ");
        text.append(self.header.to_string(verbosity)?.as_str());
        proof {
            reveal_strlit(" ");
            assert(text@ =~= spec_bdf_string(self.bdf) + " "@ + spec_header_string(
                self.header,
                verbosity,
            ));
        }

        if verbosity > 0 {
            match &self.capabilities {
                Err(_) => {
                    text.append("\n\tCapabilities: <access denied>");
                },
                Ok(capabilities) => {
                    let ghost base = text@;
                    let mut k: usize = 0;
                    proof {
                        assert(capabilities@.take(0) =~= Seq::<CapabilityRecord>::empty());
                    }
                    while k < capabilities.len()
                        invariant
                            0 <= k <= capabilities@.len(),
                            text@ == base + spec_cap_lines(capabilities@.take(k as int), verbosity),
                        decreases capabilities@.len() - k,
                    {
                        let cap = &capabilities[k];
                        text.append("\n\tCapabilities: [");
                        text.append(hex_string(cap.offset()?, 1).as_str());
                        text.append("] ");
                        match cap.cap_string(verbosity) {
                            Ok(s) => text.append(s.as_str()),
                            Err(e) => {
                                return Err(e);
                            },
                        }
                        proof {
                            reveal_strlit("\n\tCapabilities: [");
                            reveal_strlit("] ");
                            assert(capabilities@.take(k + 1).drop_last() =~= capabilities@.take(
                                k as int,
                            ));
                            assert(capabilities@.take(k + 1).last() == capabilities@[k as int]);
                            assert(text@ =~= base + spec_cap_lines(
                                capabilities@.take(k + 1),
                                verbosity,
                            ));
                        }
                        k = k + 1;
                    }
                    proof {
                        assert(capabilities@.take(capabilities@.len() as int) =~= capabilities@);
                    }
                },
            }
        }
        Ok(text)
    }
}

} // verus!
