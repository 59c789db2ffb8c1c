//! The configuration-space header model: the 64-byte common prefix shared by
//! every function, plus the endpoint (Type 0) and bridge (Type 1) layouts.

use vstd::prelude::*;
use vstd::slice::slice_to_vec;
use vstd::string::StringExecFns;

use core::ops::Range;

use crate::bar::{spec_bar_words, spec_bars, spec_bars_wf, BAR};
use crate::caps::binary_parser::{spec_le16_at, BinaryParser};
use crate::error::{ErrorKind, Result};
use crate::ids::{
    device_name_lookup, device_subsystems, spec_device_name, spec_device_subsystems,
    spec_subclass_name, spec_vendor_name, subclass_name_lookup, vendor_name_lookup,
};
use crate::text::{hex_string, spec_hex};

verus! {

/// Bit 7 of the header-type byte is the multi-function flag; only the low
/// seven bits select the layout.
pub const HEADER_TYPE_LAYOUT_MASK: u8 = 0x7F;

/// The vendor's display name: the database name, or a numeric placeholder for
/// an unknown vendor.
pub open spec fn spec_vendor_text(id: u16) -> Seq<char> {
    match spec_vendor_name(id) {
        Some(name) => name,
        None => "Vendor "@ + spec_hex(id as nat, 4),
    }
}

/// The one-line description of a function: its subclass, vendor and device
/// names (numeric placeholders where unknown), and its revision when nonzero.
pub open spec fn spec_device_string(raw: Seq<u8>) -> Seq<char>
    recommends
        raw.len() >= 0x0C,
{
    let sub_class = match spec_subclass_name(raw[0x0B] as u8, raw[0x0A] as u8) {
        Some(name) => name,
        None => "SubClass "@ + spec_hex(raw[0x0A] as nat, 2),
    };
    let device = match spec_device_name(spec_le16_at(raw, 0), spec_le16_at(raw, 2)) {
        Some(name) => name,
        None => "Device "@ + spec_hex(spec_le16_at(raw, 2) as nat, 4),
    };
    let revision = if raw[0x08] as u8 > 0 {
        " (rev "@ + spec_hex(raw[0x08] as nat, 2) + ")"@
    } else {
        Seq::<char>::empty()
    };
    sub_class + ": "@ + spec_vendor_text(spec_le16_at(raw, 0)) + " "@ + device + revision
}

/// The name of the first entry of a subsystem list whose subdevice ID
/// matches, if any does.
pub open spec fn spec_find_subsystem(subs: Seq<(u16, Seq<char>)>, subdevice: u16) -> Option<
    Seq<char>,
>
    decreases subs.len(),
{
    if subs.len() == 0 {
        None
    } else if subs[0].0 == subdevice {
        Some(subs[0].1)
    } else {
        spec_find_subsystem(subs.drop_first(), subdevice)
    }
}

/// The subdevice IDs and names a subsystem list holds.
pub open spec fn spec_subsystem_entries(s: Seq<(u16, String)>) -> Seq<(u16, Seq<char>)> {
    Seq::new(s.len(), |i: int| (s[i].0, s[i].1@))
}

/// Finds the first subsystem entry whose subdevice ID matches.
fn find_subsystem_name(subs: &Vec<(u16, String)>, subdevice: u16) -> (r: Option<String>)
    ensures
        match r {
            Some(name) => spec_find_subsystem(spec_subsystem_entries(subs@), subdevice) == Some(
                name@,
            ),
            None => spec_find_subsystem(spec_subsystem_entries(subs@), subdevice) is None,
        },
{
    let ghost entries = spec_subsystem_entries(subs@);
    let mut k: usize = 0;
    proof {
        assert(entries.skip(0) =~= entries);
    }
    while k < subs.len()
        invariant
            0 <= k <= subs@.len(),
            entries == spec_subsystem_entries(subs@),
            spec_find_subsystem(entries, subdevice) == spec_find_subsystem(
                entries.skip(k as int),
                subdevice,
            ),
        decreases subs@.len() - k,
    {
        proof {
            assert(entries.skip(k as int)[0] == entries[k as int]);
        }
        if subs[k].0 == subdevice {
            return Some(subs[k].1.clone());
        }
        proof {
            assert(entries.skip(k as int).drop_first() =~= entries.skip(k + 1));
        }
        k = k + 1;
    }
    proof {
        assert(entries.skip(k as int) =~= Seq::<(u16, Seq<char>)>::empty());
    }
    None
}

/// The subsystem line of an endpoint: the subsystem's database name when the
/// device and a matching subdevice are listed, numeric placeholders otherwise.
pub open spec fn spec_subsystem_string(raw: Seq<u8>) -> Seq<char>
    recommends
        raw.len() >= 0x30,
{
    let vid = spec_le16_at(raw, 0);
    let did = spec_le16_at(raw, 2);
    let subvid = spec_le16_at(raw, 0x2C);
    let subdid = spec_le16_at(raw, 0x2E);
    if spec_device_name(vid, did) is None {
        "Subsystem: "@ + spec_vendor_text(vid) + " Device "@ + spec_hex(subdid as nat, 4)
    } else {
        match spec_find_subsystem(spec_device_subsystems(vid, did), subdid) {
            Some(name) => "Subsystem: "@ + spec_vendor_text(vid) + " "@ + name,
            None => "Subsystem: Vendor "@ + spec_hex(subvid as nat, 4) + " Device "@ + spec_hex(
                subdid as nat,
                4,
            ),
        }
    }
}

/// The bus line of a bridge: its primary, secondary and subordinate bus
/// numbers and secondary latency timer.
pub open spec fn spec_bus_string(raw: Seq<u8>) -> Seq<char>
    recommends
        raw.len() >= 0x1C,
{
    "Bus: primary="@ + spec_hex(raw[0x18] as nat, 2) + ", secondary="@ + spec_hex(
        raw[0x19] as nat,
        2,
    ) + ", subordiante="@ + spec_hex(raw[0x1A] as nat, 2) + ", sec-latency="@
        + crate::text::spec_dec(raw[0x1B] as nat)
}

/// The common header fields every layout shares, read through the bounds
/// checked field reader from the fixed offsets of the PCI specification.
pub trait CommonHeader: Sized {
    /// The captured header bytes this model decodes.
    spec fn raw_spec(&self) -> Seq<u8>;

    fn get_raw(&self) -> (r: &[u8])
        ensures
            r@ == self.raw_spec(),
    ;

    fn bars(&self) -> Result<Vec<BAR>>;

    fn to_string(&self, verbosity: u8) -> Result<String>;

    fn vendor_id(&self) -> (r: Result<u16>)
        ensures
            r is Ok <==> self.raw_spec().len() >= 0x02,
            r is Ok ==> r->Ok_0 == spec_le16_at(self.raw_spec(), 0x00),
            r is Err ==> r->Err_0.error_kind == ErrorKind::SliceParseError,
    {
        BinaryParser::le16(self.get_raw(), Range { start: 0x000, end: 0x002 })
    }

    fn device_id(&self) -> (r: Result<u16>)
        ensures
            r is Ok <==> self.raw_spec().len() >= 0x04,
            r is Ok ==> r->Ok_0 == spec_le16_at(self.raw_spec(), 0x02),
            r is Err ==> r->Err_0.error_kind == ErrorKind::SliceParseError,
    {
        BinaryParser::le16(self.get_raw(), Range { start: 0x002, end: 0x004 })
    }

    fn command(&self) -> (r: Result<u16>)
        ensures
            r is Ok <==> self.raw_spec().len() >= 0x06,
            r is Ok ==> r->Ok_0 == spec_le16_at(self.raw_spec(), 0x04),
            r is Err ==> r->Err_0.error_kind == ErrorKind::SliceParseError,
    {
        BinaryParser::le16(self.get_raw(), Range { start: 0x004, end: 0x006 })
    }

    fn status(&self) -> (r: Result<u16>)
        ensures
            r is Ok <==> self.raw_spec().len() >= 0x08,
            r is Ok ==> r->Ok_0 == spec_le16_at(self.raw_spec(), 0x06),
            r is Err ==> r->Err_0.error_kind == ErrorKind::SliceParseError,
    {
        BinaryParser::le16(self.get_raw(), Range { start: 0x006, end: 0x008 })
    }

    fn revision_id(&self) -> (r: Result<u8>)
        ensures
            r is Ok <==> self.raw_spec().len() >= 0x09,
            r is Ok ==> r->Ok_0 == self.raw_spec()[0x08],
            r is Err ==> r->Err_0.error_kind == ErrorKind::SliceParseError,
    {
        BinaryParser::le8(self.get_raw(), Range { start: 0x008, end: 0x009 })
    }

    fn programming_interface(&self) -> (r: Result<u8>)
        ensures
            r is Ok <==> self.raw_spec().len() >= 0x0A,
            r is Ok ==> r->Ok_0 == self.raw_spec()[0x09],
            r is Err ==> r->Err_0.error_kind == ErrorKind::SliceParseError,
    {
        BinaryParser::le8(self.get_raw(), Range { start: 0x009, end: 0x00A })
    }

    fn sub_class_code(&self) -> (r: Result<u8>)
        ensures
            r is Ok <==> self.raw_spec().len() >= 0x0B,
            r is Ok ==> r->Ok_0 == self.raw_spec()[0x0A],
            r is Err ==> r->Err_0.error_kind == ErrorKind::SliceParseError,
    {
        BinaryParser::le8(self.get_raw(), Range { start: 0x00A, end: 0x00B })
    }

    fn base_class_code(&self) -> (r: Result<u8>)
        ensures
            r is Ok <==> self.raw_spec().len() >= 0x0C,
            r is Ok ==> r->Ok_0 == self.raw_spec()[0x0B],
            r is Err ==> r->Err_0.error_kind == ErrorKind::SliceParseError,
    {
        BinaryParser::le8(self.get_raw(), Range { start: 0x00B, end: 0x00C })
    }

    fn header_type(&self) -> (r: Result<u8>)
        ensures
            r is Ok <==> self.raw_spec().len() >= 0x0F,
            r is Ok ==> r->Ok_0 == self.raw_spec()[0x0E],
            r is Err ==> r->Err_0.error_kind == ErrorKind::SliceParseError,
    {
        BinaryParser::le8(self.get_raw(), Range { start: 0x00E, end: 0x00F })
    }

    fn capability_pointer(&self) -> (r: Result<u8>)
        ensures
            r is Ok <==> self.raw_spec().len() >= 0x35,
            r is Ok ==> r->Ok_0 == self.raw_spec()[0x34],
            r is Err ==> r->Err_0.error_kind == ErrorKind::SliceParseError,
    {
        BinaryParser::le8(self.get_raw(), Range { start: 0x034, end: 0x035 })
    }

    /// The vendor's display name, best effort: an unknown vendor renders as a
    /// numeric placeholder rather than failing.
    fn vendor_name(&self) -> (r: Result<String>)
        ensures
            r is Ok <==> self.raw_spec().len() >= 0x02,
            r is Ok ==> r->Ok_0@ == spec_vendor_text(spec_le16_at(self.raw_spec(), 0x00)),
            r is Err ==> r->Err_0.error_kind == ErrorKind::SliceParseError,
    {
        let vendor_id = self.vendor_id()?;
        let vendor = match vendor_name_lookup(vendor_id) {
            Some(vendor) => vendor,
            None => {
                let mut text = String::from_str("Vendor ");
                text.append(hex_string(vendor_id as u64, 4).as_str());
                proof {
                    assert(text@ =~= spec_vendor_text(spec_le16_at(self.raw_spec(), 0x00)));
                }
                text
            },
        };
        Ok(vendor)
    }

    /// The one-line description of the function, best effort: unknown IDs
    /// render as numeric placeholders rather than failing.
    fn device_string(&self) -> (r: Result<String>)
        ensures
            r is Ok <==> self.raw_spec().len() >= 0x0C,
            r is Ok ==> r->Ok_0@ == spec_device_string(self.raw_spec()),
            r is Err ==> r->Err_0.error_kind == ErrorKind::SliceParseError,
    {
        let base_class_id = self.base_class_code()?;
        let sub_class_id = self.sub_class_code()?;
        let sub_class = match subclass_name_lookup(base_class_id, sub_class_id) {
            Some(sub_class) => sub_class,
            None => {
                let mut text = String::from_str("SubClass ");
                text.append(hex_string(sub_class_id as u64, 2).as_str());
                text
            },
        };

        let vendor_id = self.vendor_id()?;
        let device_id = self.device_id()?;
        let device = match device_name_lookup(vendor_id, device_id) {
            Some(device) => device,
            None => {
                let mut text = String::from_str("Device ");
                text.append(hex_string(device_id as u64, 4).as_str());
                text
            },
        };

        let revision_id = self.revision_id()?;

        let mut text = sub_class;
        text.append(": ");
        text.append(self.vendor_name()?.as_str());
        text.append(" ");
        text.append(device.as_str());
        if revision_id > 0 {
            text.append(" (rev ");
            text.append(hex_string(revision_id as u64, 2).as_str());
            text.append(")");
        }
        proof {
            reveal_strlit("SubClass ");
            reveal_strlit("Device ");
            reveal_strlit(": ");
            reveal_strlit(" ");
            reveal_strlit(" (rev ");
            reveal_strlit(")");
            assert(text@ =~= spec_device_string(self.raw_spec()));
        }
        Ok(text)
    }

    /// The layout a header-type byte selects: the byte with the multi-function
    /// flag masked off.
    fn header_layout(b: &[u8]) -> (r: Result<u8>)
        ensures
            r is Ok <==> b@.len() >= 0x0F,
            r is Ok ==> r->Ok_0 == b@[0x0E] & HEADER_TYPE_LAYOUT_MASK,
            r is Err ==> r->Err_0.error_kind == ErrorKind::SliceParseError,
    {
        let layout = BinaryParser::le8(b, Range { start: 0x00E, end: 0x00F })?;
        Ok(layout & HEADER_TYPE_LAYOUT_MASK)
    }
}

/// An endpoint header: the Type 0 layout with six BARs and subsystem IDs.
#[derive(Debug)]
pub struct Type0Header {
    raw: Vec<u8>,
}

impl CommonHeader for Type0Header {
    closed spec fn raw_spec(&self) -> Seq<u8> {
        self.raw@
    }

    fn get_raw(&self) -> (r: &[u8])
        ensures
            r@ == self.raw_spec(),
    {
        self.raw.as_slice()
    }

    /// The six BARs of an endpoint occupy bytes 0x10 through 0x27.
    fn bars(&self) -> (r: Result<Vec<BAR>>)
        ensures
            r is Ok <==> self.raw_spec().len() >= 0x28 && spec_bars_wf(
                spec_bar_words(self.raw_spec().subrange(0x10, 0x28)),
            ),
            r is Ok ==> r->Ok_0@ == spec_bars(spec_bar_words(self.raw_spec().subrange(0x10, 0x28))),
            r is Err ==> r->Err_0.error_kind == ErrorKind::SliceParseError,
    {
        if self.raw.len() < 0x28 {
            return Err(
                crate::error::Error::slice_parse_error(
                    self.raw.as_slice(),
                    &Range { start: 0x010, end: 0x028 },
                ),
            );
        }
        BAR::new(vstd::slice::slice_subrange(self.raw.as_slice(), 0x10, 0x28))
    }

    /// The endpoint's description; at verbosity 1 and above the subsystem line
    /// follows on an indented line of its own.
    fn to_string(&self, verbosity: u8) -> (r: Result<String>)
        ensures
            r is Ok <==> (verbosity == 0 && self.raw_spec().len() >= 0x0C) || (verbosity >= 1
                && self.raw_spec().len() >= 0x30),
            r is Ok && verbosity == 0 ==> r->Ok_0@ == spec_device_string(self.raw_spec()),
            r is Ok && verbosity >= 1 ==> r->Ok_0@ == spec_device_string(self.raw_spec()) + "\n\t"@
                + spec_subsystem_string(self.raw_spec()),
            r is Err ==> r->Err_0.error_kind == ErrorKind::SliceParseError,
    {
        let mut text = self.device_string()?;
        if verbosity >= 1 {
            text.append("\n\t");
            text.append(self.subsytem_string()?.as_str());
        }
        proof {
            reveal_strlit("\n\t");
        }
        Ok(text)
    }
}

impl Type0Header {
    /// Captures the header bytes of an endpoint.
    pub fn new(b: &[u8]) -> (r: Result<Self>)
        ensures
            r is Ok,
            r->Ok_0.raw_spec() == b@,
    {
        Ok(Self { raw: slice_to_vec(b) })
    }

    pub fn subsystem_vendor_id(&self) -> (r: Result<u16>)
        ensures
            r is Ok <==> self.raw_spec().len() >= 0x2E,
            r is Ok ==> r->Ok_0 == spec_le16_at(self.raw_spec(), 0x2C),
            r is Err ==> r->Err_0.error_kind == ErrorKind::SliceParseError,
    {
        BinaryParser::le16(self.get_raw(), Range { start: 0x02C, end: 0x02E })
    }

    pub fn subsystem_id(&self) -> (r: Result<u16>)
        ensures
            r is Ok <==> self.raw_spec().len() >= 0x30,
            r is Ok ==> r->Ok_0 == spec_le16_at(self.raw_spec(), 0x2E),
            r is Err ==> r->Err_0.error_kind == ErrorKind::SliceParseError,
    {
        BinaryParser::le16(self.get_raw(), Range { start: 0x02E, end: 0x030 })
    }

    /// The endpoint's subsystem line, best effort: IDs the database does not
    /// list render as numeric placeholders.
    fn subsytem_string(&self) -> (r: Result<String>)
        ensures
            r is Ok <==> self.raw_spec().len() >= 0x30,
            r is Ok ==> r->Ok_0@ == spec_subsystem_string(self.raw_spec()),
            r is Err ==> r->Err_0.error_kind == ErrorKind::SliceParseError,
    {
        let subsystem_device = self.subsystem_id()?;
        let subsystem_vendor = self.subsystem_vendor_id()?;

        let device_id = self.device_id()?;
        let vendor_id = self.vendor_id()?;

        proof {
            reveal_strlit("Subsystem: ");
            reveal_strlit(" Device ");
            reveal_strlit(" ");
            reveal_strlit("Subsystem: Vendor ");
        }
        if device_name_lookup(vendor_id, device_id).is_none() {
            let mut text = String::from_str("Subsystem: ");
            text.append(self.vendor_name()?.as_str());
            text.append(" Device ");
            text.append(hex_string(subsystem_device as u64, 4).as_str());
            proof {
                assert(text@ =~= spec_subsystem_string(self.raw_spec()));
            }
            return Ok(text);
        }

        let subsystems = device_subsystems(vendor_id, device_id);
        proof {
            assert(spec_subsystem_entries(subsystems@) =~= spec_device_subsystems(
                vendor_id,
                device_id,
            ));
        }
        if let Some(subsystem) = find_subsystem_name(&subsystems, subsystem_device) {
            let mut text = String::from_str("Subsystem: ");
            text.append(self.vendor_name()?.as_str());
            text.append(" ");
            text.append(subsystem.as_str());
            proof {
                assert(text@ =~= spec_subsystem_string(self.raw_spec()));
            }
            return Ok(text);
        }

        let mut text = String::from_str("Subsystem: Vendor ");
        text.append(hex_string(subsystem_vendor as u64, 4).as_str());
        text.append(" Device ");
        text.append(hex_string(subsystem_device as u64, 4).as_str());
        proof {
            assert(text@ =~= spec_subsystem_string(self.raw_spec()));
        }
        Ok(text)
    }
}

/// A bridge header: the Type 1 layout with two BAR words and bus numbers.
#[derive(Debug)]
pub struct Type1Header {
    raw: Vec<u8>,
}

impl CommonHeader for Type1Header {
    closed spec fn raw_spec(&self) -> Seq<u8> {
        self.raw@
    }

    fn get_raw(&self) -> (r: &[u8])
        ensures
            r@ == self.raw_spec(),
    {
        self.raw.as_slice()
    }

    /// A bridge's BAR region occupies bytes 0x10 through 0x13.
    fn bars(&self) -> (r: Result<Vec<BAR>>)
        ensures
            r is Ok <==> self.raw_spec().len() >= 0x14 && spec_bars_wf(
                spec_bar_words(self.raw_spec().subrange(0x10, 0x14)),
            ),
            r is Ok ==> r->Ok_0@ == spec_bars(spec_bar_words(self.raw_spec().subrange(0x10, 0x14))),
            r is Err ==> r->Err_0.error_kind == ErrorKind::SliceParseError,
    {
        if self.raw.len() < 0x14 {
            return Err(
                crate::error::Error::slice_parse_error(
                    self.raw.as_slice(),
                    &Range { start: 0x010, end: 0x014 },
                ),
            );
        }
        BAR::new(vstd::slice::slice_subrange(self.raw.as_slice(), 0x10, 0x14))
    }

    /// The bridge's description; at verbosity 1 and above the bus line follows
    /// on an indented line of its own.
    fn to_string(&self, verbosity: u8) -> (r: Result<String>)
        ensures
            r is Ok <==> (verbosity == 0 && self.raw_spec().len() >= 0x0C) || (verbosity >= 1
                && self.raw_spec().len() >= 0x1C),
            r is Ok && verbosity == 0 ==> r->Ok_0@ == spec_device_string(self.raw_spec()),
            r is Ok && verbosity >= 1 ==> r->Ok_0@ == spec_device_string(self.raw_spec()) + "\n\t"@
                + spec_bus_string(self.raw_spec()),
            r is Err ==> r->Err_0.error_kind == ErrorKind::SliceParseError,
    {
        let mut text = self.device_string()?;
        if verbosity >= 1 {
            text.append("\n\t");
            text.append(self.bus_string()?.as_str());
        }
        proof {
            reveal_strlit("\n\t");
        }
        Ok(text)
    }
}

impl Type1Header {
    /// Captures the header bytes of a bridge.
    pub fn new(b: &[u8]) -> (r: Result<Self>)
        ensures
            r is Ok,
            r->Ok_0.raw_spec() == b@,
    {
        Ok(Self { raw: slice_to_vec(b) })
    }

    pub fn primary_bus_number(&self) -> (r: Result<u8>)
        ensures
            r is Ok <==> self.raw_spec().len() >= 0x19,
            r is Ok ==> r->Ok_0 == self.raw_spec()[0x18],
            r is Err ==> r->Err_0.error_kind == ErrorKind::SliceParseError,
    {
        BinaryParser::le8(self.get_raw(), Range { start: 0x018, end: 0x019 })
    }

    pub fn secondary_bus_number(&self) -> (r: Result<u8>)
        ensures
            r is Ok <==> self.raw_spec().len() >= 0x1A,
            r is Ok ==> r->Ok_0 == self.raw_spec()[0x19],
            r is Err ==> r->Err_0.error_kind == ErrorKind::SliceParseError,
    {
        BinaryParser::le8(self.get_raw(), Range { start: 0x019, end: 0x01A })
    }

    pub fn subordinate_bus_number(&self) -> (r: Result<u8>)
        ensures
            r is Ok <==> self.raw_spec().len() >= 0x1B,
            r is Ok ==> r->Ok_0 == self.raw_spec()[0x1A],
            r is Err ==> r->Err_0.error_kind == ErrorKind::SliceParseError,
    {
        BinaryParser::le8(self.get_raw(), Range { start: 0x01A, end: 0x01B })
    }

    pub fn secondary_latency_timer(&self) -> (r: Result<u8>)
        ensures
            r is Ok <==> self.raw_spec().len() >= 0x1C,
            r is Ok ==> r->Ok_0 == self.raw_spec()[0x1B],
            r is Err ==> r->Err_0.error_kind == ErrorKind::SliceParseError,
    {
        BinaryParser::le8(self.get_raw(), Range { start: 0x01B, end: 0x01C })
    }

    /// The bridge's bus line.
    fn bus_string(&self) -> (r: Result<String>)
        ensures
            r is Ok <==> self.raw_spec().len() >= 0x1C,
            r is Ok ==> r->Ok_0@ == spec_bus_string(self.raw_spec()),
            r is Err ==> r->Err_0.error_kind == ErrorKind::SliceParseError,
    {
        let primary = self.primary_bus_number()?;
        let secondary = self.secondary_bus_number()?;
        let subordinate = self.subordinate_bus_number()?;
        let latency = self.secondary_latency_timer()?;
        let mut text = String::from_str("Bus: primary=");
        text.append(hex_string(primary as u64, 2).as_str());
        text.append(", secondary=");
        text.append(hex_string(secondary as u64, 2).as_str());
        text.append(", subordiante=");
        text.append(hex_string(subordinate as u64, 2).as_str());
        text.append(", sec-latency=");
        text.append(crate::text::dec_string(latency as u64).as_str());
        proof {
            reveal_strlit("Bus: primary=");
            reveal_strlit(", secondary=");
            reveal_strlit(", subordiante=");
            reveal_strlit(", sec-latency=");
            assert(text@ =~= spec_bus_string(self.raw_spec()));
        }
        Ok(text)
    }
}

/// A decoded header: the layout variant is selected once, at construction,
/// from the header-type byte.
#[derive(Debug)]
pub enum Header {
    Type0(Type0Header),
    Type1(Type1Header),
}

impl Header {
    /// Decodes the header-type byte and captures the bytes under the layout it
    /// selects: Type 0 for a masked value of zero, Type 1 for anything else.
    pub fn new(b: &[u8]) -> (r: Result<Self>)
        ensures
            r is Ok <==> b@.len() >= 0x0F,
            r is Ok ==> (r->Ok_0 is Type0 <==> b@[0x0E] & HEADER_TYPE_LAYOUT_MASK == 0),
            r is Ok ==> r->Ok_0.raw_spec() == b@,
            r is Err ==> r->Err_0.error_kind == ErrorKind::SliceParseError,
    {
        if <Type0Header as CommonHeader>::header_layout(b)? == 0 {
            Ok(Header::Type0(Type0Header::new(b)?))
        } else {
            Ok(Header::Type1(Type1Header::new(b)?))
        }
    }
}

impl CommonHeader for Header {
    open spec fn raw_spec(&self) -> Seq<u8> {
        match self {
            Header::Type0(h) => h.raw_spec(),
            Header::Type1(h) => h.raw_spec(),
        }
    }

    fn get_raw(&self) -> (r: &[u8])
        ensures
            r@ == self.raw_spec(),
    {
        match self {
            Header::Type0(h) => h.get_raw(),
            Header::Type1(h) => h.get_raw(),
        }
    }

    /// An endpoint's six BARs or a bridge's BAR region, per the layout.
    fn bars(&self) -> (r: Result<Vec<BAR>>)
        ensures
            self is Type0 ==> (r is Ok <==> self.raw_spec().len() >= 0x28 && spec_bars_wf(
                spec_bar_words(self.raw_spec().subrange(0x10, 0x28)),
            )),
            self is Type0 && r is Ok ==> r->Ok_0@ == spec_bars(
                spec_bar_words(self.raw_spec().subrange(0x10, 0x28)),
            ),
            self is Type1 ==> (r is Ok <==> self.raw_spec().len() >= 0x14 && spec_bars_wf(
                spec_bar_words(self.raw_spec().subrange(0x10, 0x14)),
            )),
            self is Type1 && r is Ok ==> r->Ok_0@ == spec_bars(
                spec_bar_words(self.raw_spec().subrange(0x10, 0x14)),
            ),
            r is Err ==> r->Err_0.error_kind == ErrorKind::SliceParseError,
    {
        match self {
            Header::Type0(h) => h.bars(),
            Header::Type1(h) => h.bars(),
        }
    }

    /// The description of the function under its own layout.
    fn to_string(&self, verbosity: u8) -> (r: Result<String>)
        ensures
            r is Ok <==> (verbosity == 0 && self.raw_spec().len() >= 0x0C) || (verbosity >= 1
                && (self is Type0 ==> self.raw_spec().len() >= 0x30) && (self is Type1
                ==> self.raw_spec().len() >= 0x1C)),
            r is Ok && verbosity == 0 ==> r->Ok_0@ == spec_device_string(self.raw_spec()),
            r is Ok && verbosity >= 1 && self is Type0 ==> r->Ok_0@ == spec_device_string(
                self.raw_spec(),
            ) + "\n\t"@ + spec_subsystem_string(self.raw_spec()),
            r is Ok && verbosity >= 1 && self is Type1 ==> r->Ok_0@ == spec_device_string(
                self.raw_spec(),
            ) + "\n\t"@ + spec_bus_string(self.raw_spec()),
            r is Err ==> r->Err_0.error_kind == ErrorKind::SliceParseError,
    {
        match self {
            Header::Type0(h) => h.to_string(verbosity),
            Header::Type1(h) => h.to_string(verbosity),
        }
    }
}

} // verus!
