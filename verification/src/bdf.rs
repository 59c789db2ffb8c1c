//! Bus:Device.Function addresses. Each component is independently optional so
//! a partially-filled address can act as a filter; equality only compares the
//! components present on both sides.

use vstd::prelude::*;
use vstd::slice::slice_subrange;
use vstd::string::{StringExecFns, StringSliceAdditionalSpecFns};

use crate::error::{Error, ErrorKind, Result};
use crate::text::{
    find_byte, find_byte_in, hex_string, parse_hex_u16, parse_hex_u8, spec_hex, spec_hex_val,
    strip_sign, wf_hex,
};

verus! {

/// A PCI function's topological address; every component that is `None` is a
/// wildcard when the address is used as a filter.
#[derive(Debug, Clone, Copy, Eq, PartialOrd, Ord)]
pub struct BusDeviceFunction {
    pub domain: Option<u16>,
    pub bus: Option<u8>,
    pub device: Option<u8>,
    pub function: Option<u8>,
}

/// What `==` means on addresses: every component present on both sides must
/// match; a component absent on either side never causes a mismatch.
pub open spec fn spec_bdf_eq(a: BusDeviceFunction, b: BusDeviceFunction) -> bool {
    &&& (a.domain is None || b.domain is None || a.domain == b.domain)
    &&& (a.bus is None || b.bus is None || a.bus == b.bus)
    &&& (a.device is None || b.device is None || a.device == b.device)
    &&& (a.function is None || b.function is None || a.function == b.function)
}

impl PartialEq for BusDeviceFunction {
    fn eq(&self, other: &Self) -> (r: bool) {
        (self.domain.is_none() || other.domain.is_none() || self.domain.unwrap()
            == other.domain.unwrap()) && (self.bus.is_none() || other.bus.is_none()
            || self.bus.unwrap() == other.bus.unwrap()) && (self.device.is_none()
            || other.device.is_none() || self.device.unwrap() == other.device.unwrap()) && (
        self.function.is_none() || other.function.is_none() || self.function.unwrap()
            == other.function.unwrap())
    }
}

impl vstd::std_specs::cmp::PartialEqSpecImpl for BusDeviceFunction {
    open spec fn obeys_eq_spec() -> bool {
        true
    }

    open spec fn eq_spec(&self, other: &Self) -> bool {
        spec_bdf_eq(*self, *other)
    }
}

/// The text of one optional component: its hex numeral padded to `width`, or
/// nothing when the component is absent.
pub open spec fn spec_bdf_part(v: Option<u16>, width: nat) -> Seq<char> {
    match v {
        Some(v) => spec_hex(v as nat, width),
        None => Seq::empty(),
    }
}

/// The rendered form of an address: `[domain:]bus:device.function` with absent
/// components left blank.
pub open spec fn spec_bdf_string(b: BusDeviceFunction) -> Seq<char> {
    (match b.domain {
        Some(d) => spec_hex(d as nat, 4).push(':'),
        None => Seq::empty(),
    }) + spec_bdf_part(
        match b.bus {
            Some(v) => Some(v as u16),
            None => None,
        },
        2,
    ) + seq![':'] + spec_bdf_part(
        match b.device {
            Some(v) => Some(v as u16),
            None => None,
        },
        2,
    ) + seq!['.'] + spec_bdf_part(
        match b.function {
            Some(v) => Some(v as u16),
            None => None,
        },
        1,
    )
}

impl BusDeviceFunction {
    pub fn bus(&self) -> (r: Option<u8>)
        ensures
            r == self.bus,
    {
        self.bus
    }

    /// Renders the address, leaving absent components blank.
    pub fn bdf_string(&self) -> (s: String)
        ensures
            s@ == spec_bdf_string(*self),
    {
        let mut s = String::new();
        if let Some(domain) = self.domain {
            s.append(hex_string(domain as u64, 4).as_str());
            s.append(":");
        }
        if let Some(bus) = self.bus {
            s.append(hex_string(bus as u64, 2).as_str());
        }
        s.append(":");
        if let Some(device) = self.device {
            s.append(hex_string(device as u64, 2).as_str());
        }
        s.append(".");
        if let Some(function) = self.function {
            s.append(hex_string(function as u64, 1).as_str());
        }
        proof {
            reveal_strlit(":");
            reveal_strlit(".");
            assert(s@ =~= spec_bdf_string(*self));
        }
        s
    }

    /// Renders the address with an absent domain defaulted to 0, the form the
    /// function's sysfs directory is named after.
    pub fn canonical_bdf_string(&self) -> (s: String)
        ensures
            s@ == spec_bdf_string(
                BusDeviceFunction {
                    domain: if self.domain is None {
                        Some(0u16)
                    } else {
                        self.domain
                    },
                    ..*self
                },
            ),
    {
        if self.domain.is_none() {
            let mut bdf = self.clone();
            bdf.domain = Some(0);
            return bdf.bdf_string();
        }
        self.bdf_string()
    }
}

/// Whether the bytes of one address component are acceptable: blank, or a hex
/// numeral no larger than `bound`.
pub open spec fn field_ok(s: Seq<u8>, bound: nat) -> bool {
    s.len() == 0 || (wf_hex(s) && spec_hex_val(strip_sign(s)) <= bound)
}

/// The parsed value of one address component: `None` when blank.
pub open spec fn field_val(s: Seq<u8>) -> Option<nat> {
    if s.len() == 0 {
        None
    } else {
        Some(spec_hex_val(strip_sign(s)))
    }
}

/// The function component of the address text: the bytes after the dot, or
/// blank when there is no dot.
pub open spec fn spec_bdf_fn_part(b: Seq<u8>) -> Seq<u8> {
    let d = find_byte(b, 46);
    if d < b.len() {
        b.skip(d + 1)
    } else {
        Seq::empty()
    }
}

/// Whether `b` is a well-formed address text: at most one dot, at most two
/// colons before it, and every component blank or a hex numeral in range.
pub open spec fn spec_bdf_wf(b: Seq<u8>) -> bool {
    let d = find_byte(b, 46);
    let head = b.take(d);
    let tail = spec_bdf_fn_part(b);
    &&& find_byte(tail, 46) == tail.len()
    &&& field_ok(tail, 0xFF)
    &&& ({
        let c1 = find_byte(head, 58);
        if c1 == head.len() {
            field_ok(head, 0xFF)
        } else {
            let s2 = head.skip(c1 + 1);
            let c2 = find_byte(s2, 58);
            if c2 == s2.len() {
                field_ok(head.take(c1), 0xFF) && field_ok(s2, 0xFF)
            } else {
                let s3 = s2.skip(c2 + 1);
                &&& find_byte(s3, 58) == s3.len()
                &&& field_ok(head.take(c1), 0xFFFF)
                &&& field_ok(s2.take(c2), 0xFF)
                &&& field_ok(s3, 0xFF)
            }
        }
    })
}

/// The address that a well-formed address text denotes.
pub open spec fn spec_parse_bdf(b: Seq<u8>) -> BusDeviceFunction
    recommends
        spec_bdf_wf(b),
{
    let d = find_byte(b, 46);
    let head = b.take(d);
    let tail = spec_bdf_fn_part(b);
    let function = match field_val(tail) {
        Some(v) => Some(v as u8),
        None => None,
    };
    let c1 = find_byte(head, 58);
    if c1 == head.len() {
        BusDeviceFunction {
            domain: None,
            bus: None,
            device: match field_val(head) {
                Some(v) => Some(v as u8),
                None => None,
            },
            function,
        }
    } else {
        let s2 = head.skip(c1 + 1);
        let c2 = find_byte(s2, 58);
        if c2 == s2.len() {
            BusDeviceFunction {
                domain: None,
                bus: match field_val(head.take(c1)) {
                    Some(v) => Some(v as u8),
                    None => None,
                },
                device: match field_val(s2) {
                    Some(v) => Some(v as u8),
                    None => None,
                },
                function,
            }
        } else {
            let s3 = s2.skip(c2 + 1);
            BusDeviceFunction {
                domain: match field_val(head.take(c1)) {
                    Some(v) => Some(v as u16),
                    None => None,
                },
                bus: match field_val(s2.take(c2)) {
                    Some(v) => Some(v as u8),
                    None => None,
                },
                device: match field_val(s3) {
                    Some(v) => Some(v as u8),
                    None => None,
                },
                function,
            }
        }
    }
}

impl BusDeviceFunction {
    /// Parses an address text of the form `[[[[<domain>]:]<bus>]:][<device>][.[<function>]]`.
    /// Any malformed text is rejected with an invalid-address error carrying
    /// the text itself.
    pub fn from_str(s: &str) -> (r: Result<BusDeviceFunction>)
        ensures
            r is Ok <==> spec_bdf_wf(s.spec_bytes()),
            r is Ok ==> r->Ok_0 == spec_parse_bdf(s.spec_bytes()),
            r is Err ==> r->Err_0.error_kind == ErrorKind::InvalidBusDeviceFunction
                && r->Err_0.message@ == s@,
    {
        let b = s.as_bytes();
        let d = find_byte_in(b, 46);
        let head = slice_subrange(b, 0, d);
        proof {
            assert(head@ =~= b@.take(d as int));
        }
        let function: Option<u8>;
        if d < b.len() {
            let tail = slice_subrange(b, d + 1, b.len());
            proof {
                assert(tail@ =~= spec_bdf_fn_part(b@));
            }
            if find_byte_in(tail, 46) < tail.len() {
                return Err(Error::invalid_bdf(s));
            }
            if tail.len() == 0 {
                function = None;
            } else {
                match parse_hex_u8(tail) {
                    Ok(v) => {
                        function = Some(v);
                    },
                    Err(_) => {
                        return Err(Error::invalid_bdf(s));
                    },
                }
            }
        } else {
            proof {
                assert(spec_bdf_fn_part(b@) =~= Seq::<u8>::empty());
                assert(find_byte(Seq::<u8>::empty(), 46) == 0);
            }
            function = None;
        }
        let c1 = find_byte_in(head, 58);
        if c1 == head.len() {
            let device: Option<u8>;
            if head.len() == 0 {
                device = None;
            } else {
                match parse_hex_u8(head) {
                    Ok(v) => {
                        device = Some(v);
                    },
                    Err(_) => {
                        return Err(Error::invalid_bdf(s));
                    },
                }
            }
            return Ok(BusDeviceFunction { domain: None, bus: None, device, function });
        }
        let s2 = slice_subrange(head, c1 + 1, head.len());
        proof {
            assert(s2@ =~= head@.skip(c1 + 1));
        }
        let c2 = find_byte_in(s2, 58);
        if c2 == s2.len() {
            let seg1 = slice_subrange(head, 0, c1);
            proof {
                assert(seg1@ =~= head@.take(c1 as int));
            }
            let bus: Option<u8>;
            if seg1.len() == 0 {
                bus = None;
            } else {
                match parse_hex_u8(seg1) {
                    Ok(v) => {
                        bus = Some(v);
                    },
                    Err(_) => {
                        return Err(Error::invalid_bdf(s));
                    },
                }
            }
            let device: Option<u8>;
            if s2.len() == 0 {
                device = None;
            } else {
                match parse_hex_u8(s2) {
                    Ok(v) => {
                        device = Some(v);
                    },
                    Err(_) => {
                        return Err(Error::invalid_bdf(s));
                    },
                }
            }
            return Ok(BusDeviceFunction { domain: None, bus, device, function });
        }
        let s3 = slice_subrange(s2, c2 + 1, s2.len());
        proof {
            assert(s3@ =~= s2@.skip(c2 + 1));
        }
        if find_byte_in(s3, 58) < s3.len() {
            return Err(Error::invalid_bdf(s));
        }
        let seg1 = slice_subrange(head, 0, c1);
        proof {
            assert(seg1@ =~= head@.take(c1 as int));
        }
        let domain: Option<u16>;
        if seg1.len() == 0 {
            domain = None;
        } else {
            match parse_hex_u16(seg1) {
                Ok(v) => {
                    domain = Some(v);
                },
                Err(_) => {
                    return Err(Error::invalid_bdf(s));
                },
            }
        }
        let seg2 = slice_subrange(s2, 0, c2);
        proof {
            assert(seg2@ =~= s2@.take(c2 as int));
        }
        let bus: Option<u8>;
        if seg2.len() == 0 {
            bus = None;
        } else {
            match parse_hex_u8(seg2) {
                Ok(v) => {
                    bus = Some(v);
                },
                Err(_) => {
                    return Err(Error::invalid_bdf(s));
                },
            }
        }
        let device: Option<u8>;
        if s3.len() == 0 {
            device = None;
        } else {
            match parse_hex_u8(s3) {
                Ok(v) => {
                    device = Some(v);
                },
                Err(_) => {
                    return Err(Error::invalid_bdf(s));
                },
            }
        }
        Ok(BusDeviceFunction { domain, bus, device, function })
    }
}

} // verus!

