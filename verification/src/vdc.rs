//! Vendor:device[:class] filters. Each component is independently optional;
//! equality only compares the components present on both sides.

use vstd::prelude::*;
use vstd::slice::slice_subrange;
use vstd::string::StringSliceAdditionalSpecFns;

use crate::error::{Error, ErrorKind, Result};
use crate::text::{find_byte, find_byte_in, parse_hex_u16, spec_hex_val, strip_sign, wf_hex};

verus! {

/// A vendor/device/class filter; every component that is `None` is a wildcard.
#[derive(Debug, Clone, Copy)]
pub struct VendorDeviceClass {
    pub vendor: Option<u16>,
    pub device: Option<u16>,
    pub class: Option<u16>,
}

/// What `==` means on filters: every component present on both sides must
/// match; a component absent on either side never causes a mismatch.
pub open spec fn spec_vdc_eq(a: VendorDeviceClass, b: VendorDeviceClass) -> bool {
    &&& (a.vendor is None || b.vendor is None || a.vendor == b.vendor)
    &&& (a.device is None || b.device is None || a.device == b.device)
    &&& (a.class is None || b.class is None || a.class == b.class)
}

impl PartialEq for VendorDeviceClass {
    fn eq(&self, other: &Self) -> (r: bool) {
        (self.vendor.is_none() || other.vendor.is_none() || self.vendor.unwrap()
            == other.vendor.unwrap()) && (self.device.is_none() || other.device.is_none()
            || self.device.unwrap() == other.device.unwrap()) && (self.class.is_none()
            || other.class.is_none() || self.class.unwrap() == other.class.unwrap())
    }
}

impl vstd::std_specs::cmp::PartialEqSpecImpl for VendorDeviceClass {
    open spec fn obeys_eq_spec() -> bool {
        true
    }

    open spec fn eq_spec(&self, other: &Self) -> bool {
        spec_vdc_eq(*self, *other)
    }
}

/// Whether the bytes of one filter component are acceptable: blank, or a hex
/// numeral that fits in 16 bits.
pub open spec fn vdc_field_ok(s: Seq<u8>) -> bool {
    s.len() == 0 || (wf_hex(s) && spec_hex_val(strip_sign(s)) <= 0xFFFF)
}

/// The parsed value of one filter component: `None` when blank.
pub open spec fn vdc_field_val(s: Seq<u8>) -> Option<u16> {
    if s.len() == 0 {
        None
    } else {
        Some(spec_hex_val(strip_sign(s)) as u16)
    }
}

/// Whether `b` has the right shape for a filter: exactly one or two colons.
pub open spec fn spec_vdc_shape_ok(b: Seq<u8>) -> bool {
    let c1 = find_byte(b, 58);
    if c1 == b.len() {
        false
    } else {
        let s2 = b.skip(c1 + 1);
        let c2 = find_byte(s2, 58);
        c2 == s2.len() || find_byte(s2.skip(c2 + 1), 58) == s2.skip(c2 + 1).len()
    }
}

/// Whether `b` is a well-formed filter text: the right shape, with every
/// component blank or a hex numeral that fits in 16 bits.
pub open spec fn spec_vdc_wf(b: Seq<u8>) -> bool {
    let c1 = find_byte(b, 58);
    &&& spec_vdc_shape_ok(b)
    &&& vdc_field_ok(b.take(c1))
    &&& ({
        let s2 = b.skip(c1 + 1);
        let c2 = find_byte(s2, 58);
        if c2 == s2.len() {
            vdc_field_ok(s2)
        } else {
            vdc_field_ok(s2.take(c2)) && vdc_field_ok(s2.skip(c2 + 1))
        }
    })
}

/// The filter that a well-formed filter text denotes.
pub open spec fn spec_parse_vdc(b: Seq<u8>) -> VendorDeviceClass
    recommends
        spec_vdc_wf(b),
{
    let c1 = find_byte(b, 58);
    let s2 = b.skip(c1 + 1);
    let c2 = find_byte(s2, 58);
    if c2 == s2.len() {
        VendorDeviceClass { vendor: vdc_field_val(b.take(c1)), device: vdc_field_val(s2), class: None }
    } else {
        VendorDeviceClass {
            vendor: vdc_field_val(b.take(c1)),
            device: vdc_field_val(s2.take(c2)),
            class: vdc_field_val(s2.skip(c2 + 1)),
        }
    }
}

impl VendorDeviceClass {
    /// Parses a filter text of the form `[<vendor>]:[<device>][:<class>]`. A
    /// text without one or two colons is rejected as an invalid filter; a
    /// component that is not a hex numeral is rejected as an invalid address,
    /// both carrying the text itself.
    pub fn from_str(s: &str) -> (r: Result<VendorDeviceClass>)
        ensures
            r is Ok <==> spec_vdc_wf(s.spec_bytes()),
            r is Ok ==> r->Ok_0 == spec_parse_vdc(s.spec_bytes()),
            r is Err ==> r->Err_0.message@ == s@,
            r is Err && !spec_vdc_shape_ok(s.spec_bytes()) ==> r->Err_0.error_kind
                == ErrorKind::InvalidVendorDeviceClass,
            r is Err && spec_vdc_shape_ok(s.spec_bytes()) ==> r->Err_0.error_kind
                == ErrorKind::InvalidBusDeviceFunction,
    {
        let b = s.as_bytes();
        let c1 = find_byte_in(b, 58);
        if c1 == b.len() {
            return Err(Error::invalid_vdc(s));
        }
        let s2 = slice_subrange(b, c1 + 1, b.len());
        proof {
            assert(s2@ =~= b@.skip(c1 + 1));
        }
        let c2 = find_byte_in(s2, 58);
        let seg1 = slice_subrange(b, 0, c1);
        proof {
            assert(seg1@ =~= b@.take(c1 as int));
        }
        if c2 == s2.len() {
            let vendor: Option<u16>;
            if seg1.len() == 0 {
                vendor = None;
            } else {
                match parse_hex_u16(seg1) {
                    Ok(v) => {
                        vendor = Some(v);
                    },
                    Err(_) => {
                        return Err(Error::invalid_bdf(s));
                    },
                }
            }
            let device: Option<u16>;
            if s2.len() == 0 {
                device = None;
            } else {
                match parse_hex_u16(s2) {
                    Ok(v) => {
                        device = Some(v);
                    },
                    Err(_) => {
                        return Err(Error::invalid_bdf(s));
                    },
                }
            }
            return Ok(VendorDeviceClass { vendor, device, class: None });
        }
        let s3 = slice_subrange(s2, c2 + 1, s2.len());
        proof {
            assert(s3@ =~= s2@.skip(c2 + 1));
        }
        if find_byte_in(s3, 58) < s3.len() {
            return Err(Error::invalid_vdc(s));
        }
        let vendor: Option<u16>;
        if seg1.len() == 0 {
            vendor = None;
        } else {
            match parse_hex_u16(seg1) {
                Ok(v) => {
                    vendor = Some(v);
                },
                Err(_) => {
                    return Err(Error::invalid_bdf(s));
                },
            }
        }
        let seg2 = slice_subrange(s2, 0, c2);
        proof {
            assert(seg2@ =~= s2@.take(c2 as int));
        }
        let device: Option<u16>;
        if seg2.len() == 0 {
            device = None;
        } else {
            match parse_hex_u16(seg2) {
                Ok(v) => {
                    device = Some(v);
                },
                Err(_) => {
                    return Err(Error::invalid_bdf(s));
                },
            }
        }
        let class: Option<u16>;
        if s3.len() == 0 {
            class = None;
        } else {
            match parse_hex_u16(s3) {
                Ok(v) => {
                    class = Some(v);
                },
                Err(_) => {
                    return Err(Error::invalid_bdf(s));
                },
            }
        }
        Ok(VendorDeviceClass { vendor, device, class })
    }
}

} // verus!
