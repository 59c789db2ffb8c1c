//! The compute half of the sysfs collaborator: building per-function paths and
//! decoding the text of per-function parameter files. Reading the files and
//! the live register window is I/O and lives outside the library; callers hand
//! the raw bytes (or the failed read) in.

use vstd::prelude::*;
use vstd::slice::slice_subrange;
use vstd::string::StringExecFns;

use crate::bdf::{spec_bdf_string, BusDeviceFunction};
use crate::error::Result;
use crate::text::{
    clean_parameter_bounds, parse_hex_u16, parse_hex_u32, parse_hex_u8, spec_hex_val,
    spec_strip_0x, spec_trim, strip_sign, wf_hex,
};

verus! {

/// The digits of a parameter file: its text with surrounding whitespace and
/// every leading `0x` removed.
pub open spec fn spec_parameter_digits(raw: Seq<u8>) -> Seq<u8> {
    spec_strip_0x(spec_trim(raw))
}

/// Whether a parameter file's bytes hold a hex numeral no larger than `bound`.
pub open spec fn spec_parameter_ok(raw: Seq<u8>, bound: nat) -> bool {
    wf_hex(spec_parameter_digits(raw)) && spec_hex_val(strip_sign(spec_parameter_digits(raw)))
        <= bound
}

/// The value of a parameter file's hex numeral.
pub open spec fn spec_parameter_val(raw: Seq<u8>) -> nat {
    spec_hex_val(strip_sign(spec_parameter_digits(raw)))
}

/// The canonical sysfs location of one entry under a function's directory.
pub open spec fn spec_function_sub_path(bdf: BusDeviceFunction, sub: Seq<char>) -> Seq<char> {
    "/sys/bus/pci/devices/"@ + spec_bdf_string(
        BusDeviceFunction {
            domain: if bdf.domain is None {
                Some(0u16)
            } else {
                bdf.domain
            },
            ..bdf
        },
    ) + seq!['/'] + sub
}

pub struct Sysfs;

impl Sysfs {
    /// The path of `sub` under the function's sysfs directory.
    pub fn get_function_sub_path(bdf: &BusDeviceFunction, sub: &str) -> (r: String)
        ensures
            r@ == spec_function_sub_path(*bdf, sub@),
    {
        let mut path = String::from_str("/sys/bus/pci/devices/");
        path.append(bdf.canonical_bdf_string().as_str());
        path.append("/");
        path.append(sub);
        proof {
            reveal_strlit("/");
            assert(path@ =~= spec_function_sub_path(*bdf, sub@));
        }
        path
    }

    /// Decodes a parameter file's bytes as a hex `u8`, tolerating surrounding
    /// whitespace and a leading `0x`.
    pub fn parse_function_parameter_u8(raw: &[u8]) -> (r: Result<u8>)
        ensures
            r is Ok <==> spec_parameter_ok(raw@, 0xFF),
            r is Ok ==> r->Ok_0 == spec_parameter_val(raw@),
            r is Err ==> r->Err_0.error_kind == crate::error::ErrorKind::IntegerParseError,
    {
        let (i, j) = clean_parameter_bounds(raw);
        parse_hex_u8(slice_subrange(raw, i, j))
    }

    /// Decodes a parameter file's bytes as a hex `u16`.
    pub fn parse_function_parameter_u16(raw: &[u8]) -> (r: Result<u16>)
        ensures
            r is Ok <==> spec_parameter_ok(raw@, 0xFFFF),
            r is Ok ==> r->Ok_0 == spec_parameter_val(raw@),
            r is Err ==> r->Err_0.error_kind == crate::error::ErrorKind::IntegerParseError,
    {
        let (i, j) = clean_parameter_bounds(raw);
        parse_hex_u16(slice_subrange(raw, i, j))
    }

    /// Decodes a parameter file's bytes as a hex `u32`.
    pub fn parse_function_parameter_u32(raw: &[u8]) -> (r: Result<u32>)
        ensures
            r is Ok <==> spec_parameter_ok(raw@, 0xFFFF_FFFF),
            r is Ok ==> r->Ok_0 == spec_parameter_val(raw@),
            r is Err ==> r->Err_0.error_kind == crate::error::ErrorKind::IntegerParseError,
    {
        let (i, j) = clean_parameter_bounds(raw);
        parse_hex_u32(slice_subrange(raw, i, j))
    }

    /// Decodes an optional parameter: a read that failed with "not found"
    /// becomes `None` instead of an error.
    pub fn parse_function_parameter_u16_optional(read: Result<Vec<u8>>) -> (r: Result<Option<u16>>)
        ensures
            read is Err && read->Err_0.error_kind == crate::error::ErrorKind::IoError(
                crate::error::IoErrorClass::NotFound,
            ) ==> r == Result::<Option<u16>>::Ok(Option::<u16>::None),
            read is Err && read->Err_0.error_kind != crate::error::ErrorKind::IoError(
                crate::error::IoErrorClass::NotFound,
            ) ==> r == Result::<Option<u16>>::Err(read->Err_0),
            read is Ok ==> (r is Ok <==> spec_parameter_ok(read->Ok_0@, 0xFFFF)),
            read is Ok && r is Ok ==> r->Ok_0 == Some(
                (spec_parameter_val(read->Ok_0@) as u16),
            ),
            read is Ok && r is Err ==> r->Err_0.error_kind
                == crate::error::ErrorKind::IntegerParseError,
    {
        match read {
            Ok(raw) => {
                match Self::parse_function_parameter_u16(raw.as_slice()) {
                    Ok(v) => Ok(Some(v)),
                    Err(e) => Err(e),
                }
            },
            Err(e) => {
                if e.is_file_not_found() {
                    Ok(None)
                } else {
                    Err(e)
                }
            },
        }
    }

    /// Decodes an optional parameter: a read that failed with "not found"
    /// becomes `None` instead of an error.
    pub fn parse_function_parameter_u8_optional(read: Result<Vec<u8>>) -> (r: Result<Option<u8>>)
        ensures
            read is Err && read->Err_0.error_kind == crate::error::ErrorKind::IoError(
                crate::error::IoErrorClass::NotFound,
            ) ==> r == Result::<Option<u8>>::Ok(Option::<u8>::None),
            read is Err && read->Err_0.error_kind != crate::error::ErrorKind::IoError(
                crate::error::IoErrorClass::NotFound,
            ) ==> r == Result::<Option<u8>>::Err(read->Err_0),
            read is Ok ==> (r is Ok <==> spec_parameter_ok(read->Ok_0@, 0xFF)),
            read is Ok && r is Ok ==> r->Ok_0 == Some((spec_parameter_val(read->Ok_0@) as u8)),
            read is Ok && r is Err ==> r->Err_0.error_kind
                == crate::error::ErrorKind::IntegerParseError,
    {
        match read {
            Ok(raw) => {
                match Self::parse_function_parameter_u8(raw.as_slice()) {
                    Ok(v) => Ok(Some(v)),
                    Err(e) => Err(e),
                }
            },
            Err(e) => {
                if e.is_file_not_found() {
                    Ok(None)
                } else {
                    Err(e)
                }
            },
        }
    }

    /// The vendor ID held in the function's `vendor` parameter file.
    pub fn vendor_id(&self, raw: &[u8]) -> (r: Result<u16>)
        ensures
            r is Ok <==> spec_parameter_ok(raw@, 0xFFFF),
            r is Ok ==> r->Ok_0 == spec_parameter_val(raw@),
    {
        Self::parse_function_parameter_u16(raw)
    }

    /// The device ID held in the function's `device` parameter file.
    pub fn device_id(&self, raw: &[u8]) -> (r: Result<u16>)
        ensures
            r is Ok <==> spec_parameter_ok(raw@, 0xFFFF),
            r is Ok ==> r->Ok_0 == spec_parameter_val(raw@),
    {
        Self::parse_function_parameter_u16(raw)
    }

    /// The revision ID held in the function's `revision` parameter file.
    pub fn revision_id(&self, raw: &[u8]) -> (r: Result<u8>)
        ensures
            r is Ok <==> spec_parameter_ok(raw@, 0xFF),
            r is Ok ==> r->Ok_0 == spec_parameter_val(raw@),
    {
        Self::parse_function_parameter_u8(raw)
    }

    /// The 16-bit class code (base class and sub-class) held in the function's
    /// `class` parameter file, whose 24-bit value also carries the programming
    /// interface in its low byte.
    pub fn class_code(&self, raw: &[u8]) -> (r: Result<u16>)
        ensures
            r is Ok <==> spec_parameter_ok(raw@, 0xFFFF_FFFF),
            r is Ok ==> r->Ok_0 == ((spec_parameter_val(raw@) as u32) >> 8) & 0xFFFF,
    {
        let class_code = Self::parse_function_parameter_u32(raw)?;
        let r: u16 = ((class_code >> 8) & 0xFFFF) as u16;
        proof {
            assert(((class_code >> 8) & 0xFFFF) <= 0xFFFF && ((class_code >> 8) & 0xFFFF) == ((
            class_code >> 8) & 0xFFFF) as u16) by (bit_vector);
        }
        Ok(r)
    }

    /// The base class byte of the function's class code.
    pub fn base_class_code(&self, raw: &[u8]) -> (r: Result<u8>)
        ensures
            r is Ok <==> spec_parameter_ok(raw@, 0xFFFF_FFFF),
            r is Ok ==> r->Ok_0 == ((((spec_parameter_val(raw@) as u32) >> 8) & 0xFFFF) as u16
                >> 8) & 0xFF,
    {
        let class_code = self.class_code(raw)?;
        let r: u8 = ((class_code >> 8) & 0xFF) as u8;
        proof {
            assert(((class_code >> 8) & 0xFF) <= 0xFF && ((class_code >> 8) & 0xFF) == ((class_code
                >> 8) & 0xFF) as u8) by (bit_vector);
        }
        Ok(r)
    }

    /// The sub-class byte of the function's class code.
    pub fn sub_class_code(&self, raw: &[u8]) -> (r: Result<u8>)
        ensures
            r is Ok <==> spec_parameter_ok(raw@, 0xFFFF_FFFF),
            r is Ok ==> r->Ok_0 == ((((spec_parameter_val(raw@) as u32) >> 8) & 0xFFFF) as u16)
                & 0xFF,
    {
        let class_code = self.class_code(raw)?;
        let r: u8 = (class_code & 0xFF) as u8;
        proof {
            assert((class_code & 0xFF) <= 0xFF && (class_code & 0xFF) == (class_code & 0xFF) as u8)
                by (bit_vector);
        }
        Ok(r)
    }

    /// The function's optional `subsystem_vendor` parameter.
    pub fn subsystem_vendor(&self, read: Result<Vec<u8>>) -> (r: Result<Option<u16>>)
        ensures
            read is Err && read->Err_0.error_kind == crate::error::ErrorKind::IoError(
                crate::error::IoErrorClass::NotFound,
            ) ==> r == Result::<Option<u16>>::Ok(Option::<u16>::None),
            read is Err && read->Err_0.error_kind != crate::error::ErrorKind::IoError(
                crate::error::IoErrorClass::NotFound,
            ) ==> r == Result::<Option<u16>>::Err(read->Err_0),
            read is Ok ==> (r is Ok <==> spec_parameter_ok(read->Ok_0@, 0xFFFF)),
            read is Ok && r is Ok ==> r->Ok_0 == Some((spec_parameter_val(read->Ok_0@) as u16)),
    {
        Self::parse_function_parameter_u16_optional(read)
    }

    /// The function's optional `subsystem_device` parameter.
    pub fn subsystem_device(&self, read: Result<Vec<u8>>) -> (r: Result<Option<u16>>)
        ensures
            read is Err && read->Err_0.error_kind == crate::error::ErrorKind::IoError(
                crate::error::IoErrorClass::NotFound,
            ) ==> r == Result::<Option<u16>>::Ok(Option::<u16>::None),
            read is Err && read->Err_0.error_kind != crate::error::ErrorKind::IoError(
                crate::error::IoErrorClass::NotFound,
            ) ==> r == Result::<Option<u16>>::Err(read->Err_0),
            read is Ok ==> (r is Ok <==> spec_parameter_ok(read->Ok_0@, 0xFFFF)),
            read is Ok && r is Ok ==> r->Ok_0 == Some((spec_parameter_val(read->Ok_0@) as u16)),
    {
        Self::parse_function_parameter_u16_optional(read)
    }

    /// The bridge's optional `secondary_bus_number` parameter.
    pub fn secondary_bus_number(&self, read: Result<Vec<u8>>) -> (r: Result<Option<u8>>)
        ensures
            read is Err && read->Err_0.error_kind == crate::error::ErrorKind::IoError(
                crate::error::IoErrorClass::NotFound,
            ) ==> r == Result::<Option<u8>>::Ok(Option::<u8>::None),
            read is Err && read->Err_0.error_kind != crate::error::ErrorKind::IoError(
                crate::error::IoErrorClass::NotFound,
            ) ==> r == Result::<Option<u8>>::Err(read->Err_0),
            read is Ok ==> (r is Ok <==> spec_parameter_ok(read->Ok_0@, 0xFF)),
            read is Ok && r is Ok ==> r->Ok_0 == Some((spec_parameter_val(read->Ok_0@) as u8)),
    {
        Self::parse_function_parameter_u8_optional(read)
    }

    /// The bridge's optional `subordinate_bus_number` parameter.
    pub fn subordinate_bus_number(&self, read: Result<Vec<u8>>) -> (r: Result<Option<u8>>)
        ensures
            read is Err && read->Err_0.error_kind == crate::error::ErrorKind::IoError(
                crate::error::IoErrorClass::NotFound,
            ) ==> r == Result::<Option<u8>>::Ok(Option::<u8>::None),
            read is Err && read->Err_0.error_kind != crate::error::ErrorKind::IoError(
                crate::error::IoErrorClass::NotFound,
            ) ==> r == Result::<Option<u8>>::Err(read->Err_0),
            read is Ok ==> (r is Ok <==> spec_parameter_ok(read->Ok_0@, 0xFF)),
            read is Ok && r is Ok ==> r->Ok_0 == Some((spec_parameter_val(read->Ok_0@) as u8)),
    {
        Self::parse_function_parameter_u8_optional(read)
    }
}

} // verus!
