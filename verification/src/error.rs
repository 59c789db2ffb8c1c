//! The crate's error type: every fallible operation reports one of a small set
//! of error kinds, together with a human-readable message.

use vstd::prelude::*;
use vstd::string::StringExecFns;

use crate::text::{dec_string, spec_dec};
use core::ops::Range;

verus! {

/// The OS-level classification of an I/O failure, as far as this crate
/// distinguishes it. `NotFound` is special: callers of optional registers map
/// it to "this register does not exist" instead of a hard failure.
#[derive(Debug, PartialEq, Eq, Clone, Copy)]
pub enum IoErrorClass {
    NotFound,
    PermissionDenied,
    Other,
}

#[derive(Debug, PartialEq, Eq, Clone, Copy)]
pub enum ErrorKind {
    IntegerParseError,
    InvalidBusDeviceFunction,
    InvalidVendorDeviceClass,
    IoError(IoErrorClass),
    FormatError,
    SliceParseError,
}

#[derive(Debug, PartialEq, Clone)]
pub struct Error {
    pub error_kind: ErrorKind,
    pub message: String,
}

pub type Result<T> = core::result::Result<T, Error>;

/// The message of the error that a read of `r` out of a buffer of `len` bytes produces.
pub open spec fn spec_range_message(start: nat, end: nat, len: nat) -> Seq<char> {
    "Index range "@ + spec_dec(start) + ":"@ + spec_dec(end) + " outside of 0:"@ + spec_dec(len)
}

impl Error {
    pub fn invalid_bdf(message: &str) -> (e: Self)
        ensures
            e.error_kind == ErrorKind::InvalidBusDeviceFunction,
            e.message@ == message@,
    {
        Error { error_kind: ErrorKind::InvalidBusDeviceFunction, message: message.to_owned() }
    }

    pub fn invalid_vdc(message: &str) -> (e: Self)
        ensures
            e.error_kind == ErrorKind::InvalidVendorDeviceClass,
            e.message@ == message@,
    {
        Error { error_kind: ErrorKind::InvalidVendorDeviceClass, message: message.to_owned() }
    }

    pub fn is_file_not_found(&self) -> (r: bool)
        ensures
            r == (self.error_kind == ErrorKind::IoError(IoErrorClass::NotFound)),
    {
        if let ErrorKind::IoError(IoErrorClass::NotFound) = self.error_kind {
            return true;
        }
        false
    }

    /// The bounds error reported when the byte range `r` does not lie inside `b`.
    pub fn slice_parse_error(b: &[u8], r: &Range<usize>) -> (e: Error)
        ensures
            e.error_kind == ErrorKind::SliceParseError,
            e.message@ == spec_range_message(r.start as nat, r.end as nat, b@.len()),
    {
        let mut message = String::from_str("Index range ");
        message.append(dec_string(r.start as u64).as_str());
        message.append(":");
        message.append(dec_string(r.end as u64).as_str());
        message.append(" outside of 0:");
        message.append(dec_string(b.len() as u64).as_str());
        Error { error_kind: ErrorKind::SliceParseError, message }
    }
}

} // verus!
