//! Bounds-checked little-endian field extraction from a byte slice. Every
//! multi-byte field access in the crate goes through these readers, never
//! direct indexing, so this is the single choke point that protects the
//! decoders against truncated or short captures.

use vstd::prelude::*;
use vstd::string::StringExecFns;

use core::ops::Range;

use crate::error::{Error, ErrorKind, Result};

verus! {

/// The little-endian 16-bit value stored at byte offset `i` of `b`.
pub open spec fn spec_le16_at(b: Seq<u8>, i: int) -> u16
    recommends
        0 <= i,
        i + 2 <= b.len(),
{
    (b[i] + b[i + 1] * 0x100) as u16
}

/// The little-endian 32-bit value stored at byte offset `i` of `b`.
pub open spec fn spec_le32_at(b: Seq<u8>, i: int) -> u32
    recommends
        0 <= i,
        i + 4 <= b.len(),
{
    (b[i] + b[i + 1] * 0x100 + b[i + 2] * 0x1_0000 + b[i + 3] * 0x100_0000) as u32
}

pub struct BinaryParser;

impl BinaryParser {
    /// Reads the little-endian `u32` in the byte range `r` of `b`; the range
    /// must lie inside `b` and span exactly four bytes.
    pub fn le32(b: &[u8], r: Range<usize>) -> (res: Result<u32>)
        ensures
            res is Ok <==> r.start <= r.end <= b@.len() && r.end - r.start == 4,
            res is Ok ==> res->Ok_0 == spec_le32_at(b@, r.start as int),
            res is Err ==> res->Err_0.error_kind == ErrorKind::SliceParseError,
    {
        if r.start > r.end || r.end > b.len() {
            return Err(Error::slice_parse_error(b, &r));
        }
        if r.end - r.start != 4 {
            return Err(
                Error {
                    error_kind: ErrorKind::SliceParseError,
                    message: String::from_str("could not convert slice to array"),
                },
            );
        }
        let v: u32 = b[r.start] as u32 + (b[r.start + 1] as u32) * 0x100 + (b[r.start + 2] as u32)
            * 0x1_0000 + (b[r.start + 3] as u32) * 0x100_0000;
        Ok(v)
    }

    /// Reads the little-endian `u16` in the byte range `r` of `b`; the range
    /// must lie inside `b` and span exactly two bytes.
    pub fn le16(b: &[u8], r: Range<usize>) -> (res: Result<u16>)
        ensures
            res is Ok <==> r.start <= r.end <= b@.len() && r.end - r.start == 2,
            res is Ok ==> res->Ok_0 == spec_le16_at(b@, r.start as int),
            res is Err ==> res->Err_0.error_kind == ErrorKind::SliceParseError,
    {
        if r.start > r.end || r.end > b.len() {
            return Err(Error::slice_parse_error(b, &r));
        }
        if r.end - r.start != 2 {
            return Err(
                Error {
                    error_kind: ErrorKind::SliceParseError,
                    message: String::from_str("could not convert slice to array"),
                },
            );
        }
        let v: u16 = b[r.start] as u16 + (b[r.start + 1] as u16) * 0x100;
        Ok(v)
    }

    /// Reads the single byte in the byte range `r` of `b`; the range must lie
    /// inside `b` and span exactly one byte.
    pub fn le8(b: &[u8], r: Range<usize>) -> (res: Result<u8>)
        ensures
            res is Ok <==> r.start <= r.end <= b@.len() && r.end - r.start == 1,
            res is Ok ==> res->Ok_0 == b@[r.start as int],
            res is Err ==> res->Err_0.error_kind == ErrorKind::SliceParseError,
    {
        if r.start > r.end || r.end > b.len() {
            return Err(Error::slice_parse_error(b, &r));
        }
        if r.end - r.start != 1 {
            return Err(
                Error {
                    error_kind: ErrorKind::SliceParseError,
                    message: String::from_str("could not convert slice to array"),
                },
            );
        }
        Ok(b[r.start])
    }
}

} // verus!
