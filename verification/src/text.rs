//! Hexadecimal and decimal text helpers shared by the whole crate: rendering
//! numbers as zero-padded hex strings and parsing hex numerals from raw bytes.

use vstd::prelude::*;
use vstd::string::StringExecFns;

use crate::error::{Error, ErrorKind, Result};

verus! {

/// Relies on alloc's String::push: appends the given char to the end of the string.
pub assume_specification[ String::push ](s: &mut String, c: char)
    ensures
        final(s)@ == old(s)@.push(c),
;

/// The lower-case hex digit character for a value below 16.
pub open spec fn spec_hex_digit(d: nat) -> char
    recommends
        d < 16,
{
    if d < 10 {
        (d + 48) as char
    } else {
        (d + 87) as char
    }
}

/// The hex numeral of `v`, zero-padded on the left to at least `width` characters.
pub open spec fn spec_hex(v: nat, width: nat) -> Seq<char>
    decreases v + width,
{
    if v < 16 && width <= 1 {
        seq![spec_hex_digit(v)]
    } else {
        spec_hex((v / 16) as nat, if width == 0 { 0 } else { (width - 1) as nat }).push(
            spec_hex_digit((v % 16) as nat),
        )
    }
}

/// The decimal numeral of `v`, without padding.
pub open spec fn spec_dec(v: nat) -> Seq<char>
    decreases v,
{
    if v < 10 {
        seq![(v + 48) as char]
    } else {
        spec_dec((v / 10) as nat).push(((v % 10) + 48) as char)
    }
}

fn hex_digit(d: u8) -> (c: char)
    requires
        d < 16,
    ensures
        c == spec_hex_digit(d as nat),
{
    if d < 10 {
        (d + 48) as char
    } else {
        (d + 87) as char
    }
}

/// Renders `v` in lower-case hex, zero-padded on the left to at least `width` characters.
pub fn hex_string(v: u64, width: usize) -> (s: String)
    ensures
        s@ == spec_hex(v as nat, width as nat),
    decreases v, width,
{
    let d: u8 = (v % 16) as u8;
    if v < 16 && width <= 1 {
        let mut s = String::new();
        s.push(hex_digit(d));
        proof {
            assert(s@ =~= spec_hex(v as nat, width as nat));
        }
        s
    } else {
        let mut s = hex_string(v / 16, if width == 0 { 0 } else { width - 1 });
        s.push(hex_digit(d));
        s
    }
}

/// Renders `v` in decimal.
pub fn dec_string(v: u64) -> (s: String)
    ensures
        s@ == spec_dec(v as nat),
    decreases v,
{
    let d: u8 = (v % 10) as u8;
    if v < 10 {
        let mut s = String::new();
        s.push((d + 48) as char);
        proof {
            assert(s@ =~= spec_dec(v as nat));
        }
        s
    } else {
        let mut s = dec_string(v / 10);
        s.push((d + 48) as char);
        s
    }
}

/// Whether `b` is an ASCII hex digit (either case), as `u8::from_str_radix`
/// with radix 16 accepts it.
pub open spec fn is_hex_digit_byte(b: u8) -> bool {
    (48 <= b <= 57) || (97 <= b <= 102) || (65 <= b <= 70)
}

/// The numeric value of a hex digit byte.
pub open spec fn hex_digit_val(b: u8) -> nat
    recommends
        is_hex_digit_byte(b),
{
    if 48 <= b <= 57 {
        (b - 48) as nat
    } else if 97 <= b <= 102 {
        (b - 87) as nat
    } else {
        (b - 55) as nat
    }
}

/// The value of a sequence of hex digit bytes, most significant first.
pub open spec fn spec_hex_val(s: Seq<u8>) -> nat
    decreases s.len(),
{
    if s.len() == 0 {
        0
    } else {
        spec_hex_val(s.drop_last()) * 16 + hex_digit_val(s.last())
    }
}

/// The digits of a hex numeral: everything after an optional leading `+`.
pub open spec fn strip_sign(s: Seq<u8>) -> Seq<u8> {
    if s.len() > 0 && s[0] == 43 {
        s.drop_first()
    } else {
        s
    }
}

/// Whether `s` is a well-formed hex numeral: an optional `+` followed by at
/// least one hex digit. This is exactly what `from_str_radix(s, 16)` accepts
/// for an unsigned target, value range aside.
pub open spec fn wf_hex(s: Seq<u8>) -> bool {
    &&& strip_sign(s).len() > 0
    &&& forall|i: int| 0 <= i < strip_sign(s).len() ==> is_hex_digit_byte(#[trigger] strip_sign(s)[i])
}

proof fn lemma_hex_val_take(s: Seq<u8>, k: int)
    requires
        0 <= k <= s.len(),
    ensures
        spec_hex_val(s) >= spec_hex_val(s.take(k)),
    decreases s.len(),
{
    if k < s.len() {
        assert(s.drop_last().take(k) =~= s.take(k));
        lemma_hex_val_take(s.drop_last(), k);
        assert(spec_hex_val(s.drop_last()) * 16 >= spec_hex_val(s.drop_last()));
    } else {
        assert(s.take(k) =~= s);
    }
}

/// Parses a hex numeral from the bytes of a string, rejecting values above
/// `bound`, exactly as `from_str_radix` with radix 16 into an unsigned type
/// whose maximum is `bound` does.
fn parse_hex(b: &[u8], bound: u64) -> (r: Result<u64>)
    requires
        bound <= 0xFFFF_FFFF,
    ensures
        r is Ok <==> wf_hex(b@) && spec_hex_val(strip_sign(b@)) <= bound,
        r is Ok ==> r->Ok_0 == spec_hex_val(strip_sign(b@)),
        r is Err ==> r->Err_0.error_kind == ErrorKind::IntegerParseError,
{
    let ghost digits = strip_sign(b@);
    let mut i: usize = 0;
    if b.len() > 0 && b[0] == 43 {
        i = 1;
    }
    proof {
        assert(digits =~= b@.subrange(i as int, b@.len() as int));
    }
    if i == b.len() {
        return Err(
            Error {
                error_kind: ErrorKind::IntegerParseError,
                message: String::from_str("cannot parse integer from empty string"),
            },
        );
    }
    let ghost start = i as int;
    let mut acc: u64 = 0;
    let mut k: usize = i;
    while k < b.len()
        invariant
            0 <= start <= k <= b@.len(),
            digits == strip_sign(b@),
            digits == b@.subrange(start, b@.len() as int),
            digits.len() > 0,
            acc == spec_hex_val(digits.take(k - start)),
            acc <= bound,
            bound <= 0xFFFF_FFFF,
            forall|j: int| start <= j < k ==> is_hex_digit_byte(#[trigger] b@[j]),
        decreases b@.len() - k,
    {
        let c = b[k];
        let d: u64 = if 48 <= c && c <= 57 {
            (c - 48) as u64
        } else if 97 <= c && c <= 102 {
            (c - 87) as u64
        } else if 65 <= c && c <= 70 {
            (c - 55) as u64
        } else {
            proof {
                assert(!is_hex_digit_byte(strip_sign(b@)[k - start]));
            }
            return Err(
                Error {
                    error_kind: ErrorKind::IntegerParseError,
                    message: String::from_str("invalid digit found in string"),
                },
            );
        };
        let next = acc * 16 + d;
        proof {
            assert(digits.take(k - start + 1).drop_last() =~= digits.take(k - start));
            assert(digits.take(k - start + 1).last() == b@[k as int]);
        }
        if next > bound {
            proof {
                lemma_hex_val_take(digits, k - start + 1);
                assert(spec_hex_val(strip_sign(b@)) > bound);
            }
            return Err(
                Error {
                    error_kind: ErrorKind::IntegerParseError,
                    message: String::from_str("number too large to fit in target type"),
                },
            );
        }
        acc = next;
        k = k + 1;
    }
    proof {
        assert(digits.take(k - start) =~= digits);
        assert(forall|i: int|
            0 <= i < strip_sign(b@).len() ==> is_hex_digit_byte(#[trigger] strip_sign(b@)[i]));
    }
    Ok(acc)
}

/// Parses the bytes of a hex numeral into a `u8`, as `u8::from_str_radix(s, 16)` does.
pub fn parse_hex_u8(b: &[u8]) -> (r: Result<u8>)
    ensures
        r is Ok <==> wf_hex(b@) && spec_hex_val(strip_sign(b@)) <= 0xFF,
        r is Ok ==> r->Ok_0 == spec_hex_val(strip_sign(b@)),
        r is Err ==> r->Err_0.error_kind == ErrorKind::IntegerParseError,
{
    match parse_hex(b, 0xFF) {
        Ok(v) => Ok(v as u8),
        Err(e) => Err(e),
    }
}

/// Parses the bytes of a hex numeral into a `u16`, as `u16::from_str_radix(s, 16)` does.
pub fn parse_hex_u16(b: &[u8]) -> (r: Result<u16>)
    ensures
        r is Ok <==> wf_hex(b@) && spec_hex_val(strip_sign(b@)) <= 0xFFFF,
        r is Ok ==> r->Ok_0 == spec_hex_val(strip_sign(b@)),
        r is Err ==> r->Err_0.error_kind == ErrorKind::IntegerParseError,
{
    match parse_hex(b, 0xFFFF) {
        Ok(v) => Ok(v as u16),
        Err(e) => Err(e),
    }
}

/// Parses the bytes of a hex numeral into a `u32`, as `u32::from_str_radix(s, 16)` does.
pub fn parse_hex_u32(b: &[u8]) -> (r: Result<u32>)
    ensures
        r is Ok <==> wf_hex(b@) && spec_hex_val(strip_sign(b@)) <= 0xFFFF_FFFF,
        r is Ok ==> r->Ok_0 == spec_hex_val(strip_sign(b@)),
        r is Err ==> r->Err_0.error_kind == ErrorKind::IntegerParseError,
{
    match parse_hex(b, 0xFFFF_FFFF) {
        Ok(v) => Ok(v as u32),
        Err(e) => Err(e),
    }
}

/// Whether `b` is one of the ASCII whitespace bytes that `str::trim` removes.
pub open spec fn is_ascii_space(b: u8) -> bool {
    b == 32 || b == 9 || b == 10 || b == 11 || b == 12 || b == 13
}

/// `s` with leading and trailing ASCII whitespace removed.
pub open spec fn spec_trim(s: Seq<u8>) -> Seq<u8>
    decreases s.len(),
{
    if s.len() > 0 && is_ascii_space(s[0]) {
        spec_trim(s.drop_first())
    } else if s.len() > 0 && is_ascii_space(s.last()) {
        spec_trim(s.drop_last())
    } else {
        s
    }
}

/// `s` with every leading repetition of the two bytes `0x` removed, as
/// `str::trim_start_matches("0x")` leaves it.
pub open spec fn spec_strip_0x(s: Seq<u8>) -> Seq<u8>
    decreases s.len(),
{
    if s.len() >= 2 && s[0] == 48 && s[1] == 120 {
        spec_strip_0x(s.skip(2))
    } else {
        s
    }
}

/// Trims ASCII whitespace from both ends of `b` and then strips every leading
/// `0x`, handing back the bounds of what remains.
pub fn clean_parameter_bounds(b: &[u8]) -> (r: (usize, usize))
    ensures
        r.0 <= r.1 <= b@.len(),
        b@.subrange(r.0 as int, r.1 as int) == spec_strip_0x(spec_trim(b@)),
{
    let mut i: usize = 0;
    let mut j: usize = b.len();
    proof {
        assert(b@.subrange(0, b@.len() as int) =~= b@);
    }
    while i < j && (b[i] == 32 || b[i] == 9 || b[i] == 10 || b[i] == 11 || b[i] == 12 || b[i] == 13)
        invariant
            0 <= i <= j <= b@.len(),
            spec_trim(b@) == spec_trim(b@.subrange(i as int, j as int)),
        decreases j - i,
    {
        proof {
            assert(b@.subrange(i as int, j as int).drop_first() =~= b@.subrange(i + 1, j as int));
        }
        i = i + 1;
    }
    while i < j && (b[j - 1] == 32 || b[j - 1] == 9 || b[j - 1] == 10 || b[j - 1] == 11 || b[j - 1]
        == 12 || b[j - 1] == 13)
        invariant
            0 <= i <= j <= b@.len(),
            spec_trim(b@) == spec_trim(b@.subrange(i as int, j as int)),
            i < j ==> !is_ascii_space(b@[i as int]),
        decreases j - i,
    {
        proof {
            assert(b@.subrange(i as int, j as int).drop_last() =~= b@.subrange(i as int, j - 1));
        }
        j = j - 1;
    }
    proof {
        assert(spec_trim(b@.subrange(i as int, j as int)) == b@.subrange(i as int, j as int));
    }
    while j - i >= 2 && b[i] == 48 && b[i + 1] == 120
        invariant
            0 <= i <= j <= b@.len(),
            spec_strip_0x(spec_trim(b@)) == spec_strip_0x(b@.subrange(i as int, j as int)),
        decreases j - i,
    {
        proof {
            assert(b@.subrange(i as int, j as int).skip(2) =~= b@.subrange(i + 2, j as int));
        }
        i = i + 2;
    }
    (i, j)
}

/// The index of the first occurrence of `c` in `s`, or `s.len()` if there is none.
pub open spec fn find_byte(s: Seq<u8>, c: u8) -> int
    decreases s.len(),
{
    if s.len() == 0 {
        0
    } else if s[0] == c {
        0
    } else {
        1 + find_byte(s.drop_first(), c)
    }
}

proof fn lemma_find_byte_pin(s: Seq<u8>, c: u8, i: int)
    requires
        0 <= i <= s.len(),
        forall|j: int| 0 <= j < i ==> s[j] != c,
        i < s.len() ==> s[i] == c,
    ensures
        find_byte(s, c) == i,
    decreases s.len(),
{
    if s.len() > 0 && s[0] != c {
        lemma_find_byte_pin(s.drop_first(), c, i - 1);
    }
}

/// Finds the first occurrence of `c` in `b`, handing back `b.len()` when there
/// is none.
pub fn find_byte_in(b: &[u8], c: u8) -> (i: usize)
    ensures
        i as int == find_byte(b@, c),
        i <= b@.len(),
        i < b@.len() ==> b@[i as int] == c,
        forall|j: int| 0 <= j < i ==> b@[j] != c,
{
    let mut k: usize = 0;
    while k < b.len()
        invariant
            0 <= k <= b@.len(),
            forall|j: int| 0 <= j < k ==> b@[j] != c,
        decreases b@.len() - k,
    {
        if b[k] == c {
            proof {
                lemma_find_byte_pin(b@, c, k as int);
            }
            return k;
        }
        k = k + 1;
    }
    proof {
        lemma_find_byte_pin(b@, c, k as int);
    }
    k
}

} // verus!


