//! Base Address Register decoding: scanning the BAR words of a header into
//! typed memory and I/O descriptors.

use vstd::prelude::*;
use vstd::string::StringExecFns;

use core::ops::Range;

use crate::caps::binary_parser::{spec_le32_at, BinaryParser};
use crate::error::{Error, ErrorKind, Result};
use crate::text::{hex_string, spec_hex};

verus! {

/// A memory BAR: its decoded base address and whether it is prefetchable.
#[derive(Debug, PartialEq, Eq, Structural)]
pub struct MemBAR<T> {
    pub address: T,
    pub prefechable: bool,
}

/// An I/O-port BAR: its decoded base address.
#[derive(Debug, PartialEq, Eq, Structural)]
pub struct IoBAR {
    pub address: u32,
}

#[derive(Debug, PartialEq, Eq, Structural)]
pub enum BAR {
    MemBAR32(MemBAR<u32>),
    MemBAR64(MemBAR<u64>),
    IoBAR(IoBAR),
}

/// Bit 0 of a BAR word selects I/O space.
pub open spec fn spec_is_io_bar(word: u32) -> bool {
    word & 0b1 == 0b1
}

/// Bits 2:1 of a memory BAR word equal to zero select 32-bit addressing.
pub open spec fn spec_is_32bit_mem_bar(word: u32) -> bool {
    word & 0b110 == 0b000
}

/// The I/O BAR a word decodes to: the low two bits are masked off.
pub open spec fn spec_io_bar(word: u32) -> BAR {
    BAR::IoBAR(IoBAR { address: word & 0xFFFF_FFFC })
}

/// The 32-bit memory BAR a word decodes to: the low four bits are masked off
/// and bit 3 carries prefetchability.
pub open spec fn spec_mem_32bit_bar(word: u32) -> BAR {
    BAR::MemBAR32(MemBAR { address: word & 0xFFFF_FFF0, prefechable: word & 0b1000 == 0b1000 })
}

/// The 64-bit memory BAR a pair of words decodes to: the second word holds the
/// high half of the address, the first word's low four bits are masked off and
/// its bit 3 carries prefetchability.
pub open spec fn spec_mem_64bit_bar(word0: u32, word1: u32) -> BAR {
    BAR::MemBAR64(
        MemBAR {
            address: (word1 as u64) << 32 | ((word0 & 0xFFFF_FFF0) as u64),
            prefechable: word0 & 0b1000 == 0b1000,
        },
    )
}

/// The 32-bit little-endian words of a BAR region, in register order.
pub open spec fn spec_bar_words(b: Seq<u8>) -> Seq<u32> {
    Seq::new(b.len() / 4, |i: int| spec_le32_at(b, 4 * i))
}

/// Whether a run of BAR words encodes a complete list: every word that starts
/// a 64-bit memory BAR must be followed by its high-half word.
pub open spec fn spec_bars_wf(words: Seq<u32>) -> bool
    decreases words.len(),
{
    if words.len() == 0 {
        true
    } else if spec_is_io_bar(words[0]) || spec_is_32bit_mem_bar(words[0]) {
        spec_bars_wf(words.skip(1))
    } else {
        words.len() >= 2 && spec_bars_wf(words.skip(2))
    }
}

/// The BAR list a complete run of words decodes to, in register order.
pub open spec fn spec_bars(words: Seq<u32>) -> Seq<BAR>
    recommends
        spec_bars_wf(words),
    decreases words.len(),
{
    if words.len() == 0 {
        Seq::empty()
    } else if spec_is_io_bar(words[0]) {
        seq![spec_io_bar(words[0])] + spec_bars(words.skip(1))
    } else if spec_is_32bit_mem_bar(words[0]) {
        seq![spec_mem_32bit_bar(words[0])] + spec_bars(words.skip(1))
    } else if words.len() >= 2 {
        seq![spec_mem_64bit_bar(words[0], words[1])] + spec_bars(words.skip(2))
    } else {
        Seq::empty()
    }
}

/// Whether a decoded BAR holds a nonzero address; an all-zero address means
/// the BAR is unassigned, a normal state and not an error.
pub open spec fn spec_is_allocated(b: BAR) -> bool {
    match b {
        BAR::IoBAR(b) => b.address != 0,
        BAR::MemBAR32(b) => b.address != 0,
        BAR::MemBAR64(b) => b.address != 0,
    }
}

/// How many bytes of the BAR region one decoded BAR consumed.
pub open spec fn spec_bar_size(b: BAR) -> nat {
    match b {
        BAR::MemBAR64(_) => 8,
        _ => 4,
    }
}

/// The total number of BAR-region bytes a decoded list accounts for.
pub open spec fn spec_bars_bytes(bars: Seq<BAR>) -> nat
    decreases bars.len(),
{
    if bars.len() == 0 {
        0
    } else {
        spec_bar_size(bars.first()) + spec_bars_bytes(bars.drop_first())
    }
}

/// Decoding is a partition of its input: the sizes of the BARs decoded from a
/// complete run of words add up to exactly the number of bytes scanned, four
/// per word.
pub proof fn lemma_bar_decode_round_trip(words: Seq<u32>)
    requires
        spec_bars_wf(words),
    ensures
        spec_bars_bytes(spec_bars(words)) == 4 * words.len(),
    decreases words.len(),
{
    if words.len() == 0 {
    } else if spec_is_io_bar(words[0]) {
        lemma_bar_decode_round_trip(words.skip(1));
        assert((seq![spec_io_bar(words[0])] + spec_bars(words.skip(1))).drop_first() =~= spec_bars(
            words.skip(1),
        ));
    } else if spec_is_32bit_mem_bar(words[0]) {
        lemma_bar_decode_round_trip(words.skip(1));
        assert((seq![spec_mem_32bit_bar(words[0])] + spec_bars(words.skip(1))).drop_first()
            =~= spec_bars(words.skip(1)));
    } else {
        lemma_bar_decode_round_trip(words.skip(2));
        assert((seq![spec_mem_64bit_bar(words[0], words[1])] + spec_bars(words.skip(2))).drop_first()
            =~= spec_bars(words.skip(2)));
    }
}

/// The rendered form of a decoded BAR.
pub open spec fn spec_bar_string(b: BAR) -> Seq<char> {
    match b {
        BAR::IoBAR(b) => "I/O ports at "@ + spec_hex(b.address as nat, 4),
        BAR::MemBAR32(b) => "Memory at "@ + spec_hex(b.address as nat, 8) + " (32-bit, "@ + (if b.prefechable {
            Seq::<char>::empty()
        } else {
            "non-"@
        }) + "prefetchable)"@,
        BAR::MemBAR64(b) => "Memory at "@ + spec_hex(b.address as nat, 8) + " (64-bit, "@ + (if b.prefechable {
            Seq::<char>::empty()
        } else {
            "non-"@
        }) + "prefetchable)"@,
    }
}

impl BAR {
    fn is_io_bar(word: u32) -> (r: bool)
        ensures
            r == spec_is_io_bar(word),
    {
        word & 0b1 == 0b1
    }

    fn is_32bit_mem_bar(word: u32) -> (r: bool)
        ensures
            r == spec_is_32bit_mem_bar(word),
    {
        word & 0b110 == 0b000
    }

    fn io_bar(word: u32) -> (r: BAR)
        ensures
            r == spec_io_bar(word),
    {
        BAR::IoBAR(IoBAR { address: word & 0xFFFF_FFFC })
    }

    fn mem_32bit_bar(word: u32) -> (r: BAR)
        ensures
            r == spec_mem_32bit_bar(word),
    {
        BAR::MemBAR32(MemBAR { address: word & 0xFFFF_FFF0, prefechable: word & 0b1000 == 0b1000 })
    }

    fn mem_64bit_bar(word0: u32, word1: u32) -> (r: BAR)
        ensures
            r == spec_mem_64bit_bar(word0, word1),
    {
        BAR::MemBAR64(
            MemBAR {
                address: (word1 as u64) << 32 | ((word0 & 0xFFFF_FFF0) as u64),
                prefechable: word0 & 0b1000 == 0b1000,
            },
        )
    }

    /// Decodes a BAR region, scanning its words left to right and consuming
    /// two words for each 64-bit memory BAR. A region whose length is not a
    /// whole number of words, or that ends in the middle of a 64-bit pair,
    /// is rejected with a bounds error.
    pub fn new(b: &[u8]) -> (r: Result<Vec<BAR>>)
        ensures
            r is Ok <==> b@.len() % 4 == 0 && spec_bars_wf(spec_bar_words(b@)),
            r is Ok ==> r->Ok_0@ == spec_bars(spec_bar_words(b@)),
            r is Err ==> r->Err_0.error_kind == ErrorKind::SliceParseError,
    {
        let ghost words = spec_bar_words(b@);
        if b.len() % 4 != 0 {
            return Err(Error::slice_parse_error(b, &Range { start: 0, end: b.len() }));
        }
        let mut offset: usize = 0;
        let mut bars: Vec<BAR> = Vec::new();
        proof {
            assert(words.skip(0) =~= words);
            assert(bars@ + spec_bars(words) =~= spec_bars(words));
        }
        while offset < b.len()
            invariant
                0 <= offset <= b@.len(),
                offset % 4 == 0,
                b@.len() % 4 == 0,
                words == spec_bar_words(b@),
                spec_bars_wf(words) <==> spec_bars_wf(words.skip(offset as int / 4)),
                spec_bars_wf(words) ==> spec_bars(words) == bars@ + spec_bars(
                    words.skip(offset as int / 4),
                ),
            decreases b@.len() - offset,
        {
            let ghost k = offset as int / 4;
            proof {
                assert(offset + 4 <= b@.len()) by (nonlinear_arith)
                    requires
                        offset % 4 == 0,
                        b@.len() % 4 == 0,
                        offset < b@.len(),
                ;
                assert(4 * k == offset);
                assert(k < words.len()) by (nonlinear_arith)
                    requires
                        words.len() == b@.len() / 4,
                        4 * k == offset,
                        offset + 4 <= b@.len(),
                        0 <= k,
                ;
            }
            let word = match BinaryParser::le32(b, Range { start: offset, end: offset + 4 }) {
                Ok(w) => w,
                Err(e) => {
                    proof {
                        assert(false);
                    }
                    return Err(e);
                },
            };
            proof {
                assert(words[k] == word);
                assert(words.skip(k)[0] == words[k]);
            }
            if Self::is_io_bar(word) {
                bars.push(Self::io_bar(word));
                offset = offset + 4;
                proof {
                    assert(words.skip(k).skip(1) =~= words.skip(k + 1));
                    assert(spec_bars_wf(words) ==> bars@ + spec_bars(words.skip(k + 1))
                        =~= spec_bars(words));
                }
            } else if Self::is_32bit_mem_bar(word) {
                bars.push(Self::mem_32bit_bar(word));
                offset = offset + 4;
                proof {
                    assert(words.skip(k).skip(1) =~= words.skip(k + 1));
                    assert(spec_bars_wf(words) ==> bars@ + spec_bars(words.skip(k + 1))
                        =~= spec_bars(words));
                }
            } else {
                let offset2 = offset + 4;
                if b.len() - offset2 < 4 {
                    proof {
                        assert(offset2 == b@.len()) by (nonlinear_arith)
                            requires
                                offset2 % 4 == 0,
                                b@.len() % 4 == 0,
                                offset2 <= b@.len(),
                                b@.len() - offset2 < 4,
                        ;
                        assert(words.skip(k).len() == 1) by (nonlinear_arith)
                            requires
                                words.len() == b@.len() / 4,
                                b@.len() % 4 == 0,
                                4 * k == offset,
                                offset + 4 == b@.len(),
                                0 <= k,
                        ;
                    }
                    return Err(Error::slice_parse_error(b, &Range { start: offset2, end: b.len() }));
                }
                proof {
                    assert(k + 1 < words.len()) by (nonlinear_arith)
                        requires
                            words.len() == b@.len() / 4,
                            4 * k == offset,
                            offset + 8 <= b@.len(),
                            0 <= k,
                    ;
                }
                let next_word = match BinaryParser::le32(
                    b,
                    Range { start: offset2, end: offset2 + 4 },
                ) {
                    Ok(w) => w,
                    Err(e) => {
                        proof {
                            assert(false);
                        }
                        return Err(e);
                    },
                };
                proof {
                    assert(words[k + 1] == next_word);
                    assert(words.skip(k)[1] == words[k + 1]);
                }
                bars.push(Self::mem_64bit_bar(word, next_word));
                offset = offset + 8;
                proof {
                    assert(words.skip(k).skip(2) =~= words.skip(k + 2));
                    assert(spec_bars_wf(words) ==> bars@ + spec_bars(words.skip(k + 2))
                        =~= spec_bars(words));
                }
            }
        }
        proof {
            assert(words.skip(offset as int / 4) =~= Seq::<u32>::empty());
            assert(bars@ + Seq::<BAR>::empty() =~= bars@);
        }
        Ok(bars)
    }

    /// Whether this BAR holds a nonzero address.
    pub fn is_allocated(&self) -> (r: bool)
        ensures
            r == spec_is_allocated(*self),
    {
        match self {
            BAR::IoBAR(b) => b.address != 0,
            BAR::MemBAR32(b) => b.address != 0,
            BAR::MemBAR64(b) => b.address != 0,
        }
    }

    /// Renders the BAR; the verbosity argument is accepted for uniformity and
    /// does not change the text.
    pub fn to_string(&self, _verbosity: u8) -> (s: String)
        ensures
            s@ == spec_bar_string(*self),
    {
        proof {
            reveal_strlit("I/O ports at ");
            reveal_strlit("Memory at ");
            reveal_strlit(" (32-bit, ");
            reveal_strlit(" (64-bit, ");
            reveal_strlit("non-");
            reveal_strlit("prefetchable)");
            reveal_strlit("");
        }
        match self {
            BAR::IoBAR(b) => {
                let mut s = String::from_str("I/O ports at ");
                s.append(hex_string(b.address as u64, 4).as_str());
                proof {
                    assert(s@ =~= spec_bar_string(*self));
                }
                s
            },
            BAR::MemBAR32(b) => {
                let mut s = String::from_str("Memory at ");
                s.append(hex_string(b.address as u64, 8).as_str());
                s.append(" (32-bit, ");
                s.append(if b.prefechable { "" } else { "non-" });
                s.append("prefetchable)");
                proof {
                    assert(s@ =~= spec_bar_string(*self));
                }
                s
            },
            BAR::MemBAR64(b) => {
                let mut s = String::from_str("Memory at ");
                s.append(hex_string(b.address, 8).as_str());
                s.append(" (64-bit, ");
                s.append(if b.prefechable { "" } else { "non-" });
                s.append("prefetchable)");
                proof {
                    assert(s@ =~= spec_bar_string(*self));
                }
                s
            },
        }
    }
}

} // verus!
