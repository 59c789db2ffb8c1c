//! The Power Management capability: the one capability this crate decodes
//! into typed fields, from the two-byte capabilities word at offset 2 of the
//! capability structure.

use vstd::prelude::*;
use vstd::string::StringExecFns;

use core::ops::Range;

use crate::access::Access;
use crate::caps::binary_parser::BinaryParser;
use crate::caps::Capability;
use crate::error::Result;
use crate::text::{dec_string, spec_dec};

verus! {

/// The name of a flag followed by `+` when it is set and `-` when it is not.
pub open spec fn spec_flag(name: Seq<char>, set: bool) -> Seq<char> {
    name + if set {
        seq!['+']
    } else {
        seq!['-']
    }
}

fn flag_text(name: &str, set: bool) -> (s: String)
    ensures
        s@ == spec_flag(name@, set),
{
    let s = String::from_str(name).concat(if set { "+" } else { "-" });
    proof {
        reveal_strlit("+");
        reveal_strlit("-");
        assert(s@ =~= spec_flag(name@, set));
    }
    s
}

/// The auxiliary current the three-bit encoding stands for, in milliamperes.
pub open spec fn spec_aux_ma(current: u8) -> nat {
    if current == 1 {
        55
    } else if current == 2 {
        100
    } else if current == 3 {
        160
    } else if current == 4 {
        220
    } else if current == 5 {
        270
    } else if current == 6 {
        320
    } else if current == 7 {
        375
    } else {
        0
    }
}

/// The three-bit auxiliary current draw encoding of the capabilities word.
#[derive(Debug, PartialEq, Eq, Structural)]
pub struct AuxCurrent {
    pub current: u8,
}

impl AuxCurrent {
    pub fn new(current: u8) -> (r: AuxCurrent)
        ensures
            r.current == current,
    {
        AuxCurrent { current }
    }

    /// Renders the encoded current in milliamperes.
    pub fn aux_string(&self) -> (s: String)
        ensures
            s@ == "AuxCurrent="@ + spec_dec(spec_aux_ma(self.current)) + "mA"@,
    {
        let ma: u64 = if self.current == 1 {
            55
        } else if self.current == 2 {
            100
        } else if self.current == 3 {
            160
        } else if self.current == 4 {
            220
        } else if self.current == 5 {
            270
        } else if self.current == 6 {
            320
        } else if self.current == 7 {
            375
        } else {
            0
        };
        let mut s = String::from_str("AuxCurrent=");
        s.append(dec_string(ma).as_str());
        s.append("mA");
        proof {
            reveal_strlit("AuxCurrent=");
            reveal_strlit("mA");
            assert(s@ =~= "AuxCurrent="@ + spec_dec(spec_aux_ma(self.current)) + "mA"@);
        }
        s
    }
}

/// The power states a function can signal a power management event from, as
/// the five-bit PME-support field of the capabilities word encodes them.
#[derive(Debug, PartialEq, Eq, Structural)]
pub struct PmeSupport {
    pub d0: bool,
    pub d1: bool,
    pub d2: bool,
    pub d3_hot: bool,
    pub d3_cold: bool,
}

/// The PME-support flags a five-bit field decodes to, lowest bit first.
pub open spec fn spec_pme_support(states: u8) -> PmeSupport {
    PmeSupport {
        d0: states & 0b00001 != 0,
        d1: states & 0b00010 != 0,
        d2: states & 0b00100 != 0,
        d3_hot: states & 0b01000 != 0,
        d3_cold: states & 0b10000 != 0,
    }
}

/// The rendered PME-support flags.
pub open spec fn spec_pme_string(p: PmeSupport) -> Seq<char> {
    "PME("@ + spec_flag("D0"@, p.d0) + ","@ + spec_flag("D1"@, p.d1) + ","@ + spec_flag(
        "D2"@,
        p.d2,
    ) + ","@ + spec_flag("D3hot"@, p.d3_hot) + ","@ + spec_flag("D3cold"@, p.d3_cold) + ")"@
}

impl PmeSupport {
    pub fn new(states: u8) -> (r: PmeSupport)
        ensures
            r == spec_pme_support(states),
    {
        PmeSupport {
            d0: states & 0b00001 != 0,
            d1: states & 0b00010 != 0,
            d2: states & 0b00100 != 0,
            d3_hot: states & 0b01000 != 0,
            d3_cold: states & 0b10000 != 0,
        }
    }

    /// Renders the supported states.
    pub fn pme_string(&self) -> (s: String)
        ensures
            s@ == spec_pme_string(*self),
    {
        let mut s = String::from_str("PME(");
        s.append(flag_text("D0", self.d0).as_str());
        s.append(",");
        s.append(flag_text("D1", self.d1).as_str());
        s.append(",");
        s.append(flag_text("D2", self.d2).as_str());
        s.append(",");
        s.append(flag_text("D3hot", self.d3_hot).as_str());
        s.append(",");
        s.append(flag_text("D3cold", self.d3_cold).as_str());
        s.append(")");
        proof {
            reveal_strlit("PME(");
            reveal_strlit(",");
            reveal_strlit(")");
            assert(s@ =~= spec_pme_string(*self));
        }
        s
    }
}

/// A decoded Power Management capability.
#[derive(Debug, PartialEq, Eq, Structural)]
pub struct PowerManagementCapability {
    pub offset: u8,
    pub version: u8,
    pub pme_clock: bool,
    pub immediate_readiness_on_return_to_d0: bool,
    pub driver_specific_initialization: bool,
    pub aux_current: AuxCurrent,
    pub d1_support: bool,
    pub d2_support: bool,
    pub pme_support: PmeSupport,
}

/// The decoded form of the two-byte capabilities word: version in bits 2:0,
/// PME clock in bit 3, immediate readiness in bit 4, driver-specific
/// initialization in bit 5, auxiliary current in bits 8:6, D1 and D2 support
/// in bits 9 and 10, PME support in bits 15:11.
pub open spec fn spec_parse_pm(offset: u8, word: u16) -> PowerManagementCapability {
    PowerManagementCapability {
        offset,
        version: (word & 0b111) as u8,
        pme_clock: word & 0x0008 != 0,
        immediate_readiness_on_return_to_d0: word & 0x0010 != 0,
        driver_specific_initialization: word & 0x0020 != 0,
        aux_current: AuxCurrent { current: ((word >> 6) & 0b111) as u8 },
        d1_support: word & 0x0200 != 0,
        d2_support: word & 0x0400 != 0,
        pme_support: spec_pme_support(((word >> 11) & 0x1F) as u8),
    }
}

/// The rendered capability: its version, and at verbosity 2 and above its
/// decoded flags on an indented line of their own.
pub open spec fn spec_pm_string(c: PowerManagementCapability, verbosity: u8) -> Seq<char> {
    "Power Management version "@ + spec_dec(c.version as nat) + if verbosity >= 2 {
        "\n\t\tFlags: "@ + spec_flag("PMEClk"@, c.pme_clock) + " "@ + spec_flag(
            "DSI"@,
            c.driver_specific_initialization,
        ) + " "@ + spec_flag("D1"@, c.d1_support) + " "@ + spec_flag("D2"@, c.d2_support) + " "@
            + "AuxCurrent="@ + spec_dec(spec_aux_ma(c.aux_current.current)) + "mA"@ + " "@
            + spec_pme_string(c.pme_support)
    } else {
        Seq::<char>::empty()
    }
}

impl PowerManagementCapability {
    /// Reads the two-byte capabilities word of the capability at `offset` and
    /// decodes its fields.
    pub fn new<A: Access>(access: &A, offset: u8) -> (r: Result<PowerManagementCapability>)
        ensures
            r is Ok ==> r->Ok_0.offset == offset,
    {
        let raw = access.read(offset as u64 + 2, 2)?;
        let word = BinaryParser::le16(raw.as_slice(), Range { start: 0, end: 2 })?;
        Ok(Self::parse(offset, word))
    }

    /// Decodes the capabilities word into its bit fields.
    pub fn parse(offset: u8, word: u16) -> (r: PowerManagementCapability)
        ensures
            r == spec_parse_pm(offset, word),
    {
        PowerManagementCapability {
            offset,
            version: (word & 0b111) as u8,
            pme_clock: word & 0x0008 != 0,
            immediate_readiness_on_return_to_d0: word & 0x0010 != 0,
            driver_specific_initialization: word & 0x0020 != 0,
            aux_current: AuxCurrent::new(((word >> 6) & 0b111) as u8),
            d1_support: word & 0x0200 != 0,
            d2_support: word & 0x0400 != 0,
            pme_support: PmeSupport::new(((word >> 11) & 0x1F) as u8),
        }
    }
}

impl Capability for PowerManagementCapability {
    open spec fn offset_spec(&self) -> u64 {
        self.offset as u64
    }

    /// Renders the capability's version, and its flags at verbosity 2 and above.
    fn cap_string(&self, verbosity: u8) -> (r: Result<String>)
        ensures
            r is Ok,
            r->Ok_0@ == spec_pm_string(*self, verbosity),
    {
        let mut text = String::from_str("Power Management version ");
        text.append(dec_string(self.version as u64).as_str());
        if verbosity >= 2 {
            text.append("\n\t\tFlags: ");
            text.append(flag_text("PMEClk", self.pme_clock).as_str());
            text.append(" ");
            text.append(flag_text("DSI", self.driver_specific_initialization).as_str());
            text.append(" ");
            text.append(flag_text("D1", self.d1_support).as_str());
            text.append(" ");
            text.append(flag_text("D2", self.d2_support).as_str());
            text.append(" ");
            text.append(self.aux_current.aux_string().as_str());
            text.append(" ");
            text.append(self.pme_support.pme_string().as_str());
        }
        proof {
            reveal_strlit("Power Management version ");
            reveal_strlit("\n\t\tFlags: ");
            reveal_strlit(" ");
            assert(text@ =~= spec_pm_string(*self, verbosity));
        }
        Ok(text)
    }

    fn offset(&self) -> (r: Result<u64>)
        ensures
            r == Result::<u64>::Ok(self.offset_spec()),
    {
        Ok(self.offset as u64)
    }
}

} // verus!
