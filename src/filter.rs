use vstd::prelude::*;

verus! {

/// Kind of a standard (11-bit) identifier filter element.
#[derive(Clone, Copy, Debug, PartialEq, Eq, Structural)]
pub enum StandardFilterType {
    /// Range from the first to the second identifier.
    Range,
    /// Either of the two identifiers.
    DualID,
    /// First identifier as filter, second as mask.
    Classic,
    /// Element disabled.
    Disabled,
}

impl StandardFilterType {
    /// Two-bit hardware code.
    pub open spec fn code(self) -> u8 {
        match self {
            StandardFilterType::Range => 0,
            StandardFilterType::DualID => 1,
            StandardFilterType::Classic => 2,
            StandardFilterType::Disabled => 3,
        }
    }

    /// Two-bit hardware code.
    pub fn into_bits(self) -> (r: u8)
        ensures
            r == self.code(),
    {
        match self {
            StandardFilterType::Range => 0b00,
            StandardFilterType::DualID => 0b01,
            StandardFilterType::Classic => 0b10,
            StandardFilterType::Disabled => 0b11,
        }
    }

    /// The kind with a two-bit hardware code.
    pub fn from_bits(value: u8) -> (r: StandardFilterType)
        requires
            value < 4,
        ensures
            r.code() == value,
    {
        match value {
            0b00 => StandardFilterType::Range,
            0b01 => StandardFilterType::DualID,
            0b10 => StandardFilterType::Classic,
            _ => StandardFilterType::Disabled,
        }
    }
}

/// What a matching standard filter element does.
#[derive(Clone, Copy, Debug, PartialEq, Eq, Structural)]
pub enum StandardFilterConfiguration {
    Disable,
    StoreInFIFO0,
    StoreInFIFO1,
    Reject,
    SetPriority,
    SetPriorityAndStoreInFIFO0,
    SetPriorityAndStoreInFIFO1,
    StoreAsDebugMessage,
}

impl StandardFilterConfiguration {
    /// Three-bit hardware code.
    pub open spec fn code(self) -> u8 {
        match self {
            StandardFilterConfiguration::Disable => 0,
            StandardFilterConfiguration::StoreInFIFO0 => 1,
            StandardFilterConfiguration::StoreInFIFO1 => 2,
            StandardFilterConfiguration::Reject => 3,
            StandardFilterConfiguration::SetPriority => 4,
            StandardFilterConfiguration::SetPriorityAndStoreInFIFO0 => 5,
            StandardFilterConfiguration::SetPriorityAndStoreInFIFO1 => 6,
            StandardFilterConfiguration::StoreAsDebugMessage => 7,
        }
    }

    /// Three-bit hardware code.
    pub fn into_bits(self) -> (r: u8)
        ensures
            r == self.code(),
    {
        match self {
            StandardFilterConfiguration::Disable => 0b000,
            StandardFilterConfiguration::StoreInFIFO0 => 0b001,
            StandardFilterConfiguration::StoreInFIFO1 => 0b010,
            StandardFilterConfiguration::Reject => 0b011,
            StandardFilterConfiguration::SetPriority => 0b100,
            StandardFilterConfiguration::SetPriorityAndStoreInFIFO0 => 0b101,
            StandardFilterConfiguration::SetPriorityAndStoreInFIFO1 => 0b110,
            StandardFilterConfiguration::StoreAsDebugMessage => 0b111,
        }
    }

    /// The action with a three-bit hardware code.
    pub fn from_bits(value: u8) -> (r: StandardFilterConfiguration)
        requires
            value < 8,
        ensures
            r.code() == value,
    {
        match value {
            0b000 => StandardFilterConfiguration::Disable,
            0b001 => StandardFilterConfiguration::StoreInFIFO0,
            0b010 => StandardFilterConfiguration::StoreInFIFO1,
            0b011 => StandardFilterConfiguration::Reject,
            0b100 => StandardFilterConfiguration::SetPriority,
            0b101 => StandardFilterConfiguration::SetPriorityAndStoreInFIFO0,
            0b110 => StandardFilterConfiguration::SetPriorityAndStoreInFIFO1,
            _ => StandardFilterConfiguration::StoreAsDebugMessage,
        }
    }
}

/// A standard identifier filter element, one word of the 11-bit filter
/// region.
#[derive(Clone, Copy, Debug, PartialEq, Eq, Structural)]
pub struct StandardFilterElement {
    /// Kind of filter, bits 31 and 30.
    pub sft: StandardFilterType,
    /// Action on a match, bits 29 to 27.
    pub sfec: StandardFilterConfiguration,
    /// First identifier, bits 26 to 16.
    pub sfid1: u16,
    /// Synchronization message, bit 15.
    pub ssync: bool,
    /// Second identifier, bits 10 to 0.
    pub sfid2: u16,
}

impl StandardFilterElement {
    /// Both identifiers fit in 11 bits.
    pub open spec fn wf(self) -> bool {
        self.sfid1 <= 0x7FF && self.sfid2 <= 0x7FF
    }

    /// The element's word.
    pub open spec fn word(self) -> int {
        self.sft.code() * 0x4000_0000 + self.sfec.code() * 0x800_0000 + self.sfid1 * 0x1_0000 + (if self.ssync {
            0x8000int
        } else {
            0
        }) + self.sfid2
    }

    /// The element's word.
    pub fn into_bits(self) -> (r: u32)
        requires
            self.wf(),
        ensures
            r as int == self.word(),
    {
        let sync: u32 = if self.ssync { 0x8000 } else { 0 };
        (self.sft.into_bits() as u32) * 0x4000_0000 + (self.sfec.into_bits() as u32) * 0x800_0000
            + (self.sfid1 as u32) * 0x1_0000 + sync + self.sfid2 as u32
    }

    /// The element a word holds; the reserved bits 14 to 11 are ignored.
    pub fn from_bits(w: u32) -> (r: StandardFilterElement)
        ensures
            r.wf(),
            r.sft.code() == w / 0x4000_0000,
            r.sfec.code() == (w / 0x800_0000) % 8,
            r.sfid1 == (w / 0x1_0000) % 0x800,
            r.ssync == ((w / 0x8000) % 2 == 1),
            r.sfid2 == w % 0x800,
    {
        StandardFilterElement {
            sft: StandardFilterType::from_bits((w / 0x4000_0000) as u8),
            sfec: StandardFilterConfiguration::from_bits(((w / 0x800_0000) % 8) as u8),
            sfid1: ((w / 0x1_0000) % 0x800) as u16,
            ssync: (w / 0x8000) % 2 == 1,
            sfid2: (w % 0x800) as u16,
        }
    }
}

/// Encoding a well-formed filter element and decoding the word gives the
/// element back.
pub proof fn lemma_filter_element_round_trip(e: StandardFilterElement)
    requires
        e.wf(),
    ensures
        e.word() / 0x4000_0000 == e.sft.code(),
        (e.word() / 0x800_0000) % 8 == e.sfec.code(),
        (e.word() / 0x1_0000) % 0x800 == e.sfid1,
        ((e.word() / 0x8000) % 2 == 1) == e.ssync,
        e.word() % 0x800 == e.sfid2,
{
    let a = e.sft.code() as int;
    let b = e.sfec.code() as int;
    let c = e.sfid1 as int;
    let s: int = if e.ssync { 1 } else { 0 };
    let d = e.sfid2 as int;
    assert(e.word() == a * 0x4000_0000 + b * 0x800_0000 + c * 0x1_0000 + s * 0x8000 + d);
    assert(0 <= a < 4 && 0 <= b < 8 && 0 <= c < 0x800 && 0 <= s < 2 && 0 <= d < 0x800);
    assert((a * 0x4000_0000 + b * 0x800_0000 + c * 0x1_0000 + s * 0x8000 + d) / 0x4000_0000 == a) by (nonlinear_arith)
        requires 0 <= a < 4, 0 <= b < 8, 0 <= c < 0x800, 0 <= s < 2, 0 <= d < 0x800;
    assert((a * 0x4000_0000 + b * 0x800_0000 + c * 0x1_0000 + s * 0x8000 + d) / 0x800_0000 % 8 == b) by (nonlinear_arith)
        requires 0 <= a < 4, 0 <= b < 8, 0 <= c < 0x800, 0 <= s < 2, 0 <= d < 0x800;
    assert((a * 0x4000_0000 + b * 0x800_0000 + c * 0x1_0000 + s * 0x8000 + d) / 0x1_0000 % 0x800 == c) by (nonlinear_arith)
        requires 0 <= a < 4, 0 <= b < 8, 0 <= c < 0x800, 0 <= s < 2, 0 <= d < 0x800;
    assert((a * 0x4000_0000 + b * 0x800_0000 + c * 0x1_0000 + s * 0x8000 + d) / 0x8000 % 2 == s) by (nonlinear_arith)
        requires 0 <= a < 4, 0 <= b < 8, 0 <= c < 0x800, 0 <= s < 2, 0 <= d < 0x800;
    assert((a * 0x4000_0000 + b * 0x800_0000 + c * 0x1_0000 + s * 0x8000 + d) % 0x800 == d) by (nonlinear_arith)
        requires 0 <= a < 4, 0 <= b < 8, 0 <= c < 0x800, 0 <= s < 2, 0 <= d < 0x800;
}

} // verus!
