//! The two Unicode character properties that decide grapheme cluster
//! boundaries, and the packed pair of them that is kept per character.

use vstd::prelude::*;

verus! {

/// The values of the **Grapheme_Cluster_Break** property.
///
/// `ExtendedPictographic` comes from the emoji data rather than from the
/// break property itself, but the segmentation rules treat it as one more
/// value that excludes all the others, so it is listed here with them.
#[derive(Debug, Clone, Copy, PartialEq, Eq, Structural)]
pub enum GCBProperty {
    /// None of the other values applies to the character.
    Other,
    CR,
    Control,
    Extend,
    ExtendedPictographic,
    L,
    LF,
    LV,
    LVT,
    Prepend,
    RegionalIndicator,
    SpacingMark,
    T,
    V,
    ZWJ,
}

/// The values of the **Indic_Conjunct_Break** property.
#[derive(Debug, Clone, Copy, PartialEq, Eq, Structural)]
pub enum InCBProperty {
    /// None of the other values applies to the character.
    Other,
    Consonant,
    Extend,
    Linker,
}

impl GCBProperty {
    /// The number that stands for this value in the low four bits of a
    /// packed [`CharProperties`].
    pub open spec fn code(self) -> u8 {
        match self {
            GCBProperty::Other => 0x00,
            GCBProperty::CR => 0x01,
            GCBProperty::Control => 0x02,
            GCBProperty::Extend => 0x03,
            GCBProperty::ExtendedPictographic => 0x04,
            GCBProperty::L => 0x05,
            GCBProperty::LF => 0x06,
            GCBProperty::LV => 0x07,
            GCBProperty::LVT => 0x08,
            GCBProperty::Prepend => 0x09,
            GCBProperty::RegionalIndicator => 0x0a,
            GCBProperty::SpacingMark => 0x0b,
            GCBProperty::T => 0x0c,
            GCBProperty::V => 0x0d,
            GCBProperty::ZWJ => 0x0e,
        }
    }

    /// The value that a low nibble stands for. Every nibble is given a
    /// value, so that unpacking needs no failure case; `0x0f` is not the
    /// code of any value and is never stored.
    pub open spec fn from_code(code: u8) -> GCBProperty {
        if code == 0x00 {
            GCBProperty::Other
        } else if code == 0x01 {
            GCBProperty::CR
        } else if code == 0x02 {
            GCBProperty::Control
        } else if code == 0x03 {
            GCBProperty::Extend
        } else if code == 0x04 {
            GCBProperty::ExtendedPictographic
        } else if code == 0x05 {
            GCBProperty::L
        } else if code == 0x06 {
            GCBProperty::LF
        } else if code == 0x07 {
            GCBProperty::LV
        } else if code == 0x08 {
            GCBProperty::LVT
        } else if code == 0x09 {
            GCBProperty::Prepend
        } else if code == 0x0a {
            GCBProperty::RegionalIndicator
        } else if code == 0x0b {
            GCBProperty::SpacingMark
        } else if code == 0x0c {
            GCBProperty::T
        } else if code == 0x0d {
            GCBProperty::V
        } else {
            GCBProperty::ZWJ
        }
    }

    fn to_code(self) -> (code: u8)
        ensures
            code == self.code(),
            code <= 0x0e,
            GCBProperty::from_code(code) == self,
    {
        match self {
            GCBProperty::Other => 0x00,
            GCBProperty::CR => 0x01,
            GCBProperty::Control => 0x02,
            GCBProperty::Extend => 0x03,
            GCBProperty::ExtendedPictographic => 0x04,
            GCBProperty::L => 0x05,
            GCBProperty::LF => 0x06,
            GCBProperty::LV => 0x07,
            GCBProperty::LVT => 0x08,
            GCBProperty::Prepend => 0x09,
            GCBProperty::RegionalIndicator => 0x0a,
            GCBProperty::SpacingMark => 0x0b,
            GCBProperty::T => 0x0c,
            GCBProperty::V => 0x0d,
            GCBProperty::ZWJ => 0x0e,
        }
    }

    fn of_code(code: u8) -> (gcb: GCBProperty)
        ensures
            gcb == GCBProperty::from_code(code),
    {
        match code {
            0x00 => GCBProperty::Other,
            0x01 => GCBProperty::CR,
            0x02 => GCBProperty::Control,
            0x03 => GCBProperty::Extend,
            0x04 => GCBProperty::ExtendedPictographic,
            0x05 => GCBProperty::L,
            0x06 => GCBProperty::LF,
            0x07 => GCBProperty::LV,
            0x08 => GCBProperty::LVT,
            0x09 => GCBProperty::Prepend,
            0x0a => GCBProperty::RegionalIndicator,
            0x0b => GCBProperty::SpacingMark,
            0x0c => GCBProperty::T,
            0x0d => GCBProperty::V,
            _ => GCBProperty::ZWJ,
        }
    }
}

impl InCBProperty {
    /// The number that stands for this value in bits four and five of a
    /// packed [`CharProperties`].
    pub open spec fn code(self) -> u8 {
        match self {
            InCBProperty::Other => 0x00,
            InCBProperty::Consonant => 0x10,
            InCBProperty::Extend => 0x20,
            InCBProperty::Linker => 0x30,
        }
    }

    /// The value that the two bits stand for.
    pub open spec fn from_code(code: u8) -> InCBProperty {
        if code == 0x00 {
            InCBProperty::Other
        } else if code == 0x10 {
            InCBProperty::Consonant
        } else if code == 0x20 {
            InCBProperty::Extend
        } else {
            InCBProperty::Linker
        }
    }

    fn to_code(self) -> (code: u8)
        ensures
            code == self.code(),
            code == 0x00 || code == 0x10 || code == 0x20 || code == 0x30,
            InCBProperty::from_code(code) == self,
    {
        match self {
            InCBProperty::Other => 0x00,
            InCBProperty::Consonant => 0x10,
            InCBProperty::Extend => 0x20,
            InCBProperty::Linker => 0x30,
        }
    }

    fn of_code(code: u8) -> (incb: InCBProperty)
        ensures
            incb == InCBProperty::from_code(code),
    {
        match code {
            0x00 => InCBProperty::Other,
            0x10 => InCBProperty::Consonant,
            0x20 => InCBProperty::Extend,
            _ => InCBProperty::Linker,
        }
    }
}

/// One value of each of the two properties, for one character.
///
/// The pair is packed into a single byte: the code of the
/// [`GCBProperty`] in the low nibble and the code of the [`InCBProperty`]
/// in the two bits above it. The two axes are independent: any
/// combination of values is a valid pair.
#[derive(Debug, Clone, Copy, PartialEq, Eq, Structural)]
pub struct CharProperties {
    raw: u8,
}

impl CharProperties {
    /// The byte holds the codes of two property values and nothing else.
    /// Every value that executable code can get hold of satisfies this.
    #[verifier::type_invariant]
    pub closed spec fn well_formed(self) -> bool {
        &&& self.raw & 0x0f <= 0x0e
        &&& self.raw & 0xc0 == 0
    }

    /// The Grapheme_Cluster_Break value of the pair.
    pub closed spec fn gcb(self) -> GCBProperty {
        GCBProperty::from_code(self.raw & 0x0f)
    }

    /// The Indic_Conjunct_Break value of the pair.
    pub closed spec fn incb(self) -> InCBProperty {
        InCBProperty::from_code(self.raw & 0x30)
    }

    /// Whether the pair belongs to a control character in the sense of the
    /// rules that break before and after controls: `CR`, `LF` or `Control`.
    pub open spec fn any_control(self) -> bool {
        self.gcb() == GCBProperty::CR || self.gcb() == GCBProperty::LF || self.gcb()
            == GCBProperty::Control
    }

    /// The pair of the two given values.
    pub closed spec fn pair(gcb: GCBProperty, incb: InCBProperty) -> CharProperties {
        CharProperties { raw: gcb.code() | incb.code() }
    }

    /// Returns the pair of the two given property values.
    pub fn new(gcb: GCBProperty, incb: InCBProperty) -> (props: Self)
        ensures
            props == CharProperties::pair(gcb, incb),
            props.gcb() == gcb,
            props.incb() == incb,
    {
        let g: u8 = gcb.to_code();
        let i: u8 = incb.to_code();
        proof {
            lemma_packed_byte(g, i);
        }
        CharProperties { raw: g | i }
    }

    /// Returns the pair of the given Grapheme_Cluster_Break value and no
    /// Indic_Conjunct_Break value.
    pub fn gcb_only(gcb: GCBProperty) -> (props: Self)
        ensures
            props == CharProperties::pair(gcb, InCBProperty::Other),
            props.gcb() == gcb,
            props.incb() == InCBProperty::Other,
    {
        CharProperties::new(gcb, InCBProperty::Other)
    }

    /// Returns the [`GCBProperty`] value of the pair.
    pub fn gcb_property(self) -> (gcb: GCBProperty)
        ensures
            gcb == self.gcb(),
    {
        GCBProperty::of_code(self.raw & 0x0f)
    }

    /// Returns the [`InCBProperty`] value of the pair.
    pub fn incb_property(self) -> (incb: InCBProperty)
        ensures
            incb == self.incb(),
    {
        InCBProperty::of_code(self.raw & 0x30)
    }

    /// Returns `true` if the pair belongs to a control character: if its
    /// [`GCBProperty`] is `LF`, `CR` or `Control`.
    pub fn is_any_control(self) -> (control: bool)
        ensures
            control == self.any_control(),
    {
        match self.gcb_property() {
            GCBProperty::LF | GCBProperty::CR | GCBProperty::Control => true,
            _ => false,
        }
    }

    /// Packing loses nothing: the pair of two values has those two values.
    pub proof fn lemma_pair_holds_both(gcb: GCBProperty, incb: InCBProperty)
        ensures
            CharProperties::pair(gcb, incb).well_formed(),
            CharProperties::pair(gcb, incb).gcb() == gcb,
            CharProperties::pair(gcb, incb).incb() == incb,
    {
        lemma_packed_byte(gcb.code(), incb.code());
    }

    /// Two well-formed pairs are equal exactly when they agree on both
    /// properties, so comparing the packed bytes compares the pairs.
    pub proof fn lemma_equal_by_properties(a: CharProperties, b: CharProperties)
        requires
            a.well_formed(),
            b.well_formed(),
        ensures
            a == b <==> (a.gcb() == b.gcb() && a.incb() == b.incb()),
    {
        lemma_byte_from_parts(a.raw);
        lemma_byte_from_parts(b.raw);
    }

    /// Every well-formed pair is the pair of its two properties.
    pub proof fn lemma_pair_of_properties(a: CharProperties)
        requires
            a.well_formed(),
        ensures
            a == CharProperties::pair(a.gcb(), a.incb()),
    {
        lemma_byte_from_parts(a.raw);
        assert(a.gcb().code() == a.raw & 0x0f);
        assert(a.incb().code() == a.raw & 0x30);
    }
}

/// The bit-level facts behind packing a nibble and two bits into one byte.
proof fn lemma_packed_byte(g: u8, i: u8)
    requires
        g <= 0x0e,
        i == 0x00 || i == 0x10 || i == 0x20 || i == 0x30,
    ensures
        (g | i) & 0x0f == g,
        (g | i) & 0x30 == i,
        (g | i) & 0xc0 == 0,
{
    assert((g | i) & 0x0f == g && (g | i) & 0x30 == i && (g | i) & 0xc0 == 0) by (bit_vector)
        requires
            g <= 0x0e,
            i == 0x00 || i == 0x10 || i == 0x20 || i == 0x30,
    ;
}

/// A byte with its two top bits clear is made of its low nibble and the
/// two bits above it.
proof fn lemma_byte_from_parts(raw: u8)
    requires
        raw & 0xc0 == 0,
    ensures
        raw == (raw & 0x0f) | (raw & 0x30),
        raw & 0x30 == 0x00 || raw & 0x30 == 0x10 || raw & 0x30 == 0x20 || raw & 0x30 == 0x30,
        raw & 0x0f <= 0x0f,
{
    assert(raw == (raw & 0x0f) | (raw & 0x30) && (raw & 0x30 == 0x00 || raw & 0x30 == 0x10 || raw
        & 0x30 == 0x20 || raw & 0x30 == 0x30) && raw & 0x0f <= 0x0f) by (bit_vector)
        requires
            raw & 0xc0 == 0,
    ;
}

} // verus!
