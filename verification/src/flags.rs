//! Bit sets attached to cells, styles and authorship records.
//!
//! Each set is a fixed-width group of independent bits. Sets are combined
//! bitwise and queried with `contains`; no combination is rejected here.

use vstd::prelude::*;

verus! {

/// Layout flags of one cell.
#[derive(Debug, Clone, Copy, PartialEq, Eq, Structural)]
pub struct CellFlags {
    /// The raw bits; bits without a name are carried along untouched.
    pub bits: u8,
}

impl CellFlags {
    /// The bits that carry a name.
    pub open spec fn known_bits() -> u8 {
        0b0001_1111
    }

    /// Whether every bit raised in `other` is also raised in `self`.
    pub open spec fn has(self, other: CellFlags) -> bool {
        self.bits & other.bits == other.bits
    }

    /// The first column of a double-width glyph.
    #[allow(non_snake_case)]
    pub fn WIDE_CHAR() -> (r: CellFlags)
        ensures
            r.bits == 0b0000_0001,
    {
        CellFlags { bits: 0b0000_0001 }
    }

    /// The filler second column of a double-width glyph.
    #[allow(non_snake_case)]
    pub fn SPACER_TAIL() -> (r: CellFlags)
        ensures
            r.bits == 0b0000_0010,
    {
        CellFlags { bits: 0b0000_0010 }
    }

    /// Marks a wide glyph that wrapped to start a new row.
    #[allow(non_snake_case)]
    pub fn SPACER_HEAD() -> (r: CellFlags)
        ensures
            r.bits == 0b0000_0100,
    {
        CellFlags { bits: 0b0000_0100 }
    }

    /// The row continues on the next row without a line break.
    #[allow(non_snake_case)]
    pub fn SOFT_WRAP() -> (r: CellFlags)
        ensures
            r.bits == 0b0000_1000,
    {
        CellFlags { bits: 0b0000_1000 }
    }

    /// The cell is write-protected.
    #[allow(non_snake_case)]
    pub fn PROTECTED() -> (r: CellFlags)
        ensures
            r.bits == 0b0001_0000,
    {
        CellFlags { bits: 0b0001_0000 }
    }

    /// The set with no bit raised.
    pub fn empty() -> (r: CellFlags)
        ensures
            r.bits == 0,
            forall|f: CellFlags| #[trigger] f.has(r),
    {
        assert forall|f: CellFlags| #[trigger] f.has(CellFlags { bits: 0 }) by {
            let b: u8 = f.bits;
            assert(b & 0 == 0) by (bit_vector);
        }
        CellFlags { bits: 0 }
    }

    /// The set with every named bit raised.
    pub fn all() -> (r: CellFlags)
        ensures
            r.bits == Self::known_bits(),
    {
        CellFlags { bits: 0b0001_1111 }
    }

    /// The raw bits.
    pub fn bits(&self) -> (r: u8)
        ensures
            r == self.bits,
    {
        self.bits
    }

    /// The set with exactly the given bits, if all of them carry a name.
    pub fn from_bits(bits: u8) -> (r: Option<CellFlags>)
        ensures
            r == if bits & !Self::known_bits() == 0 {
                Some(CellFlags { bits })
            } else {
                None
            },
    {
        if bits & !0b0001_1111 == 0 {
            Some(CellFlags { bits })
        } else {
            None
        }
    }

    /// The set with exactly the given bits, named or not.
    pub fn from_bits_retain(bits: u8) -> (r: CellFlags)
        ensures
            r.bits == bits,
    {
        CellFlags { bits }
    }

    /// Whether no bit is raised.
    pub fn is_empty(&self) -> (r: bool)
        ensures
            r == (self.bits == 0),
    {
        self.bits == 0
    }

    /// Whether every bit raised in `other` is also raised in `self`.
    pub fn contains(&self, other: CellFlags) -> (r: bool)
        ensures
            r == self.has(other),
    {
        self.bits & other.bits == other.bits
    }

    /// The bits raised in either set.
    pub fn union(self, other: CellFlags) -> (r: CellFlags)
        ensures
            r.bits == self.bits | other.bits,
            r.has(self),
            r.has(other),
    {
        let a: u8 = self.bits;
        let b: u8 = other.bits;
        assert((a | b) & a == a && (a | b) & b == b) by (bit_vector);
        CellFlags { bits: a | b }
    }

    /// Raises the bits of `other`, leaving the rest as they were.
    pub fn insert(&mut self, other: CellFlags)
        ensures
            final(self).bits == old(self).bits | other.bits,
            final(self).has(other),
            final(self).has(*old(self)),
    {
        let a: u8 = self.bits;
        let b: u8 = other.bits;
        assert((a | b) & a == a && (a | b) & b == b) by (bit_vector);
        self.bits = a | b;
    }

    /// Lowers the bits of `other`, leaving the rest as they were.
    pub fn remove(&mut self, other: CellFlags)
        ensures
            final(self).bits == old(self).bits & !other.bits,
            final(self).bits & other.bits == 0,
            old(self).has(*final(self)),
    {
        let a: u8 = self.bits;
        let b: u8 = other.bits;
        assert((a & !b) & b == 0 && a & (a & !b) == a & !b) by (bit_vector);
        self.bits = a & !b;
    }
}

impl core::ops::BitOr for CellFlags {
    type Output = CellFlags;

    fn bitor(self, rhs: CellFlags) -> (r: CellFlags) {
        CellFlags { bits: self.bits | rhs.bits }
    }
}

impl vstd::std_specs::ops::BitOrSpecImpl for CellFlags {
    open spec fn obeys_bitor_spec() -> bool {
        true
    }

    open spec fn bitor_req(self, rhs: CellFlags) -> bool {
        true
    }

    open spec fn bitor_spec(self, rhs: CellFlags) -> CellFlags {
        CellFlags { bits: self.bits | rhs.bits }
    }
}

/// Text attributes of a style.
#[derive(Debug, Clone, Copy, PartialEq, Eq, Structural)]
pub struct Attributes {
    /// The raw bits; bits without a name are carried along untouched.
    pub bits: u16,
}

impl Attributes {
    /// The bits that carry a name.
    pub open spec fn known_bits() -> u16 {
        0b0000_0111_1111_1111
    }

    /// Whether every bit raised in `other` is also raised in `self`.
    pub open spec fn has(self, other: Attributes) -> bool {
        self.bits & other.bits == other.bits
    }

    /// Bold weight.
    #[allow(non_snake_case)]
    pub fn BOLD() -> (r: Attributes)
        ensures
            r.bits == 0b0000_0000_0000_0001,
    {
        Attributes { bits: 0b0000_0000_0000_0001 }
    }

    /// Faint weight.
    #[allow(non_snake_case)]
    pub fn FAINT() -> (r: Attributes)
        ensures
            r.bits == 0b0000_0000_0000_0010,
    {
        Attributes { bits: 0b0000_0000_0000_0010 }
    }

    /// Italic slant.
    #[allow(non_snake_case)]
    pub fn ITALIC() -> (r: Attributes)
        ensures
            r.bits == 0b0000_0000_0000_0100,
    {
        Attributes { bits: 0b0000_0000_0000_0100 }
    }

    /// Single underline.
    #[allow(non_snake_case)]
    pub fn UNDERLINE() -> (r: Attributes)
        ensures
            r.bits == 0b0000_0000_0000_1000,
    {
        Attributes { bits: 0b0000_0000_0000_1000 }
    }

    /// Double underline.
    #[allow(non_snake_case)]
    pub fn UNDERLINE_DOUBLE() -> (r: Attributes)
        ensures
            r.bits == 0b0000_0000_0001_0000,
    {
        Attributes { bits: 0b0000_0000_0001_0000 }
    }

    /// Curly underline.
    #[allow(non_snake_case)]
    pub fn UNDERLINE_CURLY() -> (r: Attributes)
        ensures
            r.bits == 0b0000_0000_0010_0000,
    {
        Attributes { bits: 0b0000_0000_0010_0000 }
    }

    /// Blinking text.
    #[allow(non_snake_case)]
    pub fn BLINK() -> (r: Attributes)
        ensures
            r.bits == 0b0000_0000_0100_0000,
    {
        Attributes { bits: 0b0000_0000_0100_0000 }
    }

    /// Foreground and background swapped.
    #[allow(non_snake_case)]
    pub fn REVERSE() -> (r: Attributes)
        ensures
            r.bits == 0b0000_0000_1000_0000,
    {
        Attributes { bits: 0b0000_0000_1000_0000 }
    }

    /// Hidden text.
    #[allow(non_snake_case)]
    pub fn INVISIBLE() -> (r: Attributes)
        ensures
            r.bits == 0b0000_0001_0000_0000,
    {
        Attributes { bits: 0b0000_0001_0000_0000 }
    }

    /// Struck-through text.
    #[allow(non_snake_case)]
    pub fn STRIKETHROUGH() -> (r: Attributes)
        ensures
            r.bits == 0b0000_0010_0000_0000,
    {
        Attributes { bits: 0b0000_0010_0000_0000 }
    }

    /// Line above the text.
    #[allow(non_snake_case)]
    pub fn OVERLINE() -> (r: Attributes)
        ensures
            r.bits == 0b0000_0100_0000_0000,
    {
        Attributes { bits: 0b0000_0100_0000_0000 }
    }

    /// The set with no bit raised.
    pub fn empty() -> (r: Attributes)
        ensures
            r.bits == 0,
            forall|f: Attributes| #[trigger] f.has(r),
    {
        assert forall|f: Attributes| #[trigger] f.has(Attributes { bits: 0 }) by {
            let b: u16 = f.bits;
            assert(b & 0 == 0) by (bit_vector);
        }
        Attributes { bits: 0 }
    }

    /// The set with every named bit raised.
    pub fn all() -> (r: Attributes)
        ensures
            r.bits == Self::known_bits(),
    {
        Attributes { bits: 0b0000_0111_1111_1111 }
    }

    /// The raw bits.
    pub fn bits(&self) -> (r: u16)
        ensures
            r == self.bits,
    {
        self.bits
    }

    /// The set with exactly the given bits, if all of them carry a name.
    pub fn from_bits(bits: u16) -> (r: Option<Attributes>)
        ensures
            r == if bits & !Self::known_bits() == 0 {
                Some(Attributes { bits })
            } else {
                None
            },
    {
        if bits & !0b0000_0111_1111_1111 == 0 {
            Some(Attributes { bits })
        } else {
            None
        }
    }

    /// The set with exactly the given bits, named or not.
    pub fn from_bits_retain(bits: u16) -> (r: Attributes)
        ensures
            r.bits == bits,
    {
        Attributes { bits }
    }

    /// Whether no bit is raised.
    pub fn is_empty(&self) -> (r: bool)
        ensures
            r == (self.bits == 0),
    {
        self.bits == 0
    }

    /// Whether every bit raised in `other` is also raised in `self`.
    pub fn contains(&self, other: Attributes) -> (r: bool)
        ensures
            r == self.has(other),
    {
        self.bits & other.bits == other.bits
    }

    /// The bits raised in either set.
    pub fn union(self, other: Attributes) -> (r: Attributes)
        ensures
            r.bits == self.bits | other.bits,
            r.has(self),
            r.has(other),
    {
        let a: u16 = self.bits;
        let b: u16 = other.bits;
        assert((a | b) & a == a && (a | b) & b == b) by (bit_vector);
        Attributes { bits: a | b }
    }

    /// Raises the bits of `other`, leaving the rest as they were.
    pub fn insert(&mut self, other: Attributes)
        ensures
            final(self).bits == old(self).bits | other.bits,
            final(self).has(other),
            final(self).has(*old(self)),
    {
        let a: u16 = self.bits;
        let b: u16 = other.bits;
        assert((a | b) & a == a && (a | b) & b == b) by (bit_vector);
        self.bits = a | b;
    }

    /// Lowers the bits of `other`, leaving the rest as they were.
    pub fn remove(&mut self, other: Attributes)
        ensures
            final(self).bits == old(self).bits & !other.bits,
            final(self).bits & other.bits == 0,
            old(self).has(*final(self)),
    {
        let a: u16 = self.bits;
        let b: u16 = other.bits;
        assert((a & !b) & b == 0 && a & (a & !b) == a & !b) by (bit_vector);
        self.bits = a & !b;
    }
}

impl core::ops::BitOr for Attributes {
    type Output = Attributes;

    fn bitor(self, rhs: Attributes) -> (r: Attributes) {
        Attributes { bits: self.bits | rhs.bits }
    }
}

impl vstd::std_specs::ops::BitOrSpecImpl for Attributes {
    open spec fn obeys_bitor_spec() -> bool {
        true
    }

    open spec fn bitor_req(self, rhs: Attributes) -> bool {
        true
    }

    open spec fn bitor_spec(self, rhs: Attributes) -> Attributes {
        Attributes { bits: self.bits | rhs.bits }
    }
}

/// The flags byte of an authorship record.
#[derive(Debug, Clone, Copy, PartialEq, Eq, Structural)]
pub struct SauceFlags {
    /// The raw bits; bits without a name are carried along untouched.
    pub bits: u8,
}

impl SauceFlags {
    /// The bits that carry a name.
    pub open spec fn known_bits() -> u8 {
        0b0000_1101
    }

    /// Whether every bit raised in `other` is also raised in `self`.
    pub open spec fn has(self, other: SauceFlags) -> bool {
        self.bits & other.bits == other.bits
    }

    /// Background intensity replaces blinking.
    #[allow(non_snake_case)]
    pub fn ICE_COLORS() -> (r: SauceFlags)
        ensures
            r.bits == 0b0000_0001,
    {
        SauceFlags { bits: 0b0000_0001 }
    }

    /// Glyphs are nine pixels wide.
    #[allow(non_snake_case)]
    pub fn LETTER_SPACING_9BIT() -> (r: SauceFlags)
        ensures
            r.bits == 0b0000_0100,
    {
        SauceFlags { bits: 0b0000_0100 }
    }

    /// Pixels are taller than wide, as on period hardware.
    #[allow(non_snake_case)]
    pub fn ASPECT_RATIO() -> (r: SauceFlags)
        ensures
            r.bits == 0b0000_1000,
    {
        SauceFlags { bits: 0b0000_1000 }
    }

    /// The set with no bit raised.
    pub fn empty() -> (r: SauceFlags)
        ensures
            r.bits == 0,
            forall|f: SauceFlags| #[trigger] f.has(r),
    {
        assert forall|f: SauceFlags| #[trigger] f.has(SauceFlags { bits: 0 }) by {
            let b: u8 = f.bits;
            assert(b & 0 == 0) by (bit_vector);
        }
        SauceFlags { bits: 0 }
    }

    /// The set with every named bit raised.
    pub fn all() -> (r: SauceFlags)
        ensures
            r.bits == Self::known_bits(),
    {
        SauceFlags { bits: 0b0000_1101 }
    }

    /// The raw bits.
    pub fn bits(&self) -> (r: u8)
        ensures
            r == self.bits,
    {
        self.bits
    }

    /// The set with exactly the given bits, if all of them carry a name.
    pub fn from_bits(bits: u8) -> (r: Option<SauceFlags>)
        ensures
            r == if bits & !Self::known_bits() == 0 {
                Some(SauceFlags { bits })
            } else {
                None
            },
    {
        if bits & !0b0000_1101 == 0 {
            Some(SauceFlags { bits })
        } else {
            None
        }
    }

    /// The set with exactly the given bits, named or not.
    pub fn from_bits_retain(bits: u8) -> (r: SauceFlags)
        ensures
            r.bits == bits,
    {
        SauceFlags { bits }
    }

    /// Whether no bit is raised.
    pub fn is_empty(&self) -> (r: bool)
        ensures
            r == (self.bits == 0),
    {
        self.bits == 0
    }

    /// Whether every bit raised in `other` is also raised in `self`.
    pub fn contains(&self, other: SauceFlags) -> (r: bool)
        ensures
            r == self.has(other),
    {
        self.bits & other.bits == other.bits
    }

    /// The bits raised in either set.
    pub fn union(self, other: SauceFlags) -> (r: SauceFlags)
        ensures
            r.bits == self.bits | other.bits,
            r.has(self),
            r.has(other),
    {
        let a: u8 = self.bits;
        let b: u8 = other.bits;
        assert((a | b) & a == a && (a | b) & b == b) by (bit_vector);
        SauceFlags { bits: a | b }
    }

    /// Raises the bits of `other`, leaving the rest as they were.
    pub fn insert(&mut self, other: SauceFlags)
        ensures
            final(self).bits == old(self).bits | other.bits,
            final(self).has(other),
            final(self).has(*old(self)),
    {
        let a: u8 = self.bits;
        let b: u8 = other.bits;
        assert((a | b) & a == a && (a | b) & b == b) by (bit_vector);
        self.bits = a | b;
    }

    /// Lowers the bits of `other`, leaving the rest as they were.
    pub fn remove(&mut self, other: SauceFlags)
        ensures
            final(self).bits == old(self).bits & !other.bits,
            final(self).bits & other.bits == 0,
            old(self).has(*final(self)),
    {
        let a: u8 = self.bits;
        let b: u8 = other.bits;
        assert((a & !b) & b == 0 && a & (a & !b) == a & !b) by (bit_vector);
        self.bits = a & !b;
    }
}

impl core::ops::BitOr for SauceFlags {
    type Output = SauceFlags;

    fn bitor(self, rhs: SauceFlags) -> (r: SauceFlags) {
        SauceFlags { bits: self.bits | rhs.bits }
    }
}

impl vstd::std_specs::ops::BitOrSpecImpl for SauceFlags {
    open spec fn obeys_bitor_spec() -> bool {
        true
    }

    open spec fn bitor_req(self, rhs: SauceFlags) -> bool {
        true
    }

    open spec fn bitor_spec(self, rhs: SauceFlags) -> SauceFlags {
        SauceFlags { bits: self.bits | rhs.bits }
    }
}

} // verus!
