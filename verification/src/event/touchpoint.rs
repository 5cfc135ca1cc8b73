//! The two contact slots of the device.

use crate::Iqs7211e;
use crate::event::Point;
use crate::rw::Record;
use crate::wire::{le16, le16_bytes, u16_from_le, u16_to_le};
use vstd::prelude::*;

verus! {

impl Iqs7211e {
    /// The contacts that the bytes of the two finger blocks stand for.
    pub fn touchpoints(raw: [u8; 16]) -> (contacts: Touchpoints)
        ensures
            contacts == Touchpoints::decoding(raw@),
    {
        Touchpoints::from_bytes(raw)
    }
}

/// The two contact slots of the device.
#[derive(Debug, Clone, Copy, PartialEq, Eq, Structural)]
pub struct Touchpoints {
    pub primary: Touchpoint,
    pub secondary: Touchpoint,
}

impl Touchpoints {
    /// The register bytes: primary, secondary.
    pub open spec fn encoding(self) -> Seq<u8> {
        self.primary.encoding() + self.secondary.encoding()
    }

    /// The value that sixteen register bytes stand for.
    pub open spec fn decoding(b: Seq<u8>) -> Self {
        Touchpoints {
            primary: Touchpoint::decoding(b.subrange(0, 8)),
            secondary: Touchpoint::decoding(b.subrange(8, 16)),
        }
    }

    /// The register bytes of the value.
    pub fn to_bytes(&self) -> (b: [u8; 16])
        ensures
            b@ == self.encoding(),
    {
        let primary = self.primary.to_bytes();
        let secondary = self.secondary.to_bytes();
        let b = [
            primary[0], primary[1], primary[2], primary[3], primary[4], primary[5], primary[6], primary[7],
            secondary[0], secondary[1], secondary[2], secondary[3], secondary[4], secondary[5], secondary[6], secondary[7],
        ];
        assert(b@ =~= self.encoding());
        b
    }

    /// The value that sixteen register bytes stand for.
    pub fn from_bytes(b: [u8; 16]) -> (v: Self)
        ensures
            v == Self::decoding(b@),
    {
        let primary_bytes = [b[0], b[1], b[2], b[3], b[4], b[5], b[6], b[7]];
        assert(primary_bytes@ =~= b@.subrange(0, 8));
        let secondary_bytes = [b[8], b[9], b[10], b[11], b[12], b[13], b[14], b[15]];
        assert(secondary_bytes@ =~= b@.subrange(8, 16));
        Self {
            primary: Touchpoint::from_bytes(primary_bytes),
            secondary: Touchpoint::from_bytes(secondary_bytes),
        }
    }

    /// Decoding undoes encoding.
    pub proof fn lemma_roundtrip(self)
        ensures
            self.encoding().len() == 16,
            Self::decoding(self.encoding()) == self,
    {
        self.primary.lemma_roundtrip();
        self.secondary.lemma_roundtrip();
        assert(self.encoding().subrange(0, 8) =~= self.primary.encoding());
        assert(self.encoding().subrange(8, 16) =~= self.secondary.encoding());
    }
}

impl Record<16> for Touchpoints {
    open spec fn in_range(&self) -> bool {
        true
    }

    open spec fn bytes(&self) -> Seq<u8> {
        self.encoding()
    }

    open spec fn of_bytes(bytes: Seq<u8>) -> Option<Self> {
        Some(Touchpoints::decoding(bytes))
    }

    fn pack(&self) -> (b: [u8; 16]) {
        self.to_bytes()
    }

    fn unpack(b: [u8; 16]) -> (v: Option<Self>) {
        Some(Touchpoints::from_bytes(b))
    }

    proof fn lemma_of_bytes(&self) {
        self.lemma_roundtrip();
    }
}

/// Position, strength and area of one contact. The position (0xFFFF, 0xFFFF)
/// stands for no contact.
#[derive(Debug, Clone, Copy, PartialEq, Eq, Structural)]
pub struct Touchpoint {
    pub point: Point,
    pub strength: u16,
    pub area: u16,
}

impl Touchpoint {
    /// Whether the slot holds no contact.
    pub open spec fn spec_is_empty(&self) -> bool {
        self.point.x == 0xFFFF && self.point.y == 0xFFFF
    }

    /// Whether the slot holds no contact.
    #[verifier::when_used_as_spec(spec_is_empty)]
    pub fn is_empty(&self) -> (e: bool)
        ensures
            e == self.spec_is_empty(),
    {
        self.point.x == 0xFFFF && self.point.y == 0xFFFF
    }

    /// The register bytes: point, strength, area, each number least significant
    /// byte first.
    pub open spec fn encoding(self) -> Seq<u8> {
        self.point.encoding() + le16_bytes(self.strength) + le16_bytes(self.area)
    }

    /// The value that eight register bytes stand for.
    pub open spec fn decoding(b: Seq<u8>) -> Self {
        Touchpoint {
            point: Point::decoding(b.subrange(0, 4)),
            strength: le16(b[4], b[5]),
            area: le16(b[6], b[7]),
        }
    }

    /// The register bytes of the value.
    pub fn to_bytes(&self) -> (b: [u8; 8])
        ensures
            b@ == self.encoding(),
    {
        let point = self.point.to_bytes();
        let strength = u16_to_le(self.strength);
        let area = u16_to_le(self.area);
        let b = [
            point[0], point[1], point[2], point[3], strength[0], strength[1], area[0], area[1],
        ];
        assert(b@ =~= self.encoding());
        b
    }

    /// The value that eight register bytes stand for.
    pub fn from_bytes(b: [u8; 8]) -> (v: Self)
        ensures
            v == Self::decoding(b@),
    {
        let point_bytes = [b[0], b[1], b[2], b[3]];
        assert(point_bytes@ =~= b@.subrange(0, 4));
        Self {
            point: Point::from_bytes(point_bytes),
            strength: u16_from_le(b[4], b[5]),
            area: u16_from_le(b[6], b[7]),
        }
    }

    /// Decoding undoes encoding.
    pub proof fn lemma_roundtrip(self)
        ensures
            self.encoding().len() == 8,
            Self::decoding(self.encoding()) == self,
    {
        self.point.lemma_roundtrip();
        assert(self.encoding().subrange(0, 4) =~= self.point.encoding());
    }
}

impl Record<8> for Touchpoint {
    open spec fn in_range(&self) -> bool {
        true
    }

    open spec fn bytes(&self) -> Seq<u8> {
        self.encoding()
    }

    open spec fn of_bytes(bytes: Seq<u8>) -> Option<Self> {
        Some(Touchpoint::decoding(bytes))
    }

    fn pack(&self) -> (b: [u8; 8]) {
        self.to_bytes()
    }

    fn unpack(b: [u8; 8]) -> (v: Option<Self>) {
        Some(Touchpoint::from_bytes(b))
    }

    proof fn lemma_of_bytes(&self) {
        self.lemma_roundtrip();
    }
}

} // verus!
