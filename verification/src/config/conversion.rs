//! Charge transfer frequencies.

use crate::rw::Record;
use vstd::prelude::*;

verus! {

/// Charge transfer frequencies of both sensing engines.
#[derive(Debug, Clone, Copy, PartialEq, Eq, Structural)]
pub struct ConversionFrequency {
    pub trackpad: Frequency,
    pub alp: Frequency,
}

impl ConversionFrequency {
    /// The value with the given fields.
    pub fn new(trackpad: Frequency, alp: Frequency) -> (v: Self)
        ensures
            v == (ConversionFrequency { trackpad, alp }),
    {
        Self { trackpad, alp }
    }

    /// The register bytes: trackpad, alp.
    pub open spec fn encoding(self) -> Seq<u8> {
        self.trackpad.encoding() + self.alp.encoding()
    }

    /// The value that four register bytes stand for.
    pub open spec fn decoding(b: Seq<u8>) -> Self {
        ConversionFrequency {
            trackpad: Frequency::decoding(b.subrange(0, 2)),
            alp: Frequency::decoding(b.subrange(2, 4)),
        }
    }

    /// The register bytes of the value.
    pub fn to_bytes(&self) -> (b: [u8; 4])
        ensures
            b@ == self.encoding(),
    {
        let trackpad = self.trackpad.to_bytes();
        let alp = self.alp.to_bytes();
        let b = [trackpad[0], trackpad[1], alp[0], alp[1]];
        assert(b@ =~= self.encoding());
        b
    }

    /// The value that four register bytes stand for.
    pub fn from_bytes(b: [u8; 4]) -> (v: Self)
        ensures
            v == Self::decoding(b@),
    {
        let trackpad_bytes = [b[0], b[1]];
        assert(trackpad_bytes@ =~= b@.subrange(0, 2));
        let alp_bytes = [b[2], b[3]];
        assert(alp_bytes@ =~= b@.subrange(2, 4));
        Self {
            trackpad: Frequency::from_bytes(trackpad_bytes),
            alp: Frequency::from_bytes(alp_bytes),
        }
    }

    /// Decoding undoes encoding.
    pub proof fn lemma_roundtrip(self)
        ensures
            self.encoding().len() == 4,
            Self::decoding(self.encoding()) == self,
    {
        self.trackpad.lemma_roundtrip();
        self.alp.lemma_roundtrip();
        assert(self.encoding().subrange(0, 2) =~= self.trackpad.encoding());
        assert(self.encoding().subrange(2, 4) =~= self.alp.encoding());
    }

    /// The reference settings.
    pub open spec fn default_value() -> Self {
        ConversionFrequency {
            trackpad: Frequency { period: 2, fraction: 26 },
            alp: Frequency { period: 2, fraction: 26 },
        }
    }
}

impl Record<4> for ConversionFrequency {
    open spec fn in_range(&self) -> bool {
        true
    }

    open spec fn bytes(&self) -> Seq<u8> {
        self.encoding()
    }

    open spec fn of_bytes(bytes: Seq<u8>) -> Option<Self> {
        Some(ConversionFrequency::decoding(bytes))
    }

    fn pack(&self) -> (b: [u8; 4]) {
        self.to_bytes()
    }

    fn unpack(b: [u8; 4]) -> (v: Option<Self>) {
        Some(ConversionFrequency::from_bytes(b))
    }

    proof fn lemma_of_bytes(&self) {
        self.lemma_roundtrip();
    }
}

impl Default for ConversionFrequency {
    fn default() -> (v: Self)
        ensures
            v == ConversionFrequency::default_value(),
    {
        Self::new(Frequency::new(2, 26), Frequency::new(2, 26))
    }
}

/// Charge transfer frequency of one sensing engine.
#[derive(Debug, Clone, Copy, PartialEq, Eq, Structural)]
pub struct Frequency {
    /// Conversion period: 128 / fraction - 2.
    pub period: u8,
    /// Frequency fraction: 256 * frequency / clock.
    pub fraction: u8,
}

impl Frequency {
    /// The value with the given fields.
    pub fn new(period: u8, fraction: u8) -> (v: Self)
        ensures
            v == (Frequency { period, fraction }),
    {
        Self { period, fraction }
    }

    /// The register bytes: period, fraction.
    pub open spec fn encoding(self) -> Seq<u8> {
        seq![self.period, self.fraction]
    }

    /// The value that two register bytes stand for.
    pub open spec fn decoding(b: Seq<u8>) -> Self {
        Frequency { period: b[0], fraction: b[1] }
    }

    /// The register bytes of the value.
    pub fn to_bytes(&self) -> (b: [u8; 2])
        ensures
            b@ == self.encoding(),
    {
        let b = [self.period, self.fraction];
        assert(b@ =~= self.encoding());
        b
    }

    /// The value that two register bytes stand for.
    pub fn from_bytes(b: [u8; 2]) -> (v: Self)
        ensures
            v == Self::decoding(b@),
    {
        Self { period: b[0], fraction: b[1] }
    }

    /// Decoding undoes encoding.
    pub proof fn lemma_roundtrip(self)
        ensures
            self.encoding().len() == 2,
            Self::decoding(self.encoding()) == self,
    {
    }
}

impl Record<2> for Frequency {
    open spec fn in_range(&self) -> bool {
        true
    }

    open spec fn bytes(&self) -> Seq<u8> {
        self.encoding()
    }

    open spec fn of_bytes(bytes: Seq<u8>) -> Option<Self> {
        Some(Frequency::decoding(bytes))
    }

    fn pack(&self) -> (b: [u8; 2]) {
        self.to_bytes()
    }

    fn unpack(b: [u8; 2]) -> (v: Option<Self>) {
        Some(Frequency::from_bytes(b))
    }

    proof fn lemma_of_bytes(&self) {
        self.lemma_roundtrip();
    }
}

} // verus!
