//! Thresholds and filters of the channel outputs.

use crate::rw::Record;
use crate::wire::{le16, le16_bytes, u16_from_le, u16_to_le};
use vstd::prelude::*;

verus! {

/// Thresholds and filters that turn counts into touch and proximity outputs.
#[derive(Debug, Clone, Copy, PartialEq, Eq, Structural)]
pub struct ChannelOutput {
    pub touch: TouchOutput,
    pub alp: AlpOutput,
    pub alp_filter_lp1: AlpFilterBetas,
    pub alp_filter_lp2: AlpFilterBetas,
}

impl ChannelOutput {
    /// The value with the given fields.
    pub fn new(
        touch: TouchOutput,
        alp: AlpOutput,
        alp_filter_lp1: AlpFilterBetas,
        alp_filter_lp2: AlpFilterBetas,
    ) -> (v: Self)
        ensures
            v == (ChannelOutput { touch, alp, alp_filter_lp1, alp_filter_lp2 }),
    {
        Self { touch, alp, alp_filter_lp1, alp_filter_lp2 }
    }

    /// The same settings with another touch.
    pub fn with_touch(self, touch: TouchOutput) -> (v: Self)
        ensures
            v == (ChannelOutput { touch, ..self }),
    {
        ChannelOutput { touch, ..self }
    }

    /// The same settings with another low-power.
    pub fn with_alp(self, low_power: AlpOutput) -> (v: Self)
        ensures
            v == (ChannelOutput { alp: low_power, ..self }),
    {
        ChannelOutput { alp: low_power, ..self }
    }

    /// The same settings with another low-power filter first low-power mode.
    pub fn with_alp_filter_lp1(self, filter: AlpFilterBetas) -> (v: Self)
        ensures
            v == (ChannelOutput { alp_filter_lp1: filter, ..self }),
    {
        ChannelOutput { alp_filter_lp1: filter, ..self }
    }

    /// The same settings with another low-power filter second low-power mode.
    pub fn with_alp_filter_lp2(self, filter: AlpFilterBetas) -> (v: Self)
        ensures
            v == (ChannelOutput { alp_filter_lp2: filter, ..self }),
    {
        ChannelOutput { alp_filter_lp2: filter, ..self }
    }

    /// The register bytes: touch, alp, alp filter lp1, alp filter lp2.
    pub open spec fn encoding(self) -> Seq<u8> {
        self.touch.encoding()
            + self.alp.encoding()
            + self.alp_filter_lp1.encoding()
            + self.alp_filter_lp2.encoding()
    }

    /// The value that ten register bytes stand for.
    pub open spec fn decoding(b: Seq<u8>) -> Self {
        ChannelOutput {
            touch: TouchOutput::decoding(b.subrange(0, 2)),
            alp: AlpOutput::decoding(b.subrange(2, 6)),
            alp_filter_lp1: AlpFilterBetas::decoding(b.subrange(6, 8)),
            alp_filter_lp2: AlpFilterBetas::decoding(b.subrange(8, 10)),
        }
    }

    /// The register bytes of the value.
    pub fn to_bytes(&self) -> (b: [u8; 10])
        ensures
            b@ == self.encoding(),
    {
        let touch = self.touch.to_bytes();
        let alp = self.alp.to_bytes();
        let alp_filter_lp1 = self.alp_filter_lp1.to_bytes();
        let alp_filter_lp2 = self.alp_filter_lp2.to_bytes();
        let b = [
            touch[0], touch[1], alp[0], alp[1], alp[2], alp[3],
            alp_filter_lp1[0], alp_filter_lp1[1], alp_filter_lp2[0], alp_filter_lp2[1],
        ];
        assert(b@ =~= self.encoding());
        b
    }

    /// The value that ten register bytes stand for.
    pub fn from_bytes(b: [u8; 10]) -> (v: Self)
        ensures
            v == Self::decoding(b@),
    {
        let touch_bytes = [b[0], b[1]];
        assert(touch_bytes@ =~= b@.subrange(0, 2));
        let alp_bytes = [b[2], b[3], b[4], b[5]];
        assert(alp_bytes@ =~= b@.subrange(2, 6));
        let alp_filter_lp1_bytes = [b[6], b[7]];
        assert(alp_filter_lp1_bytes@ =~= b@.subrange(6, 8));
        let alp_filter_lp2_bytes = [b[8], b[9]];
        assert(alp_filter_lp2_bytes@ =~= b@.subrange(8, 10));
        Self {
            touch: TouchOutput::from_bytes(touch_bytes),
            alp: AlpOutput::from_bytes(alp_bytes),
            alp_filter_lp1: AlpFilterBetas::from_bytes(alp_filter_lp1_bytes),
            alp_filter_lp2: AlpFilterBetas::from_bytes(alp_filter_lp2_bytes),
        }
    }

    /// Decoding undoes encoding.
    pub proof fn lemma_roundtrip(self)
        ensures
            self.encoding().len() == 10,
            Self::decoding(self.encoding()) == self,
    {
        self.touch.lemma_roundtrip();
        self.alp.lemma_roundtrip();
        self.alp_filter_lp1.lemma_roundtrip();
        self.alp_filter_lp2.lemma_roundtrip();
        assert(self.encoding().subrange(0, 2) =~= self.touch.encoding());
        assert(self.encoding().subrange(2, 6) =~= self.alp.encoding());
        assert(self.encoding().subrange(6, 8) =~= self.alp_filter_lp1.encoding());
        assert(self.encoding().subrange(8, 10) =~= self.alp_filter_lp2.encoding());
    }

    /// The reference settings.
    pub open spec fn default_value() -> Self {
        ChannelOutput {
            touch: TouchOutput::default_value(),
            alp: AlpOutput::default_value(),
            alp_filter_lp1: AlpFilterBetas { count: 220, long_term_average: 8 },
            alp_filter_lp2: AlpFilterBetas { count: 240, long_term_average: 16 },
        }
    }
}

impl Record<10> for ChannelOutput {
    open spec fn in_range(&self) -> bool {
        true
    }

    open spec fn bytes(&self) -> Seq<u8> {
        self.encoding()
    }

    open spec fn of_bytes(bytes: Seq<u8>) -> Option<Self> {
        Some(ChannelOutput::decoding(bytes))
    }

    fn pack(&self) -> (b: [u8; 10]) {
        self.to_bytes()
    }

    fn unpack(b: [u8; 10]) -> (v: Option<Self>) {
        Some(ChannelOutput::from_bytes(b))
    }

    proof fn lemma_of_bytes(&self) {
        self.lemma_roundtrip();
    }
}

impl Default for ChannelOutput {
    fn default() -> (v: Self)
        ensures
            v == ChannelOutput::default_value(),
    {
        Self::new(
            TouchOutput::default(),
            AlpOutput::default(),
            AlpFilterBetas::new(220, 8),
            AlpFilterBetas::new(240, 16),
        )
    }
}

/// Multipliers that set and clear a touch. The threshold of a channel is its
/// reference times (1 + multiplier / 128).
#[derive(Debug, Clone, Copy, PartialEq, Eq, Structural)]
pub struct TouchOutput {
    pub set_multiplier: u8,
    pub clear_multiplier: u8,
}

impl TouchOutput {
    /// The value with the given fields.
    pub fn new(set_multiplier: u8, clear_multiplier: u8) -> (v: Self)
        ensures
            v == (TouchOutput { set_multiplier, clear_multiplier }),
    {
        Self { set_multiplier, clear_multiplier }
    }

    /// The register bytes: set multiplier, clear multiplier.
    pub open spec fn encoding(self) -> Seq<u8> {
        seq![self.set_multiplier, self.clear_multiplier]
    }

    /// The value that two register bytes stand for.
    pub open spec fn decoding(b: Seq<u8>) -> Self {
        TouchOutput { set_multiplier: b[0], clear_multiplier: b[1] }
    }

    /// The register bytes of the value.
    pub fn to_bytes(&self) -> (b: [u8; 2])
        ensures
            b@ == self.encoding(),
    {
        let b = [self.set_multiplier, self.clear_multiplier];
        assert(b@ =~= self.encoding());
        b
    }

    /// The value that two register bytes stand for.
    pub fn from_bytes(b: [u8; 2]) -> (v: Self)
        ensures
            v == Self::decoding(b@),
    {
        Self { set_multiplier: b[0], clear_multiplier: b[1] }
    }

    /// Decoding undoes encoding.
    pub proof fn lemma_roundtrip(self)
        ensures
            self.encoding().len() == 2,
            Self::decoding(self.encoding()) == self,
    {
    }

    /// The reference multipliers.
    pub open spec fn default_value() -> Self {
        TouchOutput { set_multiplier: 2, clear_multiplier: 2 }
    }
}

impl Record<2> for TouchOutput {
    open spec fn in_range(&self) -> bool {
        true
    }

    open spec fn bytes(&self) -> Seq<u8> {
        self.encoding()
    }

    open spec fn of_bytes(bytes: Seq<u8>) -> Option<Self> {
        Some(TouchOutput::decoding(bytes))
    }

    fn pack(&self) -> (b: [u8; 2]) {
        self.to_bytes()
    }

    fn unpack(b: [u8; 2]) -> (v: Option<Self>) {
        Some(TouchOutput::from_bytes(b))
    }

    proof fn lemma_of_bytes(&self) {
        self.lemma_roundtrip();
    }
}

impl Default for TouchOutput {
    fn default() -> (v: Self)
        ensures
            v == TouchOutput::default_value(),
    {
        Self::new(2, 2)
    }
}

/// Threshold and debounce of the low-power channel output.
#[derive(Debug, Clone, Copy, PartialEq, Eq, Structural)]
pub struct AlpOutput {
    pub threshold: u16,
    pub set_debounce: u8,
    pub clear_debounce: u8,
}

impl AlpOutput {
    /// The value with the given fields.
    pub fn new(threshold: u16, set_debounce: u8, clear_debounce: u8) -> (v: Self)
        ensures
            v == (AlpOutput { threshold, set_debounce, clear_debounce }),
    {
        Self { threshold, set_debounce, clear_debounce }
    }

    /// The register bytes: threshold, set debounce, clear debounce, each number
    /// least significant byte first.
    pub open spec fn encoding(self) -> Seq<u8> {
        le16_bytes(self.threshold) + seq![self.set_debounce, self.clear_debounce]
    }

    /// The value that four register bytes stand for.
    pub open spec fn decoding(b: Seq<u8>) -> Self {
        AlpOutput { threshold: le16(b[0], b[1]), set_debounce: b[2], clear_debounce: b[3] }
    }

    /// The register bytes of the value.
    pub fn to_bytes(&self) -> (b: [u8; 4])
        ensures
            b@ == self.encoding(),
    {
        let threshold = u16_to_le(self.threshold);
        let b = [threshold[0], threshold[1], self.set_debounce, self.clear_debounce];
        assert(b@ =~= self.encoding());
        b
    }

    /// The value that four register bytes stand for.
    pub fn from_bytes(b: [u8; 4]) -> (v: Self)
        ensures
            v == Self::decoding(b@),
    {
        Self { threshold: u16_from_le(b[0], b[1]), set_debounce: b[2], clear_debounce: b[3] }
    }

    /// Decoding undoes encoding.
    pub proof fn lemma_roundtrip(self)
        ensures
            self.encoding().len() == 4,
            Self::decoding(self.encoding()) == self,
    {
    }

    /// The reference threshold and debounce.
    pub open spec fn default_value() -> Self {
        AlpOutput { threshold: 8, set_debounce: 4, clear_debounce: 4 }
    }
}

impl Record<4> for AlpOutput {
    open spec fn in_range(&self) -> bool {
        true
    }

    open spec fn bytes(&self) -> Seq<u8> {
        self.encoding()
    }

    open spec fn of_bytes(bytes: Seq<u8>) -> Option<Self> {
        Some(AlpOutput::decoding(bytes))
    }

    fn pack(&self) -> (b: [u8; 4]) {
        self.to_bytes()
    }

    fn unpack(b: [u8; 4]) -> (v: Option<Self>) {
        Some(AlpOutput::from_bytes(b))
    }

    proof fn lemma_of_bytes(&self) {
        self.lemma_roundtrip();
    }
}

impl Default for AlpOutput {
    fn default() -> (v: Self)
        ensures
            v == AlpOutput::default_value(),
    {
        Self::new(8, 4, 4)
    }
}

/// Filter strengths of the low-power channel in one low-power mode.
#[derive(Debug, Clone, Copy, PartialEq, Eq, Structural)]
pub struct AlpFilterBetas {
    pub count: u8,
    pub long_term_average: u8,
}

impl AlpFilterBetas {
    /// The value with the given fields.
    pub fn new(count: u8, long_term_average: u8) -> (v: Self)
        ensures
            v == (AlpFilterBetas { count, long_term_average }),
    {
        Self { count, long_term_average }
    }

    /// The register bytes: count, long term average.
    pub open spec fn encoding(self) -> Seq<u8> {
        seq![self.count, self.long_term_average]
    }

    /// The value that two register bytes stand for.
    pub open spec fn decoding(b: Seq<u8>) -> Self {
        AlpFilterBetas { count: b[0], long_term_average: b[1] }
    }

    /// The register bytes of the value.
    pub fn to_bytes(&self) -> (b: [u8; 2])
        ensures
            b@ == self.encoding(),
    {
        let b = [self.count, self.long_term_average];
        assert(b@ =~= self.encoding());
        b
    }

    /// The value that two register bytes stand for.
    pub fn from_bytes(b: [u8; 2]) -> (v: Self)
        ensures
            v == Self::decoding(b@),
    {
        Self { count: b[0], long_term_average: b[1] }
    }

    /// Decoding undoes encoding.
    pub proof fn lemma_roundtrip(self)
        ensures
            self.encoding().len() == 2,
            Self::decoding(self.encoding()) == self,
    {
    }
}

impl Record<2> for AlpFilterBetas {
    open spec fn in_range(&self) -> bool {
        true
    }

    open spec fn bytes(&self) -> Seq<u8> {
        self.encoding()
    }

    open spec fn of_bytes(bytes: Seq<u8>) -> Option<Self> {
        Some(AlpFilterBetas::decoding(bytes))
    }

    fn pack(&self) -> (b: [u8; 2]) {
        self.to_bytes()
    }

    fn unpack(b: [u8; 2]) -> (v: Option<Self>) {
        Some(AlpFilterBetas::from_bytes(b))
    }

    proof fn lemma_of_bytes(&self) {
        self.lemma_roundtrip();
    }
}

} // verus!
