//! Gesture recognition: what is reported, and within which limits.

use crate::rw::Record;
use crate::wire::{at, bits, flag, flag_bit, le16, le16_bytes, u16_from_le, u16_to_le};
use vstd::prelude::*;

verus! {

/// Gesture recognition: which gestures are reported, and their limits.
#[derive(Debug, Clone, Copy, PartialEq, Eq, Structural)]
pub struct Gestures {
    pub enable: GestureEnable,
    pub tap: TapConfig,
    /// Shortest touch, in milliseconds, that counts as a hold.
    pub hold_duration: u16,
    pub swipe: SwipeConfig,
    /// Number of channels in touch at once that make a palm.
    pub palm_threshold: u8,
}

impl Gestures {
    /// The value with the given fields.
    pub fn new(
        enable: GestureEnable,
        tap: TapConfig,
        hold_duration: u16,
        swipe: SwipeConfig,
        palm_threshold: u8,
    ) -> (v: Self)
        ensures
            v == (Gestures { enable, tap, hold_duration, swipe, palm_threshold }),
    {
        Self { enable, tap, hold_duration, swipe, palm_threshold }
    }

    /// The same settings with the given taps reported.
    pub fn enable_tap(self, tap: Tap) -> (v: Self)
        ensures
            v == (Gestures { enable: GestureEnable { tap, ..self.enable }, ..self }),
    {
        Gestures { enable: GestureEnable { tap, ..self.enable }, ..self }
    }

    /// The same settings with press and hold reported.
    pub fn enable_press_and_hold(self) -> (v: Self)
        ensures
            v == (Gestures {
                enable: GestureEnable { press_and_hold: true, ..self.enable },
                ..self
            }),
    {
        Gestures { enable: GestureEnable { press_and_hold: true, ..self.enable }, ..self }
    }

    /// The same settings with the palm gesture reported.
    pub fn enable_palm(self) -> (v: Self)
        ensures
            v == (Gestures { enable: GestureEnable { palm: true, ..self.enable }, ..self }),
    {
        Gestures { enable: GestureEnable { palm: true, ..self.enable }, ..self }
    }

    /// The same settings with swipes in the given directions reported.
    pub fn enable_swipe(self, swipe: Swipe) -> (v: Self)
        ensures
            v == (Gestures { enable: GestureEnable { swipe, ..self.enable }, ..self }),
    {
        Gestures { enable: GestureEnable { swipe, ..self.enable }, ..self }
    }

    /// The same settings with swipe and hold in the given directions reported.
    pub fn enable_swipe_and_hold(self, swipe_and_hold: Swipe) -> (v: Self)
        ensures
            v == (Gestures { enable: GestureEnable { swipe_and_hold, ..self.enable }, ..self }),
    {
        Gestures { enable: GestureEnable { swipe_and_hold, ..self.enable }, ..self }
    }

    /// The same settings with every gesture reported.
    pub fn enable_all(self) -> (v: Self)
        ensures
            v == (Gestures {
                enable: GestureEnable {
                    tap: Tap { single: true, double: true, triple: true },
                    press_and_hold: true,
                    palm: true,
                    swipe: Swipe { pos_x: true, neg_x: true, pos_y: true, neg_y: true },
                    swipe_and_hold: Swipe { pos_x: true, neg_x: true, pos_y: true, neg_y: true },
                },
                ..self
            }),
    {
        Gestures {
            enable: GestureEnable::new(Tap::all(), true, true, Swipe::all(), Swipe::all()),
            ..self
        }
    }

    /// The same settings with another tap config.
    pub fn use_tap_config(self, config: TapConfig) -> (v: Self)
        ensures
            v == (Gestures { tap: config, ..self }),
    {
        Gestures { tap: config, ..self }
    }

    /// The same settings with another swipe config.
    pub fn use_swipe_config(self, config: SwipeConfig) -> (v: Self)
        ensures
            v == (Gestures { swipe: config, ..self }),
    {
        Gestures { swipe: config, ..self }
    }

    /// The same settings with another hold duration.
    pub fn use_hold_duration(self, duration: u16) -> (v: Self)
        ensures
            v == (Gestures { hold_duration: duration, ..self }),
    {
        Gestures { hold_duration: duration, ..self }
    }

    /// The same settings with another palm threshold.
    pub fn use_palm_threshold(self, threshold: u8) -> (v: Self)
        ensures
            v == (Gestures { palm_threshold: threshold, ..self }),
    {
        Gestures { palm_threshold: threshold, ..self }
    }

    /// The register bytes: enable, tap, hold duration, swipe, palm threshold,
    /// each number least significant byte first.
    pub open spec fn encoding(self) -> Seq<u8> {
        self.enable.encoding()
            + self.tap.encoding()
            + le16_bytes(self.hold_duration)
            + self.swipe.encoding()
            + seq![self.palm_threshold]
    }

    /// The value that twenty-two register bytes stand for.
    pub open spec fn decoding(b: Seq<u8>) -> Self {
        Gestures {
            enable: GestureEnable::decoding(b.subrange(0, 2)),
            tap: TapConfig::decoding(b.subrange(2, 8)),
            hold_duration: le16(b[8], b[9]),
            swipe: SwipeConfig::decoding(b.subrange(10, 21)),
            palm_threshold: b[21],
        }
    }

    /// The register bytes of the value.
    pub fn to_bytes(&self) -> (b: [u8; 22])
        ensures
            b@ == self.encoding(),
    {
        let enable = self.enable.to_bytes();
        let tap = self.tap.to_bytes();
        let hold_duration = u16_to_le(self.hold_duration);
        let swipe = self.swipe.to_bytes();
        let b = [
            enable[0], enable[1], tap[0], tap[1], tap[2], tap[3], tap[4], tap[5],
            hold_duration[0], hold_duration[1],
            swipe[0], swipe[1], swipe[2], swipe[3], swipe[4], swipe[5], swipe[6], swipe[7], swipe[8], swipe[9], swipe[10],
            self.palm_threshold,
        ];
        assert(b@ =~= self.encoding());
        b
    }

    /// The value that twenty-two register bytes stand for.
    pub fn from_bytes(b: [u8; 22]) -> (v: Self)
        ensures
            v == Self::decoding(b@),
    {
        let enable_bytes = [b[0], b[1]];
        assert(enable_bytes@ =~= b@.subrange(0, 2));
        let tap_bytes = [b[2], b[3], b[4], b[5], b[6], b[7]];
        assert(tap_bytes@ =~= b@.subrange(2, 8));
        let swipe_bytes = [
            b[10], b[11], b[12], b[13], b[14], b[15], b[16], b[17], b[18], b[19], b[20],
        ];
        assert(swipe_bytes@ =~= b@.subrange(10, 21));
        Self {
            enable: GestureEnable::from_bytes(enable_bytes),
            tap: TapConfig::from_bytes(tap_bytes),
            hold_duration: u16_from_le(b[8], b[9]),
            swipe: SwipeConfig::from_bytes(swipe_bytes),
            palm_threshold: b[21],
        }
    }

    /// Decoding undoes encoding.
    pub proof fn lemma_roundtrip(self)
        ensures
            self.encoding().len() == 22,
            Self::decoding(self.encoding()) == self,
    {
        self.enable.lemma_roundtrip();
        self.tap.lemma_roundtrip();
        self.swipe.lemma_roundtrip();
        assert(self.encoding().subrange(0, 2) =~= self.enable.encoding());
        assert(self.encoding().subrange(2, 8) =~= self.tap.encoding());
        assert(self.encoding().subrange(10, 21) =~= self.swipe.encoding());
    }

    /// The reference limits, with no gesture reported.
    pub open spec fn default_value() -> Self {
        Gestures {
            enable: GestureEnable::default_value(),
            tap: TapConfig::default_value(),
            hold_duration: 300,
            swipe: SwipeConfig::default_value(),
            palm_threshold: 30,
        }
    }
}

impl Record<22> for Gestures {
    open spec fn in_range(&self) -> bool {
        true
    }

    open spec fn bytes(&self) -> Seq<u8> {
        self.encoding()
    }

    open spec fn of_bytes(bytes: Seq<u8>) -> Option<Self> {
        Some(Gestures::decoding(bytes))
    }

    fn pack(&self) -> (b: [u8; 22]) {
        self.to_bytes()
    }

    fn unpack(b: [u8; 22]) -> (v: Option<Self>) {
        Some(Gestures::from_bytes(b))
    }

    proof fn lemma_of_bytes(&self) {
        self.lemma_roundtrip();
    }
}

impl Default for Gestures {
    fn default() -> (v: Self)
        ensures
            v == Gestures::default_value(),
    {
        Self::new(GestureEnable::none(), TapConfig::default(), 300, SwipeConfig::default(), 30)
    }
}

/// The gestures that the device reports.
#[derive(Debug, Clone, Copy, PartialEq, Eq, Structural)]
pub struct GestureEnable {
    pub tap: Tap,
    pub press_and_hold: bool,
    pub palm: bool,
    pub swipe: Swipe,
    pub swipe_and_hold: Swipe,
}

impl GestureEnable {
    /// The value with the given fields.
    pub fn new(
        tap: Tap,
        press_and_hold: bool,
        palm: bool,
        swipe: Swipe,
        swipe_and_hold: Swipe,
    ) -> (v: Self)
        ensures
            v == (GestureEnable { tap, press_and_hold, palm, swipe, swipe_and_hold }),
    {
        Self { tap, press_and_hold, palm, swipe, swipe_and_hold }
    }

    /// No gesture at all.
    pub fn none() -> (v: Self)
        ensures
            v == GestureEnable::default_value(),
    {
        Self::new(Tap::none(), false, false, Swipe::none(), Swipe::none())
    }

    /// The gesture enable word: tap in bits 0 to 2, press and hold in bit 3,
    /// palm in bit 4, swipe in bits 8 to 11, swipe and hold in bits 12 to 15.
    #[verifier::opaque]
    pub open spec fn word(self) -> int {
        at(self.tap.word(), 0)
            + at(flag(self.press_and_hold), 3)
            + at(flag(self.palm), 4)
            + at(self.swipe.word(), 8)
            + at(self.swipe_and_hold.word(), 12)
    }

    /// Each field of the word is read back from the place it was put.
    pub proof fn lemma_word_fields(self)
        ensures
            0 <= self.word() < 65536,
            bits(self.word(), 0, 3) == self.tap.word(),
            bits(self.word(), 3, 1) == flag(self.press_and_hold),
            bits(self.word(), 4, 1) == flag(self.palm),
            bits(self.word(), 8, 4) == self.swipe.word(),
            bits(self.word(), 12, 4) == self.swipe_and_hold.word(),
    {
        reveal(bits);
        reveal(flag);
        reveal(GestureEnable::word);
        self.tap.lemma_roundtrip();
        self.swipe.lemma_roundtrip();
        self.swipe_and_hold.lemma_roundtrip();
        let tap = self.tap.word() as u16;
        let press_and_hold = flag(self.press_and_hold) as u16;
        let palm = flag(self.palm) as u16;
        let swipe = self.swipe.word() as u16;
        let swipe_and_hold = self.swipe_and_hold.word() as u16;
        let w = self.word() as u16;
        assert(w % 8 == tap
            && (w / 8) % 2 == press_and_hold
            && (w / 16) % 2 == palm
            && (w / 256) % 16 == swipe
            && (w / 4096) % 16 == swipe_and_hold) by (bit_vector)
            requires
                tap < 8,
                press_and_hold < 2,
                palm < 2,
                swipe < 16,
                swipe_and_hold < 16,
                w == tap + press_and_hold * 8 + palm * 16 + swipe * 256 + swipe_and_hold * 4096,
        ;
    }

    /// The gesture enable word, as a number.
    pub fn to_word(&self) -> (w: u16)
        ensures
            w == self.word(),
    {
        proof {
            reveal(GestureEnable::word);
        }
        self.tap.to_word() as u16
            + (flag_bit(self.press_and_hold) as u16) * 8
            + (flag_bit(self.palm) as u16) * 16
            + (self.swipe.to_word() as u16) * 256
            + (self.swipe_and_hold.to_word() as u16) * 4096
    }

    /// The register bytes: the word, each number least significant byte first.
    pub open spec fn encoding(self) -> Seq<u8> {
        le16_bytes(self.word() as u16)
    }

    /// The value that a register word stands for.
    pub open spec fn of_word(w: int) -> Self {
        GestureEnable {
            tap: Tap::of_word(bits(w, 0, 3)),
            press_and_hold: bits(w, 3, 1) != 0,
            palm: bits(w, 4, 1) != 0,
            swipe: Swipe::of_word(bits(w, 8, 4)),
            swipe_and_hold: Swipe::of_word(bits(w, 12, 4)),
        }
    }

    /// The value that two register bytes stand for.
    pub open spec fn decoding(b: Seq<u8>) -> Self {
        Self::of_word(le16(b[0], b[1]) as int)
    }

    /// The register bytes of the value.
    pub fn to_bytes(&self) -> (b: [u8; 2])
        ensures
            b@ == self.encoding(),
    {
        u16_to_le(self.to_word())
    }

    /// The value that a register word stands for.
    pub fn from_word(w: u16) -> (v: Self)
        ensures
            v == Self::of_word(w as int),
    {
        proof {
            reveal(bits);
        }
        Self {
            tap: Tap::from_word((w % 8) as u8),
            press_and_hold: (w / 8) % 2 != 0,
            palm: (w / 16) % 2 != 0,
            swipe: Swipe::from_word(((w / 256) % 16) as u8),
            swipe_and_hold: Swipe::from_word(((w / 4096) % 16) as u8),
        }
    }

    /// The value that two register bytes stand for.
    pub fn from_bytes(b: [u8; 2]) -> (v: Self)
        ensures
            v == Self::decoding(b@),
    {
        Self::from_word(u16_from_le(b[0], b[1]))
    }

    /// Decoding undoes encoding.
    pub proof fn lemma_roundtrip(self)
        ensures
            self.encoding().len() == 2,
            Self::of_word(self.word()) == self,
            Self::decoding(self.encoding()) == self,
    {
        self.lemma_word_fields();
        reveal(flag);
        self.tap.lemma_roundtrip();
        self.swipe.lemma_roundtrip();
        self.swipe_and_hold.lemma_roundtrip();
    }

    /// No gesture at all.
    pub open spec fn default_value() -> Self {
        GestureEnable {
            tap: Tap::default_value(),
            press_and_hold: false,
            palm: false,
            swipe: Swipe::default_value(),
            swipe_and_hold: Swipe::default_value(),
        }
    }
}

impl Record<2> for GestureEnable {
    open spec fn in_range(&self) -> bool {
        true
    }

    open spec fn bytes(&self) -> Seq<u8> {
        self.encoding()
    }

    open spec fn of_bytes(bytes: Seq<u8>) -> Option<Self> {
        Some(GestureEnable::decoding(bytes))
    }

    fn pack(&self) -> (b: [u8; 2]) {
        self.to_bytes()
    }

    fn unpack(b: [u8; 2]) -> (v: Option<Self>) {
        Some(GestureEnable::from_bytes(b))
    }

    proof fn lemma_of_bytes(&self) {
        self.lemma_roundtrip();
    }
}

impl Default for GestureEnable {
    fn default() -> (v: Self)
        ensures
            v == GestureEnable::default_value(),
    {
        Self::none()
    }
}

/// The tap gestures to report.
#[derive(Debug, Clone, Copy, PartialEq, Eq, Structural)]
pub struct Tap {
    pub single: bool,
    pub double: bool,
    pub triple: bool,
}

impl Tap {
    /// The value with the given fields.
    pub fn new(single: bool, double: bool, triple: bool) -> (v: Self)
        ensures
            v == (Tap { single, double, triple }),
    {
        Self { single, double, triple }
    }

    /// A single tap only.
    pub fn single() -> (v: Self)
        ensures
            v == (Tap { single: true, double: false, triple: false }),
    {
        Self::new(true, false, false)
    }

    /// A double tap only.
    pub fn double() -> (v: Self)
        ensures
            v == (Tap { single: false, double: true, triple: false }),
    {
        Self::new(false, true, false)
    }

    /// A triple tap only.
    pub fn triple() -> (v: Self)
        ensures
            v == (Tap { single: false, double: false, triple: true }),
    {
        Self::new(false, false, true)
    }

    /// Single and double taps.
    pub fn single_and_double() -> (v: Self)
        ensures
            v == (Tap { single: true, double: true, triple: false }),
    {
        Self::new(true, true, false)
    }

    /// Every tap.
    pub fn all() -> (v: Self)
        ensures
            v == (Tap { single: true, double: true, triple: true }),
    {
        Self::new(true, true, true)
    }

    /// No tap.
    pub fn none() -> (v: Self)
        ensures
            v == (Tap { single: false, double: false, triple: false }),
    {
        Self::new(false, false, false)
    }

    /// The value as a 3-bit number: single in bit 0, double in bit 1, triple in
    /// bit 2.
    #[verifier::opaque]
    pub open spec fn word(self) -> int {
        at(flag(self.single), 0)
            + at(flag(self.double), 1)
            + at(flag(self.triple), 2)
    }

    /// The value that the low 3 bits of `w` stand for.
    pub open spec fn of_word(w: int) -> Self {
        Tap {
            single: bits(w, 0, 1) != 0,
            double: bits(w, 1, 1) != 0,
            triple: bits(w, 2, 1) != 0,
        }
    }

    /// The value as the number that its register field holds.
    pub fn to_word(&self) -> (w: u8)
        ensures
            w == self.word(),
            w < 8,
    {
        proof {
            reveal(Tap::word);
        }
        flag_bit(self.single)
            + flag_bit(self.double) * 2
            + flag_bit(self.triple) * 4
    }

    /// The value that the low 3 bits of `w` stand for.
    pub fn from_word(w: u8) -> (v: Self)
        ensures
            v == Self::of_word(w as int),
    {
        proof {
            reveal(bits);
        }
        Self { single: w % 2 != 0, double: (w / 2) % 2 != 0, triple: (w / 4) % 2 != 0 }
    }

    /// Each field of the word is read back from the place it was put.
    pub proof fn lemma_word_fields(self)
        ensures
            0 <= self.word() < 8,
            bits(self.word(), 0, 1) == flag(self.single),
            bits(self.word(), 1, 1) == flag(self.double),
            bits(self.word(), 2, 1) == flag(self.triple),
    {
        reveal(bits);
        reveal(flag);
        reveal(Tap::word);
        let single = flag(self.single) as u16;
        let double = flag(self.double) as u16;
        let triple = flag(self.triple) as u16;
        let w = self.word() as u16;
        assert(w % 2 == single
            && (w / 2) % 2 == double
            && (w / 4) % 2 == triple) by (bit_vector)
            requires
                single < 2,
                double < 2,
                triple < 2,
                w == single + double * 2 + triple * 4,
        ;
    }

    /// Reading the word back gives the value again.
    pub proof fn lemma_roundtrip(self)
        ensures
            0 <= self.word() < 8,
            Self::of_word(self.word()) == self,
    {
        self.lemma_word_fields();
        reveal(flag);
    }

    /// No tap gesture.
    pub open spec fn default_value() -> Self {
        Tap { single: false, double: false, triple: false }
    }
}

impl Default for Tap {
    fn default() -> (v: Self)
        ensures
            v == Tap::default_value(),
    {
        Self::none()
    }
}

/// The swipe directions to report.
#[derive(Debug, Clone, Copy, PartialEq, Eq, Structural)]
pub struct Swipe {
    pub pos_x: bool,
    pub neg_x: bool,
    pub pos_y: bool,
    pub neg_y: bool,
}

impl Swipe {
    /// The value with the given fields.
    pub fn new(pos_x: bool, neg_x: bool, pos_y: bool, neg_y: bool) -> (v: Self)
        ensures
            v == (Swipe { pos_x, neg_x, pos_y, neg_y }),
    {
        Self { pos_x, neg_x, pos_y, neg_y }
    }

    /// Every direction.
    pub fn all() -> (v: Self)
        ensures
            v == (Swipe { pos_x: true, neg_x: true, pos_y: true, neg_y: true }),
    {
        Self::new(true, true, true, true)
    }

    /// Both directions along X.
    pub fn horizontal() -> (v: Self)
        ensures
            v == (Swipe { pos_x: true, neg_x: true, pos_y: false, neg_y: false }),
    {
        Self::new(true, true, false, false)
    }

    /// Both directions along Y.
    pub fn vertical() -> (v: Self)
        ensures
            v == (Swipe { pos_x: false, neg_x: false, pos_y: true, neg_y: true }),
    {
        Self::new(false, false, true, true)
    }

    /// No direction.
    pub fn none() -> (v: Self)
        ensures
            v == (Swipe { pos_x: false, neg_x: false, pos_y: false, neg_y: false }),
    {
        Self::new(false, false, false, false)
    }

    /// The value as a 4-bit number: pos x in bit 0, neg x in bit 1, pos y in
    /// bit 2, neg y in bit 3.
    #[verifier::opaque]
    pub open spec fn word(self) -> int {
        at(flag(self.pos_x), 0)
            + at(flag(self.neg_x), 1)
            + at(flag(self.pos_y), 2)
            + at(flag(self.neg_y), 3)
    }

    /// The value that the low 4 bits of `w` stand for.
    pub open spec fn of_word(w: int) -> Self {
        Swipe {
            pos_x: bits(w, 0, 1) != 0,
            neg_x: bits(w, 1, 1) != 0,
            pos_y: bits(w, 2, 1) != 0,
            neg_y: bits(w, 3, 1) != 0,
        }
    }

    /// The value as the number that its register field holds.
    pub fn to_word(&self) -> (w: u8)
        ensures
            w == self.word(),
            w < 16,
    {
        proof {
            reveal(Swipe::word);
        }
        flag_bit(self.pos_x)
            + flag_bit(self.neg_x) * 2
            + flag_bit(self.pos_y) * 4
            + flag_bit(self.neg_y) * 8
    }

    /// The value that the low 4 bits of `w` stand for.
    pub fn from_word(w: u8) -> (v: Self)
        ensures
            v == Self::of_word(w as int),
    {
        proof {
            reveal(bits);
        }
        Self {
            pos_x: w % 2 != 0,
            neg_x: (w / 2) % 2 != 0,
            pos_y: (w / 4) % 2 != 0,
            neg_y: (w / 8) % 2 != 0,
        }
    }

    /// Each field of the word is read back from the place it was put.
    pub proof fn lemma_word_fields(self)
        ensures
            0 <= self.word() < 16,
            bits(self.word(), 0, 1) == flag(self.pos_x),
            bits(self.word(), 1, 1) == flag(self.neg_x),
            bits(self.word(), 2, 1) == flag(self.pos_y),
            bits(self.word(), 3, 1) == flag(self.neg_y),
    {
        reveal(bits);
        reveal(flag);
        reveal(Swipe::word);
        let pos_x = flag(self.pos_x) as u16;
        let neg_x = flag(self.neg_x) as u16;
        let pos_y = flag(self.pos_y) as u16;
        let neg_y = flag(self.neg_y) as u16;
        let w = self.word() as u16;
        assert(w % 2 == pos_x
            && (w / 2) % 2 == neg_x
            && (w / 4) % 2 == pos_y
            && (w / 8) % 2 == neg_y) by (bit_vector)
            requires
                pos_x < 2,
                neg_x < 2,
                pos_y < 2,
                neg_y < 2,
                w == pos_x + neg_x * 2 + pos_y * 4 + neg_y * 8,
        ;
    }

    /// Reading the word back gives the value again.
    pub proof fn lemma_roundtrip(self)
        ensures
            0 <= self.word() < 16,
            Self::of_word(self.word()) == self,
    {
        self.lemma_word_fields();
        reveal(flag);
    }

    /// No swipe direction.
    pub open spec fn default_value() -> Self {
        Swipe { pos_x: false, neg_x: false, pos_y: false, neg_y: false }
    }
}

impl Default for Swipe {
    fn default() -> (v: Self)
        ensures
            v == Swipe::default_value(),
    {
        Self::none()
    }
}

/// Limits of a tap: the longest touch and the longest pause between taps, in
/// milliseconds, and the farthest movement, in pixels.
#[derive(Debug, Clone, Copy, PartialEq, Eq, Structural)]
pub struct TapConfig {
    pub duration: u16,
    pub air_duration: u16,
    pub distance: u16,
}

impl TapConfig {
    /// The value with the given fields.
    pub fn new(duration: u16, air_duration: u16, distance: u16) -> (v: Self)
        ensures
            v == (TapConfig { duration, air_duration, distance }),
    {
        Self { duration, air_duration, distance }
    }

    /// The register bytes: duration, air duration, distance, each number least
    /// significant byte first.
    pub open spec fn encoding(self) -> Seq<u8> {
        le16_bytes(self.duration) + le16_bytes(self.air_duration) + le16_bytes(self.distance)
    }

    /// The value that six register bytes stand for.
    pub open spec fn decoding(b: Seq<u8>) -> Self {
        TapConfig {
            duration: le16(b[0], b[1]),
            air_duration: le16(b[2], b[3]),
            distance: le16(b[4], b[5]),
        }
    }

    /// The register bytes of the value.
    pub fn to_bytes(&self) -> (b: [u8; 6])
        ensures
            b@ == self.encoding(),
    {
        let duration = u16_to_le(self.duration);
        let air_duration = u16_to_le(self.air_duration);
        let distance = u16_to_le(self.distance);
        let b = [
            duration[0], duration[1], air_duration[0], air_duration[1], distance[0], distance[1],
        ];
        assert(b@ =~= self.encoding());
        b
    }

    /// The value that six register bytes stand for.
    pub fn from_bytes(b: [u8; 6]) -> (v: Self)
        ensures
            v == Self::decoding(b@),
    {
        Self {
            duration: u16_from_le(b[0], b[1]),
            air_duration: u16_from_le(b[2], b[3]),
            distance: u16_from_le(b[4], b[5]),
        }
    }

    /// Decoding undoes encoding.
    pub proof fn lemma_roundtrip(self)
        ensures
            self.encoding().len() == 6,
            Self::decoding(self.encoding()) == self,
    {
    }

    /// The reference limits of a tap.
    pub open spec fn default_value() -> Self {
        TapConfig { duration: 150, air_duration: 150, distance: 50 }
    }
}

impl Record<6> for TapConfig {
    open spec fn in_range(&self) -> bool {
        true
    }

    open spec fn bytes(&self) -> Seq<u8> {
        self.encoding()
    }

    open spec fn of_bytes(bytes: Seq<u8>) -> Option<Self> {
        Some(TapConfig::decoding(bytes))
    }

    fn pack(&self) -> (b: [u8; 6]) {
        self.to_bytes()
    }

    fn unpack(b: [u8; 6]) -> (v: Option<Self>) {
        Some(TapConfig::from_bytes(b))
    }

    proof fn lemma_of_bytes(&self) {
        self.lemma_roundtrip();
    }
}

impl Default for TapConfig {
    fn default() -> (v: Self)
        ensures
            v == TapConfig::default_value(),
    {
        Self::new(150, 150, 50)
    }
}

/// Limits of a swipe: the longest duration in milliseconds, the shortest
/// distances in pixels for a first and for a consecutive swipe on each axis,
/// and the widest angle off the axis, as 64 times its tangent.
#[derive(Debug, Clone, Copy, PartialEq, Eq, Structural)]
pub struct SwipeConfig {
    pub duration: u16,
    pub distance_x: u16,
    pub distance_y: u16,
    pub consecutive_distance_x: u16,
    pub consecutive_distance_y: u16,
    pub angle: u8,
}

impl SwipeConfig {
    /// The value with the given fields.
    pub fn new(
        duration: u16,
        distance_x: u16,
        distance_y: u16,
        consecutive_distance_x: u16,
        consecutive_distance_y: u16,
        angle: u8,
    ) -> (v: Self)
        ensures
            v == (SwipeConfig {
                duration,
                distance_x,
                distance_y,
                consecutive_distance_x,
                consecutive_distance_y,
                angle,
            }),
    {
        Self {
            duration,
            distance_x,
            distance_y,
            consecutive_distance_x,
            consecutive_distance_y,
            angle,
        }
    }

    /// The same distances on both axes.
    pub fn symmetric(duration: u16, distance: u16, consecutive_distance: u16, angle: u8) -> (v: Self)
        ensures
            v == (SwipeConfig {
                duration,
                distance_x: distance,
                distance_y: distance,
                consecutive_distance_x: consecutive_distance,
                consecutive_distance_y: consecutive_distance,
                angle,
            }),
    {
        Self::new(duration, distance, distance, consecutive_distance, consecutive_distance, angle)
    }

    /// The same settings with another duration.
    pub fn with_duration(self, duration: u16) -> (v: Self)
        ensures
            v == (SwipeConfig { duration, ..self }),
    {
        SwipeConfig { duration, ..self }
    }

    /// The same settings with the given distance.
    pub fn with_distance(self, distance_x: u16, distance_y: u16) -> (v: Self)
        ensures
            v == (SwipeConfig { distance_x, distance_y, ..self }),
    {
        SwipeConfig { distance_x, distance_y, ..self }
    }

    /// The same settings with another angle.
    pub fn with_angle(self, angle: u8) -> (v: Self)
        ensures
            v == (SwipeConfig { angle, ..self }),
    {
        SwipeConfig { angle, ..self }
    }

    /// The same settings with the given consecutive distance.
    pub fn with_consecutive_distance(self, distance_x: u16, distance_y: u16) -> (v: Self)
        ensures
            v == (SwipeConfig {
                consecutive_distance_x: distance_x,
                consecutive_distance_y: distance_y,
                ..self
            }),
    {
        SwipeConfig {
            consecutive_distance_x: distance_x,
            consecutive_distance_y: distance_y,
            ..self
        }
    }

    /// The register bytes: duration, distance x, distance y, consecutive
    /// distance x, consecutive distance y, angle, each number least significant
    /// byte first.
    pub open spec fn encoding(self) -> Seq<u8> {
        le16_bytes(self.duration)
            + le16_bytes(self.distance_x)
            + le16_bytes(self.distance_y)
            + le16_bytes(self.consecutive_distance_x)
            + le16_bytes(self.consecutive_distance_y)
            + seq![self.angle]
    }

    /// The value that eleven register bytes stand for.
    pub open spec fn decoding(b: Seq<u8>) -> Self {
        SwipeConfig {
            duration: le16(b[0], b[1]),
            distance_x: le16(b[2], b[3]),
            distance_y: le16(b[4], b[5]),
            consecutive_distance_x: le16(b[6], b[7]),
            consecutive_distance_y: le16(b[8], b[9]),
            angle: b[10],
        }
    }

    /// The register bytes of the value.
    pub fn to_bytes(&self) -> (b: [u8; 11])
        ensures
            b@ == self.encoding(),
    {
        let duration = u16_to_le(self.duration);
        let distance_x = u16_to_le(self.distance_x);
        let distance_y = u16_to_le(self.distance_y);
        let consecutive_distance_x = u16_to_le(self.consecutive_distance_x);
        let consecutive_distance_y = u16_to_le(self.consecutive_distance_y);
        let b = [
            duration[0], duration[1], distance_x[0], distance_x[1], distance_y[0], distance_y[1],
            consecutive_distance_x[0], consecutive_distance_x[1],
            consecutive_distance_y[0], consecutive_distance_y[1], self.angle,
        ];
        assert(b@ =~= self.encoding());
        b
    }

    /// The value that eleven register bytes stand for.
    pub fn from_bytes(b: [u8; 11]) -> (v: Self)
        ensures
            v == Self::decoding(b@),
    {
        Self {
            duration: u16_from_le(b[0], b[1]),
            distance_x: u16_from_le(b[2], b[3]),
            distance_y: u16_from_le(b[4], b[5]),
            consecutive_distance_x: u16_from_le(b[6], b[7]),
            consecutive_distance_y: u16_from_le(b[8], b[9]),
            angle: b[10],
        }
    }

    /// Decoding undoes encoding.
    pub proof fn lemma_roundtrip(self)
        ensures
            self.encoding().len() == 11,
            Self::decoding(self.encoding()) == self,
    {
    }

    /// The reference limits of a swipe.
    pub open spec fn default_value() -> Self {
        SwipeConfig {
            duration: 150,
            distance_x: 200,
            distance_y: 200,
            consecutive_distance_x: 100,
            consecutive_distance_y: 100,
            angle: 23,
        }
    }
}

impl Record<11> for SwipeConfig {
    open spec fn in_range(&self) -> bool {
        true
    }

    open spec fn bytes(&self) -> Seq<u8> {
        self.encoding()
    }

    open spec fn of_bytes(bytes: Seq<u8>) -> Option<Self> {
        Some(SwipeConfig::decoding(bytes))
    }

    fn pack(&self) -> (b: [u8; 11]) {
        self.to_bytes()
    }

    fn unpack(b: [u8; 11]) -> (v: Option<Self>) {
        Some(SwipeConfig::from_bytes(b))
    }

    proof fn lemma_of_bytes(&self) {
        self.lemma_roundtrip();
    }
}

impl Default for SwipeConfig {
    fn default() -> (v: Self)
        ensures
            v == SwipeConfig::default_value(),
    {
        Self::new(150, 200, 200, 100, 100, 23)
    }
}

} // verus!
