//! Reports of the gesture, status and finger registers.

use crate::control::system_control::ChargeMode;
use crate::rw::Record;
use crate::wire::{at, bits, field, flag, flag_bit, le16, le16_bytes, u16_from_le, u16_to_le};
use crate::Error;
use vstd::prelude::*;

verus! {

/// One reading of the gesture, status and finger registers.
#[derive(Debug, Clone, Copy, PartialEq, Eq)]
pub struct Report {
    pub gesture: Option<Gesture>,
    pub info: InfoFlags,
    pub fingers: (Finger, Finger),
}

impl Report {
    pub fn new(gesture: Option<Gesture>, info: InfoFlags, fingers: (Finger, Finger)) -> (r: Self)
        ensures
            r == (Report { gesture, info, fingers }),
    {
        Self { gesture, info, fingers }
    }

    /// The contact in the primary slot.
    pub fn primary_finger(&self) -> (f: Finger)
        ensures
            f == self.fingers.0,
    {
        self.fingers.0
    }

    /// The contact in the secondary slot.
    pub fn secondary_finger(&self) -> (f: Finger)
        ensures
            f == self.fingers.1,
    {
        self.fingers.1
    }

    /// The contacts of both slots, the primary first.
    pub fn fingers(&self) -> (f: (Finger, Finger))
        ensures
            f == self.fingers,
    {
        self.fingers
    }

    /// The report that the register contents stand for: the gesture
    /// register, the bytes of the status register and the bytes of the two
    /// finger blocks. Status bytes that stand for no status are an error.
    pub open spec fn decoding<E>(
        gesture: u16,
        info: Seq<u8>,
        primary: Seq<u8>,
        secondary: Seq<u8>,
    ) -> Result<Report, Error<E>> {
        match InfoFlags::decoding(info) {
            Some(info) => Ok(
                Report {
                    gesture: Gesture::from_code(gesture),
                    info,
                    fingers: (Finger::decoding(primary), Finger::decoding(secondary)),
                },
            ),
            None => Err(Error::BufferOverflow),
        }
    }

    pub fn from_registers<E>(gesture: u16, info: [u8; 2], primary: [u8; 8], secondary: [u8; 8]) -> (r:
        Result<Report, Error<E>>)
        ensures
            r == Report::decoding::<E>(gesture, info@, primary@, secondary@),
    {
        match InfoFlags::from_bytes(info) {
            Some(info) => Ok(
                Report::new(
                    Gesture::from_code(gesture),
                    info,
                    (Finger::from_bytes(primary), Finger::from_bytes(secondary)),
                ),
            ),
            None => Err(Error::BufferOverflow),
        }
    }
}

/// Position, strength and area of one contact. The position (0xFFFF, 0xFFFF)
/// stands for no contact.
#[derive(Debug, Clone, Copy, PartialEq, Eq, Structural)]
pub struct Finger {
    pub x: u16,
    pub y: u16,
    pub strength: u16,
    pub area: u16,
}

impl Finger {
    /// The value with the given fields.
    pub fn new(x: u16, y: u16, strength: u16, area: u16) -> (v: Self)
        ensures
            v == (Finger { x, y, strength, area }),
    {
        Self { x, y, strength, area }
    }

    /// The value that stands for no contact.
    pub open spec fn spec_absent() -> Finger {
        Finger { x: 0xFFFF, y: 0xFFFF, strength: 0, area: 0 }
    }

    /// The value that stands for no contact.
    #[verifier::when_used_as_spec(spec_absent)]
    pub fn absent() -> (v: Self)
        ensures
            v == Finger::spec_absent(),
    {
        Self::new(0xFFFF, 0xFFFF, 0, 0)
    }

    /// Whether the value stands for a contact.
    pub open spec fn spec_is_present(&self) -> bool {
        !(self.x == 0xFFFF && self.y == 0xFFFF)
    }

    /// Whether the value stands for a contact.
    #[verifier::when_used_as_spec(spec_is_present)]
    pub fn is_present(&self) -> (p: bool)
        ensures
            p == self.spec_is_present(),
    {
        !(self.x == 0xFFFF && self.y == 0xFFFF)
    }

    /// The register bytes: x, y, strength, area, each number least significant
    /// byte first.
    pub open spec fn encoding(self) -> Seq<u8> {
        le16_bytes(self.x)
            + le16_bytes(self.y)
            + le16_bytes(self.strength)
            + le16_bytes(self.area)
    }

    /// The value that eight register bytes stand for.
    pub open spec fn decoding(b: Seq<u8>) -> Self {
        Finger {
            x: le16(b[0], b[1]),
            y: le16(b[2], b[3]),
            strength: le16(b[4], b[5]),
            area: le16(b[6], b[7]),
        }
    }

    /// The register bytes of the value.
    pub fn to_bytes(&self) -> (b: [u8; 8])
        ensures
            b@ == self.encoding(),
    {
        let x = u16_to_le(self.x);
        let y = u16_to_le(self.y);
        let strength = u16_to_le(self.strength);
        let area = u16_to_le(self.area);
        let b = [x[0], x[1], y[0], y[1], strength[0], strength[1], area[0], area[1]];
        assert(b@ =~= self.encoding());
        b
    }

    /// The value that eight register bytes stand for.
    pub fn from_bytes(b: [u8; 8]) -> (v: Self)
        ensures
            v == Self::decoding(b@),
    {
        Self {
            x: u16_from_le(b[0], b[1]),
            y: u16_from_le(b[2], b[3]),
            strength: u16_from_le(b[4], b[5]),
            area: u16_from_le(b[6], b[7]),
        }
    }

    /// Decoding undoes encoding.
    pub proof fn lemma_roundtrip(self)
        ensures
            self.encoding().len() == 8,
            Self::decoding(self.encoding()) == self,
    {
    }
}

impl Record<8> for Finger {
    open spec fn in_range(&self) -> bool {
        true
    }

    open spec fn bytes(&self) -> Seq<u8> {
        self.encoding()
    }

    open spec fn of_bytes(bytes: Seq<u8>) -> Option<Self> {
        Some(Finger::decoding(bytes))
    }

    fn pack(&self) -> (b: [u8; 8]) {
        self.to_bytes()
    }

    fn unpack(b: [u8; 8]) -> (v: Option<Self>) {
        Some(Finger::from_bytes(b))
    }

    proof fn lemma_of_bytes(&self) {
        self.lemma_roundtrip();
    }
}

impl Default for Finger {
    fn default() -> (v: Self)
        ensures
            v == Finger::absent(),
    {
        Self::absent()
    }
}

/// A flag of the gesture register. The register holds at most one.
#[derive(Debug, Clone, Copy, PartialEq, Eq, Structural)]
pub enum Gesture {
    SingleTap,
    DoubleTap,
    TripleTap,
    PressHold,
    Palm,
    SwipeXPositive,
    SwipeXNegative,
    SwipeYPositive,
    SwipeYNegative,
    SwipeHoldXPositive,
    SwipeHoldXNegative,
    SwipeHoldYPositive,
    SwipeHoldYNegative,
}

impl Gesture {
    /// The register value with the gesture's flag as its only set bit.
    pub open spec fn spec_code(self) -> u16 {
        match self {
            Gesture::SingleTap => 0x0001,
            Gesture::DoubleTap => 0x0002,
            Gesture::TripleTap => 0x0004,
            Gesture::PressHold => 0x0008,
            Gesture::Palm => 0x0010,
            Gesture::SwipeXPositive => 0x0100,
            Gesture::SwipeXNegative => 0x0200,
            Gesture::SwipeYPositive => 0x0400,
            Gesture::SwipeYNegative => 0x0800,
            Gesture::SwipeHoldXPositive => 0x1000,
            Gesture::SwipeHoldXNegative => 0x2000,
            Gesture::SwipeHoldYPositive => 0x4000,
            Gesture::SwipeHoldYNegative => 0x8000,
        }
    }

    /// The register value with the gesture's flag as its only set bit.
    #[verifier::when_used_as_spec(spec_code)]
    pub fn code(self) -> (c: u16)
        ensures
            c == self.spec_code(),
    {
        match self {
            Gesture::SingleTap => 0x0001,
            Gesture::DoubleTap => 0x0002,
            Gesture::TripleTap => 0x0004,
            Gesture::PressHold => 0x0008,
            Gesture::Palm => 0x0010,
            Gesture::SwipeXPositive => 0x0100,
            Gesture::SwipeXNegative => 0x0200,
            Gesture::SwipeYPositive => 0x0400,
            Gesture::SwipeYNegative => 0x0800,
            Gesture::SwipeHoldXPositive => 0x1000,
            Gesture::SwipeHoldXNegative => 0x2000,
            Gesture::SwipeHoldYPositive => 0x4000,
            Gesture::SwipeHoldYNegative => 0x8000,
        }
    }

    /// The gesture whose flag is the only set bit of `code`. Zero, several
    /// flags at once and bits that are no flag stand for no gesture.
    pub open spec fn spec_from_code(code: u16) -> Option<Gesture> {
        match code {
            0x0001 => Some(Gesture::SingleTap),
            0x0002 => Some(Gesture::DoubleTap),
            0x0004 => Some(Gesture::TripleTap),
            0x0008 => Some(Gesture::PressHold),
            0x0010 => Some(Gesture::Palm),
            0x0100 => Some(Gesture::SwipeXPositive),
            0x0200 => Some(Gesture::SwipeXNegative),
            0x0400 => Some(Gesture::SwipeYPositive),
            0x0800 => Some(Gesture::SwipeYNegative),
            0x1000 => Some(Gesture::SwipeHoldXPositive),
            0x2000 => Some(Gesture::SwipeHoldXNegative),
            0x4000 => Some(Gesture::SwipeHoldYPositive),
            0x8000 => Some(Gesture::SwipeHoldYNegative),
            _ => None,
        }
    }

    /// The gesture whose flag is the only set bit of `code`. Zero, several
    /// flags at once and bits that are no flag stand for no gesture.
    #[verifier::when_used_as_spec(spec_from_code)]
    pub fn from_code(code: u16) -> (g: Option<Gesture>)
        ensures
            g == Gesture::spec_from_code(code),
    {
        match code {
            0x0001 => Some(Gesture::SingleTap),
            0x0002 => Some(Gesture::DoubleTap),
            0x0004 => Some(Gesture::TripleTap),
            0x0008 => Some(Gesture::PressHold),
            0x0010 => Some(Gesture::Palm),
            0x0100 => Some(Gesture::SwipeXPositive),
            0x0200 => Some(Gesture::SwipeXNegative),
            0x0400 => Some(Gesture::SwipeYPositive),
            0x0800 => Some(Gesture::SwipeYNegative),
            0x1000 => Some(Gesture::SwipeHoldXPositive),
            0x2000 => Some(Gesture::SwipeHoldXNegative),
            0x4000 => Some(Gesture::SwipeHoldYPositive),
            0x8000 => Some(Gesture::SwipeHoldYNegative),
            _ => None,
        }
    }

    /// A register value stands for a gesture exactly if it is that
    /// gesture's own code, so no value stands for two gestures.
    pub proof fn lemma_code_exclusive(self, code: u16)
        ensures
            Gesture::from_code(code) == Some(self) <==> code == self.code(),
            Gesture::from_code(0) is None,
    {
    }
}

/// The finger count of the status flags.
#[derive(Debug, Clone, Copy, PartialEq, Eq, Structural)]
pub enum NumFingers {
    Zero,
    One,
    Two,
    Reserved(u8),
}

impl NumFingers {
    /// The count that the low two bits of `bits` stand for. The pattern
    /// that names no count is kept as it is.
    pub open spec fn spec_from_bits(bits: u8) -> NumFingers {
        match bits % 4 {
            0 => NumFingers::Zero,
            1 => NumFingers::One,
            2 => NumFingers::Two,
            other => NumFingers::Reserved(other as u8),
        }
    }

    /// The count that the low two bits of `bits` stand for. The pattern
    /// that names no count is kept as it is.
    #[verifier::when_used_as_spec(spec_from_bits)]
    pub fn from_bits(bits: u8) -> (n: NumFingers)
        ensures
            n == NumFingers::spec_from_bits(bits),
            n matches NumFingers::Reserved(other) ==> other == 3,
    {
        match bits % 4 {
            0 => NumFingers::Zero,
            1 => NumFingers::One,
            2 => NumFingers::Two,
            other => NumFingers::Reserved(other),
        }
    }
}

/// Status flags of the device, under the names of the data sheet.
#[derive(Debug, Clone, Copy, PartialEq, Eq, Structural)]
pub struct InfoFlags {
    pub charge_mode: ChargeMode,
    pub auto_tuning_error: bool,
    pub re_auto_tuning_occurred: bool,
    pub low_power_auto_tuning_error: bool,
    pub low_power_re_auto_tuning_occurred: bool,
    pub show_reset: bool,
    /// Two bits.
    pub num_fingers: u8,
    pub trackpad_movement: bool,
    pub too_many_fingers: bool,
    pub low_power_output: bool,
}

impl InfoFlags {
    /// Every field fits the bits that the registers give it.
    pub open spec fn valid(self) -> bool {
        self.num_fingers < 4
    }

    /// The status word: charge mode in bits 0 to 2, auto tuning error in bit 3,
    /// re auto tuning occurred in bit 4, low power auto tuning error in bit 5,
    /// low power re auto tuning occurred in bit 6, show reset in bit 7, num
    /// fingers in bits 8 to 9, trackpad movement in bit 10, too many fingers in
    /// bit 12, low power output in bit 14.
    #[verifier::opaque]
    pub open spec fn word(self) -> int {
        at(self.charge_mode.to_bits() as int, 0)
            + at(flag(self.auto_tuning_error), 3)
            + at(flag(self.re_auto_tuning_occurred), 4)
            + at(flag(self.low_power_auto_tuning_error), 5)
            + at(flag(self.low_power_re_auto_tuning_occurred), 6)
            + at(flag(self.show_reset), 7)
            + field(self.num_fingers as int, 8, 2)
            + at(flag(self.trackpad_movement), 10)
            + at(flag(self.too_many_fingers), 12)
            + at(flag(self.low_power_output), 14)
    }

    /// Each field of the word is read back from the place it was put.
    pub proof fn lemma_word_fields(self)
        ensures
            0 <= self.word() < 65536,
            bits(self.word(), 0, 3) == self.charge_mode.to_bits(),
            bits(self.word(), 3, 1) == flag(self.auto_tuning_error),
            bits(self.word(), 4, 1) == flag(self.re_auto_tuning_occurred),
            bits(self.word(), 5, 1) == flag(self.low_power_auto_tuning_error),
            bits(self.word(), 6, 1) == flag(self.low_power_re_auto_tuning_occurred),
            bits(self.word(), 7, 1) == flag(self.show_reset),
            bits(self.word(), 8, 2) == self.num_fingers % 4,
            bits(self.word(), 10, 1) == flag(self.trackpad_movement),
            bits(self.word(), 12, 1) == flag(self.too_many_fingers),
            bits(self.word(), 14, 1) == flag(self.low_power_output),
    {
        reveal(bits);
        reveal(flag);
        reveal(InfoFlags::word);
        self.charge_mode.lemma_bits();
        let charge_mode = self.charge_mode.to_bits() as u16;
        let auto_tuning_error = flag(self.auto_tuning_error) as u16;
        let re_auto_tuning_occurred = flag(self.re_auto_tuning_occurred) as u16;
        let low_power_auto_tuning_error = flag(self.low_power_auto_tuning_error) as u16;
        let low_power_re_auto_tuning_occurred = flag(self.low_power_re_auto_tuning_occurred) as u16;
        let show_reset = flag(self.show_reset) as u16;
        let num_fingers = (self.num_fingers % 4) as u16;
        let trackpad_movement = flag(self.trackpad_movement) as u16;
        let too_many_fingers = flag(self.too_many_fingers) as u16;
        let low_power_output = flag(self.low_power_output) as u16;
        let w = self.word() as u16;
        assert(w % 8 == charge_mode
            && (w / 8) % 2 == auto_tuning_error
            && (w / 16) % 2 == re_auto_tuning_occurred
            && (w / 32) % 2 == low_power_auto_tuning_error
            && (w / 64) % 2 == low_power_re_auto_tuning_occurred
            && (w / 128) % 2 == show_reset
            && (w / 256) % 4 == num_fingers
            && (w / 1024) % 2 == trackpad_movement
            && (w / 4096) % 2 == too_many_fingers
            && (w / 16384) % 2 == low_power_output) by (bit_vector)
            requires
                charge_mode < 8,
                auto_tuning_error < 2,
                re_auto_tuning_occurred < 2,
                low_power_auto_tuning_error < 2,
                low_power_re_auto_tuning_occurred < 2,
                show_reset < 2,
                num_fingers < 4,
                trackpad_movement < 2,
                too_many_fingers < 2,
                low_power_output < 2,
                w == charge_mode
                    + auto_tuning_error * 8
                    + re_auto_tuning_occurred * 16
                    + low_power_auto_tuning_error * 32
                    + low_power_re_auto_tuning_occurred * 64
                    + show_reset * 128
                    + num_fingers * 256
                    + trackpad_movement * 1024
                    + too_many_fingers * 4096
                    + low_power_output * 16384,
        ;
    }

    /// The status word, as a number.
    pub fn to_word(&self) -> (w: u16)
        ensures
            w == self.word(),
    {
        proof {
            reveal(InfoFlags::word);
        }
        self.charge_mode.to_bits() as u16
            + (flag_bit(self.auto_tuning_error) as u16) * 8
            + (flag_bit(self.re_auto_tuning_occurred) as u16) * 16
            + (flag_bit(self.low_power_auto_tuning_error) as u16) * 32
            + (flag_bit(self.low_power_re_auto_tuning_occurred) as u16) * 64
            + (flag_bit(self.show_reset) as u16) * 128
            + ((self.num_fingers % 4) as u16) * 256
            + (flag_bit(self.trackpad_movement) as u16) * 1024
            + (flag_bit(self.too_many_fingers) as u16) * 4096
            + (flag_bit(self.low_power_output) as u16) * 16384
    }

    /// The register bytes: the word, each number least significant byte first.
    pub open spec fn encoding(self) -> Seq<u8> {
        le16_bytes(self.word() as u16)
    }

    /// The value that a register word stands for, if it stands for one.
    pub open spec fn of_word(w: int) -> Option<Self> {
        match ChargeMode::from_bits(bits(w, 0, 3) as u8) {
            Some(charge_mode) => Some(InfoFlags {
                charge_mode,
                auto_tuning_error: bits(w, 3, 1) != 0,
                re_auto_tuning_occurred: bits(w, 4, 1) != 0,
                low_power_auto_tuning_error: bits(w, 5, 1) != 0,
                low_power_re_auto_tuning_occurred: bits(w, 6, 1) != 0,
                show_reset: bits(w, 7, 1) != 0,
                num_fingers: bits(w, 8, 2) as u8,
                trackpad_movement: bits(w, 10, 1) != 0,
                too_many_fingers: bits(w, 12, 1) != 0,
                low_power_output: bits(w, 14, 1) != 0,
            }),
            None => None,
        }
    }

    /// The value that two register bytes stand for, if they stand for one.
    pub open spec fn decoding(b: Seq<u8>) -> Option<Self> {
        Self::of_word(le16(b[0], b[1]) as int)
    }

    /// The register bytes of the value.
    pub fn to_bytes(&self) -> (b: [u8; 2])
        ensures
            b@ == self.encoding(),
    {
        u16_to_le(self.to_word())
    }

    /// The value that a register word stands for, if it stands for one.
    pub fn from_word(w: u16) -> (v: Option<Self>)
        ensures
            v == Self::of_word(w as int),
    {
        proof {
            reveal(bits);
        }
        match ChargeMode::from_bits((w % 8) as u8) {
            Some(charge_mode) => Some(Self {
                charge_mode,
                auto_tuning_error: (w / 8) % 2 != 0,
                re_auto_tuning_occurred: (w / 16) % 2 != 0,
                low_power_auto_tuning_error: (w / 32) % 2 != 0,
                low_power_re_auto_tuning_occurred: (w / 64) % 2 != 0,
                show_reset: (w / 128) % 2 != 0,
                num_fingers: ((w / 256) % 4) as u8,
                trackpad_movement: (w / 1024) % 2 != 0,
                too_many_fingers: (w / 4096) % 2 != 0,
                low_power_output: (w / 16384) % 2 != 0,
            }),
            None => None,
        }
    }

    /// The value that two register bytes stand for, if they stand for one.
    pub fn from_bytes(b: [u8; 2]) -> (v: Option<Self>)
        ensures
            v == Self::decoding(b@),
    {
        Self::from_word(u16_from_le(b[0], b[1]))
    }

    /// Decoding undoes encoding, for fields within their bits.
    pub proof fn lemma_roundtrip(self)
        requires
            self.valid(),
        ensures
            self.encoding().len() == 2,
            Self::of_word(self.word()) == Some(self),
            Self::decoding(self.encoding()) == Some(self),
    {
        self.lemma_word_fields();
        reveal(flag);
        self.charge_mode.lemma_bits();
    }
}

impl Record<2> for InfoFlags {
    open spec fn in_range(&self) -> bool {
        self.valid()
    }

    open spec fn bytes(&self) -> Seq<u8> {
        self.encoding()
    }

    open spec fn of_bytes(bytes: Seq<u8>) -> Option<Self> {
        InfoFlags::decoding(bytes)
    }

    fn pack(&self) -> (b: [u8; 2]) {
        self.to_bytes()
    }

    fn unpack(b: [u8; 2]) -> (v: Option<Self>) {
        InfoFlags::from_bytes(b)
    }

    proof fn lemma_of_bytes(&self) {
        self.lemma_roundtrip();
    }
}

} // verus!
