//! The configuration settings register, and the changes made to it.

use crate::Iqs7211e;
use crate::rw::Record;
use crate::wire::{at, bits, flag, flag_bit, le16, le16_bytes, u16_from_le, u16_to_le};
use vstd::prelude::*;

verus! {

impl Iqs7211e {
    /// The configuration settings register with another interrupt mode.
    pub fn set_interrupt_mode(raw: [u8; 2], mode: InterruptMode) -> (b: [u8; 2])
        ensures
            b@ == (ConfigSettings { interrupt_mode: mode, ..ConfigSettings::decoding(raw@) }).encoding(),
    {
        ConfigSettings { interrupt_mode: mode, ..ConfigSettings::from_bytes(raw) }.to_bytes()
    }

    /// The configuration settings register with manual control switched on
    /// or off.
    pub fn set_manual_control(raw: [u8; 2], enable: bool) -> (b: [u8; 2])
        ensures
            b@ == (ConfigSettings { manual_control: enable, ..ConfigSettings::decoding(raw@) }).encoding(),
    {
        ConfigSettings { manual_control: enable, ..ConfigSettings::from_bytes(raw) }.to_bytes()
    }

    /// The settings that the bytes of the configuration settings register
    /// stand for.
    pub fn config_settings(raw: [u8; 2]) -> (settings: ConfigSettings)
        ensures
            settings == ConfigSettings::decoding(raw@),
    {
        ConfigSettings::from_bytes(raw)
    }
}

/// The configuration settings register.
#[derive(Debug, Clone, Copy, PartialEq, Eq, Structural)]
pub struct ConfigSettings {
    pub trackpad_autotune: bool,
    pub alp_autotune: bool,
    pub comms_request: bool,
    pub watchdog: bool,
    pub end_comms: bool,
    pub manual_control: bool,
    pub interrupt_mode: InterruptMode,
    pub event_triggers: EventTriggers,
}

impl ConfigSettings {
    /// The settings word: trackpad autotune in bit 2, alp autotune in bit 3,
    /// comms request in bit 4, watchdog in bit 5, end comms in bit 6, manual
    /// control in bit 7, interrupt mode in bit 8, event triggers in bits 9 to
    /// 14.
    #[verifier::opaque]
    pub open spec fn word(self) -> int {
        at(flag(self.trackpad_autotune), 2)
            + at(flag(self.alp_autotune), 3)
            + at(flag(self.comms_request), 4)
            + at(flag(self.watchdog), 5)
            + at(flag(self.end_comms), 6)
            + at(flag(self.manual_control), 7)
            + at(self.interrupt_mode.to_bits() as int, 8)
            + at(self.event_triggers.word(), 9)
    }

    /// Each field of the word is read back from the place it was put.
    pub proof fn lemma_word_fields(self)
        ensures
            0 <= self.word() < 65536,
            bits(self.word(), 2, 1) == flag(self.trackpad_autotune),
            bits(self.word(), 3, 1) == flag(self.alp_autotune),
            bits(self.word(), 4, 1) == flag(self.comms_request),
            bits(self.word(), 5, 1) == flag(self.watchdog),
            bits(self.word(), 6, 1) == flag(self.end_comms),
            bits(self.word(), 7, 1) == flag(self.manual_control),
            bits(self.word(), 8, 1) == self.interrupt_mode.to_bits(),
            bits(self.word(), 9, 6) == self.event_triggers.word(),
    {
        reveal(bits);
        reveal(flag);
        reveal(ConfigSettings::word);
        self.interrupt_mode.lemma_bits();
        self.event_triggers.lemma_roundtrip();
        let trackpad_autotune = flag(self.trackpad_autotune) as u16;
        let alp_autotune = flag(self.alp_autotune) as u16;
        let comms_request = flag(self.comms_request) as u16;
        let watchdog = flag(self.watchdog) as u16;
        let end_comms = flag(self.end_comms) as u16;
        let manual_control = flag(self.manual_control) as u16;
        let interrupt_mode = self.interrupt_mode.to_bits() as u16;
        let event_triggers = self.event_triggers.word() as u16;
        let w = self.word() as u16;
        assert((w / 4) % 2 == trackpad_autotune
            && (w / 8) % 2 == alp_autotune
            && (w / 16) % 2 == comms_request
            && (w / 32) % 2 == watchdog
            && (w / 64) % 2 == end_comms
            && (w / 128) % 2 == manual_control
            && (w / 256) % 2 == interrupt_mode
            && (w / 512) % 64 == event_triggers) by (bit_vector)
            requires
                trackpad_autotune < 2,
                alp_autotune < 2,
                comms_request < 2,
                watchdog < 2,
                end_comms < 2,
                manual_control < 2,
                interrupt_mode < 2,
                event_triggers < 64,
                w == trackpad_autotune * 4
                    + alp_autotune * 8
                    + comms_request * 16
                    + watchdog * 32
                    + end_comms * 64
                    + manual_control * 128
                    + interrupt_mode * 256
                    + event_triggers * 512,
        ;
    }

    /// The settings word, as a number.
    pub fn to_word(&self) -> (w: u16)
        ensures
            w == self.word(),
    {
        proof {
            reveal(ConfigSettings::word);
        }
        (flag_bit(self.trackpad_autotune) as u16) * 4
            + (flag_bit(self.alp_autotune) as u16) * 8
            + (flag_bit(self.comms_request) as u16) * 16
            + (flag_bit(self.watchdog) as u16) * 32
            + (flag_bit(self.end_comms) as u16) * 64
            + (flag_bit(self.manual_control) as u16) * 128
            + (self.interrupt_mode.to_bits() as u16) * 256
            + (self.event_triggers.to_word() as u16) * 512
    }

    /// The register bytes: the word, each number least significant byte first.
    pub open spec fn encoding(self) -> Seq<u8> {
        le16_bytes(self.word() as u16)
    }

    /// The value that a register word stands for.
    pub open spec fn of_word(w: int) -> Self {
        ConfigSettings {
            trackpad_autotune: bits(w, 2, 1) != 0,
            alp_autotune: bits(w, 3, 1) != 0,
            comms_request: bits(w, 4, 1) != 0,
            watchdog: bits(w, 5, 1) != 0,
            end_comms: bits(w, 6, 1) != 0,
            manual_control: bits(w, 7, 1) != 0,
            interrupt_mode: InterruptMode::from_bits(bits(w, 8, 1) as u8),
            event_triggers: EventTriggers::of_word(bits(w, 9, 6)),
        }
    }

    /// The value that two register bytes stand for.
    pub open spec fn decoding(b: Seq<u8>) -> Self {
        Self::of_word(le16(b[0], b[1]) as int)
    }

    /// The register bytes of the value.
    pub fn to_bytes(&self) -> (b: [u8; 2])
        ensures
            b@ == self.encoding(),
    {
        u16_to_le(self.to_word())
    }

    /// The value that a register word stands for.
    pub fn from_word(w: u16) -> (v: Self)
        ensures
            v == Self::of_word(w as int),
    {
        proof {
            reveal(bits);
        }
        Self {
            trackpad_autotune: (w / 4) % 2 != 0,
            alp_autotune: (w / 8) % 2 != 0,
            comms_request: (w / 16) % 2 != 0,
            watchdog: (w / 32) % 2 != 0,
            end_comms: (w / 64) % 2 != 0,
            manual_control: (w / 128) % 2 != 0,
            interrupt_mode: InterruptMode::from_bits(((w / 256) % 2) as u8),
            event_triggers: EventTriggers::from_word(((w / 512) % 64) as u8),
        }
    }

    /// The value that two register bytes stand for.
    pub fn from_bytes(b: [u8; 2]) -> (v: Self)
        ensures
            v == Self::decoding(b@),
    {
        Self::from_word(u16_from_le(b[0], b[1]))
    }

    /// Decoding undoes encoding.
    pub proof fn lemma_roundtrip(self)
        ensures
            self.encoding().len() == 2,
            Self::of_word(self.word()) == self,
            Self::decoding(self.encoding()) == self,
    {
        self.lemma_word_fields();
        reveal(flag);
        self.interrupt_mode.lemma_bits();
        self.event_triggers.lemma_roundtrip();
    }

    /// The reference settings: streaming, with gesture and trackpad events enabled.
    pub open spec fn default_value() -> Self {
        ConfigSettings {
            trackpad_autotune: true,
            alp_autotune: true,
            comms_request: false,
            watchdog: true,
            end_comms: false,
            manual_control: false,
            interrupt_mode: InterruptMode::Stream,
            event_triggers: EventTriggers {
                gesture: true,
                trackpad: true,
                retuning: false,
                alp: false,
                trackpad_touch: false,
            },
        }
    }
}

impl Record<2> for ConfigSettings {
    open spec fn in_range(&self) -> bool {
        true
    }

    open spec fn bytes(&self) -> Seq<u8> {
        self.encoding()
    }

    open spec fn of_bytes(bytes: Seq<u8>) -> Option<Self> {
        Some(ConfigSettings::decoding(bytes))
    }

    fn pack(&self) -> (b: [u8; 2]) {
        self.to_bytes()
    }

    fn unpack(b: [u8; 2]) -> (v: Option<Self>) {
        Some(ConfigSettings::from_bytes(b))
    }

    proof fn lemma_of_bytes(&self) {
        self.lemma_roundtrip();
    }
}

impl Default for ConfigSettings {
    fn default() -> (v: Self)
        ensures
            v == ConfigSettings::default_value(),
    {
        Self {
            trackpad_autotune: true,
            alp_autotune: true,
            comms_request: false,
            watchdog: true,
            end_comms: false,
            manual_control: false,
            interrupt_mode: InterruptMode::Stream,
            event_triggers: EventTriggers::new(true, true, false, false, false),
        }
    }
}

/// The events that open a communication window in event mode.
#[derive(Debug, Clone, Copy, PartialEq, Eq, Structural)]
pub struct EventTriggers {
    pub gesture: bool,
    pub trackpad: bool,
    pub retuning: bool,
    pub alp: bool,
    pub trackpad_touch: bool,
}

impl EventTriggers {
    /// The value with the given fields.
    pub fn new(
        gesture: bool,
        trackpad: bool,
        retuning: bool,
        alp: bool,
        trackpad_touch: bool,
    ) -> (v: Self)
        ensures
            v == (EventTriggers { gesture, trackpad, retuning, alp, trackpad_touch }),
    {
        Self { gesture, trackpad, retuning, alp, trackpad_touch }
    }

    /// The value as a 6-bit number: gesture in bit 0, trackpad in bit 1,
    /// retuning in bit 2, alp in bit 4, trackpad touch in bit 5.
    #[verifier::opaque]
    pub open spec fn word(self) -> int {
        at(flag(self.gesture), 0)
            + at(flag(self.trackpad), 1)
            + at(flag(self.retuning), 2)
            + at(flag(self.alp), 4)
            + at(flag(self.trackpad_touch), 5)
    }

    /// The value that the low 6 bits of `w` stand for.
    pub open spec fn of_word(w: int) -> Self {
        EventTriggers {
            gesture: bits(w, 0, 1) != 0,
            trackpad: bits(w, 1, 1) != 0,
            retuning: bits(w, 2, 1) != 0,
            alp: bits(w, 4, 1) != 0,
            trackpad_touch: bits(w, 5, 1) != 0,
        }
    }

    /// The value as the number that its register field holds.
    pub fn to_word(&self) -> (w: u8)
        ensures
            w == self.word(),
            w < 64,
    {
        proof {
            reveal(EventTriggers::word);
        }
        flag_bit(self.gesture)
            + flag_bit(self.trackpad) * 2
            + flag_bit(self.retuning) * 4
            + flag_bit(self.alp) * 16
            + flag_bit(self.trackpad_touch) * 32
    }

    /// The value that the low 6 bits of `w` stand for.
    pub fn from_word(w: u8) -> (v: Self)
        ensures
            v == Self::of_word(w as int),
    {
        proof {
            reveal(bits);
        }
        Self {
            gesture: w % 2 != 0,
            trackpad: (w / 2) % 2 != 0,
            retuning: (w / 4) % 2 != 0,
            alp: (w / 16) % 2 != 0,
            trackpad_touch: (w / 32) % 2 != 0,
        }
    }

    /// Each field of the word is read back from the place it was put.
    pub proof fn lemma_word_fields(self)
        ensures
            0 <= self.word() < 64,
            bits(self.word(), 0, 1) == flag(self.gesture),
            bits(self.word(), 1, 1) == flag(self.trackpad),
            bits(self.word(), 2, 1) == flag(self.retuning),
            bits(self.word(), 4, 1) == flag(self.alp),
            bits(self.word(), 5, 1) == flag(self.trackpad_touch),
    {
        reveal(bits);
        reveal(flag);
        reveal(EventTriggers::word);
        let gesture = flag(self.gesture) as u16;
        let trackpad = flag(self.trackpad) as u16;
        let retuning = flag(self.retuning) as u16;
        let alp = flag(self.alp) as u16;
        let trackpad_touch = flag(self.trackpad_touch) as u16;
        let w = self.word() as u16;
        assert(w % 2 == gesture
            && (w / 2) % 2 == trackpad
            && (w / 4) % 2 == retuning
            && (w / 16) % 2 == alp
            && (w / 32) % 2 == trackpad_touch) by (bit_vector)
            requires
                gesture < 2,
                trackpad < 2,
                retuning < 2,
                alp < 2,
                trackpad_touch < 2,
                w == gesture + trackpad * 2 + retuning * 4 + alp * 16 + trackpad_touch * 32,
        ;
    }

    /// Reading the word back gives the value again.
    pub proof fn lemma_roundtrip(self)
        ensures
            0 <= self.word() < 64,
            Self::of_word(self.word()) == self,
    {
        self.lemma_word_fields();
        reveal(flag);
    }
}

/// When the device offers a communication window.
#[derive(Debug, Clone, Copy, PartialEq, Eq, Structural)]
pub enum InterruptMode {
    /// After every cycle, except auto-prox cycles.
    Stream,
    /// Only when an enabled event occurred.
    Event,
}

impl InterruptMode {
    /// The bits that stand for the value in its register field.
    #[verifier::opaque]
    pub open spec fn spec_to_bits(self) -> u8 {
        match self {
            InterruptMode::Stream => 0,
            InterruptMode::Event => 1,
        }
    }

    /// The bits that stand for the value in its register field.
    #[verifier::when_used_as_spec(spec_to_bits)]
    pub fn to_bits(self) -> (b: u8)
        ensures
            b == self.spec_to_bits(),
            b < 2,
    {
        proof {
            reveal(InterruptMode::spec_to_bits);
        }
        match self {
            InterruptMode::Stream => 0,
            InterruptMode::Event => 1,
        }
    }

    /// The value that the low bit of `bits` stands for.
    #[verifier::opaque]
    pub open spec fn spec_from_bits(bits: u8) -> Self {
        match bits % 2 {
            0 => InterruptMode::Stream,
            _ => InterruptMode::Event,
        }
    }

    /// The value that the low bit of `bits` stands for.
    #[verifier::when_used_as_spec(spec_from_bits)]
    pub fn from_bits(bits: u8) -> (v: Self)
        ensures
            v == Self::spec_from_bits(bits),
    {
        proof {
            reveal(InterruptMode::spec_from_bits);
        }
        match bits % 2 {
            0 => InterruptMode::Stream,
            _ => InterruptMode::Event,
        }
    }

    /// The bits of a value fit its register field and stand for that value.
    pub proof fn lemma_bits(self)
        ensures
            self.to_bits() < 2,
            Self::from_bits(self.to_bits()) == self,
    {
        reveal(InterruptMode::spec_to_bits);
        reveal(InterruptMode::spec_from_bits);
    }
}

} // verus!
