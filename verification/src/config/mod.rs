//! The configuration of the device: its records, and the register writes
//! that transfer it.

pub mod alp;
pub mod auto_tune;
pub mod conversion;
pub mod gesture;
pub mod hardware;
pub mod output;
pub mod packing;
pub mod pinout;
pub mod timing;
pub mod trackpad;

use crate::config::alp::Alp;
use crate::config::auto_tune::AutoTune;
use crate::config::conversion::ConversionFrequency;
use crate::config::gesture::Gestures;
use crate::config::hardware::Hardware;
use crate::config::output::ChannelOutput;
use crate::config::pinout::{cycle_bytes, cycle_table, mapping_bytes, rx_mask, tx_mask, Pinout};
use crate::config::timing::Timing;
use crate::config::trackpad::Trackpad;
use crate::control::config_settings::{ConfigSettings, InterruptMode};
use crate::control::system_control::SysControl;
use crate::reg::{Reg, MAX_WRITE_LEN};
use crate::rw::{slice_to_vec, to_vec, Record};
use crate::wire::{le16, le16_bytes, u16_from_le, u16_to_le};
use vstd::prelude::*;

verus! {

/// Number of register writes that transfer a configuration.
pub const CONFIG_WRITES: usize = 14;

/// One write of a configuration transfer: the first register and the bytes.
#[derive(Debug)]
pub struct RegisterWrite {
    pub reg: Reg,
    pub data: Vec<u8>,
}

impl View for RegisterWrite {
    type V = (Reg, Seq<u8>);

    open spec fn view(&self) -> (Reg, Seq<u8>) {
        (self.reg, self.data@)
    }
}

/// The complete configuration of the device, as it is staged before
/// bring-up.
#[derive(Debug, Clone, Copy)]
pub struct Config {
    pub auto_tune: AutoTune,
    pub timing: Timing,
    pub alp: Alp,
    pub channel_output: ChannelOutput,
    pub conversion_frequency: ConversionFrequency,
    pub hardware: Hardware,
    pub trackpad: Trackpad,
    pub gestures: Gestures,
    pub pinout: Pinout,
    pub interrupt_mode: InterruptMode,
}

impl Config {
    /// The configuration with the given records, each taken as it is.
    pub fn new(
        auto_tune: AutoTune,
        timing: Timing,
        alp: Alp,
        channel_output: ChannelOutput,
        conversion_frequency: ConversionFrequency,
        hardware: Hardware,
        trackpad: Trackpad,
        gestures: Gestures,
        pinout: Pinout,
        interrupt_mode: InterruptMode,
    ) -> (v: Self)
        ensures
            v == (Config {
                auto_tune,
                timing,
                alp,
                channel_output,
                conversion_frequency,
                hardware,
                trackpad,
                gestures,
                pinout,
                interrupt_mode,
            }),
    {
        Self {
            auto_tune,
            timing,
            alp,
            channel_output,
            conversion_frequency,
            hardware,
            trackpad,
            gestures,
            pinout,
            interrupt_mode,
        }
    }

    /// This configuration with other auto-tuning settings.
    pub fn with_auto_tune(self, auto_tune: AutoTune) -> (v: Self)
        ensures
            v == (Config { auto_tune, ..self }),
    {
        Config { auto_tune, ..self }
    }

    /// This configuration with other timing.
    pub fn with_timing(self, timing: Timing) -> (v: Self)
        ensures
            v == (Config { timing, ..self }),
    {
        Config { timing, ..self }
    }

    /// This configuration with other low-power setup, taken as it is given.
    pub fn with_alp(self, alp: Alp) -> (v: Self)
        ensures
            v == (Config { alp, ..self }),
    {
        Config { alp, ..self }
    }

    /// This configuration with other thresholds and filters.
    pub fn with_channel_output(self, channel_output: ChannelOutput) -> (v: Self)
        ensures
            v == (Config { channel_output, ..self }),
    {
        Config { channel_output, ..self }
    }

    /// This configuration with other conversion frequencies.
    pub fn with_conversion_frequency(self, conversion_frequency: ConversionFrequency) -> (v: Self)
        ensures
            v == (Config { conversion_frequency, ..self }),
    {
        Config { conversion_frequency, ..self }
    }

    /// This configuration with other hardware settings.
    pub fn with_hardware(self, hardware: Hardware) -> (v: Self)
        ensures
            v == (Config { hardware, ..self }),
    {
        Config { hardware, ..self }
    }

    /// This configuration with other gesture settings.
    pub fn with_gestures(self, gestures: Gestures) -> (v: Self)
        ensures
            v == (Config { gestures, ..self }),
    {
        Config { gestures, ..self }
    }

    /// This configuration with other delivery of interrupts.
    pub fn with_interrupt_mode(self, interrupt_mode: InterruptMode) -> (v: Self)
        ensures
            v == (Config { interrupt_mode, ..self }),
    {
        Config { interrupt_mode, ..self }
    }

    /// This configuration with other trackpad settings. The electrode
    /// counts are those of this configuration's pin layout, whatever
    /// `config` holds.
    pub fn with_trackpad(self, config: Trackpad) -> (v: Self)
        ensures
            v == (Config {
                trackpad: Trackpad {
                    total_rx: self.pinout.rx_view().len() as u8,
                    total_tx: self.pinout.tx_view().len() as u8,
                    ..config
                },
                ..self
            }),
    {
        let total_rx = self.pinout.rx().len() as u8;
        let total_tx = self.pinout.tx().len() as u8;
        Config { trackpad: Trackpad { total_rx, total_tx, ..config }, ..self }
    }

    /// This configuration with another pin layout. The electrode counts of
    /// the trackpad and the enable bits of the low-power channel follow the
    /// layout.
    pub fn with_pinout(self, pinout: Pinout) -> (v: Self)
        ensures
            v == (Config {
                pinout,
                trackpad: Trackpad {
                    total_rx: pinout.rx_view().len() as u8,
                    total_tx: pinout.tx_view().len() as u8,
                    ..self.trackpad
                },
                alp: Alp {
                    rx: rx_mask(pinout.alp_rx_view()) as u8,
                    tx: tx_mask(pinout.alp_tx_view()) as u16,
                    ..self.alp
                },
                ..self
            }),
    {
        let total_rx = pinout.rx().len() as u8;
        let total_tx = pinout.tx().len() as u8;
        let rx = pinout.alp_rx();
        let tx = pinout.alp_tx();
        Config {
            pinout,
            trackpad: Trackpad { total_rx, total_tx, ..self.trackpad },
            alp: Alp { rx, tx, ..self.alp },
            ..self
        }
    }

    /// Every field of every record fits the bits that the registers give it.
    pub open spec fn valid(self) -> bool {
        self.auto_tune.valid() && self.timing.valid() && self.alp.valid() && self.trackpad.valid()
    }

    /// The bytes of the cycle allocation registers for the pin layout.
    pub open spec fn cycle_allocation(self) -> Seq<u8> {
        cycle_bytes(cycle_table(self.pinout.rx_view(), self.pinout.tx_view()))
    }

    /// The register writes that transfer the configuration, in the order
    /// that the register map asks for: auto-tuning, timing, system settings,
    /// low-power setup, thresholds and filters, conversion frequencies,
    /// hardware settings, trackpad geometry, settings version, gestures, pin
    /// mapping, and the cycle allocation in three parts.
    pub open spec fn transfer_plan(self) -> Seq<(Reg, Seq<u8>)> {
        seq![
            (Reg::AlpAutoTuningCompA, self.auto_tune.encoding()),
            (Reg::ActiveModeReportRate, self.timing.encoding()),
            (Reg::SysControl, SystemSettings::default_value().encoding()),
            (Reg::AlpSetup, self.alp.encoding()),
            (Reg::TouchSetClearMultipliers, self.channel_output.encoding()),
            (Reg::TpConvFreq, self.conversion_frequency.encoding()),
            (Reg::TpHardware, self.hardware.encoding()),
            (Reg::TpRxSettings, self.trackpad.encoding()),
            (Reg::SettingsVersion, seq![0u8, 0u8]),
            (Reg::GestureEnable, self.gestures.encoding()),
            (Reg::RxTxMapping0_1, mapping_bytes(self.pinout.rx_view(), self.pinout.tx_view())),
            (Reg::ProxACycle0, self.cycle_allocation().subrange(0, 30)),
            (Reg::ProxACycle10, self.cycle_allocation().subrange(30, 60)),
            (Reg::ProxACycle20, self.cycle_allocation().subrange(60, 64)),
        ]
    }

    /// Write number `step` of the configuration transfer.
    pub fn write_config(&self, step: usize) -> (w: RegisterWrite)
        requires
            step < CONFIG_WRITES,
        ensures
            w@ == self.transfer_plan()[step as int],
            w.data@.len() <= MAX_WRITE_LEN,
    {
        match step {
            0 => RegisterWrite { reg: Reg::AlpAutoTuningCompA, data: to_vec(&self.auto_tune.to_bytes()) },
            1 => RegisterWrite { reg: Reg::ActiveModeReportRate, data: to_vec(&self.timing.to_bytes()) },
            2 => RegisterWrite { reg: Reg::SysControl, data: to_vec(&SystemSettings::default().to_bytes()) },
            3 => RegisterWrite { reg: Reg::AlpSetup, data: to_vec(&self.alp.to_bytes()) },
            4 => RegisterWrite { reg: Reg::TouchSetClearMultipliers, data: to_vec(&self.channel_output.to_bytes()) },
            5 => RegisterWrite { reg: Reg::TpConvFreq, data: to_vec(&self.conversion_frequency.to_bytes()) },
            6 => RegisterWrite { reg: Reg::TpHardware, data: to_vec(&self.hardware.to_bytes()) },
            7 => RegisterWrite { reg: Reg::TpRxSettings, data: to_vec(&self.trackpad.to_bytes()) },
            8 => RegisterWrite { reg: Reg::SettingsVersion, data: to_vec(&[0u8, 0u8]) },
            9 => RegisterWrite { reg: Reg::GestureEnable, data: to_vec(&self.gestures.to_bytes()) },
            10 => RegisterWrite { reg: Reg::RxTxMapping0_1, data: to_vec(&self.pinout.mapping()) },
            11 => RegisterWrite { reg: Reg::ProxACycle0, data: slice_to_vec(&self.pinout.cycles(), 0, 30) },
            12 => RegisterWrite { reg: Reg::ProxACycle10, data: slice_to_vec(&self.pinout.cycles(), 30, 60) },
            _ => RegisterWrite { reg: Reg::ProxACycle20, data: slice_to_vec(&self.pinout.cycles(), 60, 64) },
        }
    }

    /// What a transfer writes can be read back: each record of the
    /// configuration is the decoding of the bytes written for it, as long
    /// as its fields are within their bits.
    pub proof fn lemma_transfer_roundtrip(self)
        requires
            self.valid(),
        ensures
            AutoTune::decoding(self.transfer_plan()[0].1) == self.auto_tune,
            Timing::decoding(self.transfer_plan()[1].1) == self.timing,
            SystemSettings::decoding(self.transfer_plan()[2].1) == Some(
                SystemSettings::default_value(),
            ),
            Alp::decoding(self.transfer_plan()[3].1) == self.alp,
            ChannelOutput::decoding(self.transfer_plan()[4].1) == self.channel_output,
            ConversionFrequency::decoding(self.transfer_plan()[5].1) == self.conversion_frequency,
            Hardware::decoding(self.transfer_plan()[6].1) == Some(self.hardware),
            Trackpad::decoding(self.transfer_plan()[7].1) == Some(self.trackpad),
            Gestures::decoding(self.transfer_plan()[9].1) == self.gestures,
    {
        self.auto_tune.lemma_roundtrip();
        self.timing.lemma_roundtrip();
        SystemSettings::default_value().lemma_roundtrip();
        self.alp.lemma_roundtrip();
        self.channel_output.lemma_roundtrip();
        self.conversion_frequency.lemma_roundtrip();
        self.hardware.lemma_roundtrip();
        self.trackpad.lemma_roundtrip();
        self.gestures.lemma_roundtrip();
    }

    /// The transfer has fourteen writes, and each fits one bus transfer.
    pub proof fn lemma_transfer_plan_fits(self)
        ensures
            self.transfer_plan().len() == CONFIG_WRITES,
            forall|k: int|
                0 <= k < CONFIG_WRITES ==> (#[trigger] self.transfer_plan()[k]).1.len()
                    <= MAX_WRITE_LEN,
    {
    }
}

impl Default for Config {
    fn default() -> (v: Self)
        ensures
            v.auto_tune == AutoTune::default_value(),
            v.timing == Timing::default_value(),
            v.alp == Alp::default_value(),
            v.channel_output == ChannelOutput::default_value(),
            v.conversion_frequency == ConversionFrequency::default_value(),
            v.hardware == Hardware::default_value(),
            v.trackpad == Trackpad::default_value(),
            v.gestures == Gestures::default_value(),
            v.pinout.rx_view() == Seq::<crate::config::pinout::Pin>::empty(),
            v.pinout.tx_view() == Seq::<crate::config::pinout::Pin>::empty(),
            v.pinout.alp_rx_view() == Seq::<crate::config::pinout::Pin>::empty(),
            v.pinout.alp_tx_view() == Seq::<crate::config::pinout::Pin>::empty(),
            v.interrupt_mode == InterruptMode::Event,
    {
        Self::new(
            AutoTune::default(),
            Timing::default(),
            Alp::default(),
            ChannelOutput::default(),
            ConversionFrequency::default(),
            Hardware::default(),
            Trackpad::new(),
            Gestures::default(),
            Pinout::default(),
            InterruptMode::Event,
        )
    }
}

/// The system control, configuration settings and other settings registers, as
/// they are written together.
#[derive(Debug, Clone, Copy, PartialEq, Eq, Structural)]
pub struct SystemSettings {
    pub sys_control: SysControl,
    pub config_settings: ConfigSettings,
    pub other_settings: u16,
}

impl SystemSettings {
    /// The value with the given fields.
    pub fn new(
        sys_control: SysControl,
        config_settings: ConfigSettings,
        other_settings: u16,
    ) -> (v: Self)
        ensures
            v == (SystemSettings { sys_control, config_settings, other_settings }),
    {
        Self { sys_control, config_settings, other_settings }
    }

    /// The register bytes: sys control, config settings, other settings, each
    /// number least significant byte first.
    pub open spec fn encoding(self) -> Seq<u8> {
        self.sys_control.encoding()
            + self.config_settings.encoding()
            + le16_bytes(self.other_settings)
    }

    /// The value that six register bytes stand for, if they stand for one.
    pub open spec fn decoding(b: Seq<u8>) -> Option<Self> {
        match SysControl::decoding(b.subrange(0, 2)) {
            Some(sys_control) => Some(SystemSettings {
                sys_control,
                config_settings: ConfigSettings::decoding(b.subrange(2, 4)),
                other_settings: le16(b[4], b[5]),
            }),
            None => None,
        }
    }

    /// The register bytes of the value.
    pub fn to_bytes(&self) -> (b: [u8; 6])
        ensures
            b@ == self.encoding(),
    {
        let sys_control = self.sys_control.to_bytes();
        let config_settings = self.config_settings.to_bytes();
        let other_settings = u16_to_le(self.other_settings);
        let b = [
            sys_control[0], sys_control[1], config_settings[0], config_settings[1],
            other_settings[0], other_settings[1],
        ];
        assert(b@ =~= self.encoding());
        b
    }

    /// The value that six register bytes stand for, if they stand for one.
    pub fn from_bytes(b: [u8; 6]) -> (v: Option<Self>)
        ensures
            v == Self::decoding(b@),
    {
        let sys_control_bytes = [b[0], b[1]];
        assert(sys_control_bytes@ =~= b@.subrange(0, 2));
        let config_settings_bytes = [b[2], b[3]];
        assert(config_settings_bytes@ =~= b@.subrange(2, 4));
        match SysControl::from_bytes(sys_control_bytes) {
            Some(sys_control) => Some(Self {
                sys_control,
                config_settings: ConfigSettings::from_bytes(config_settings_bytes),
                other_settings: u16_from_le(b[4], b[5]),
            }),
            None => None,
        }
    }

    /// Decoding undoes encoding.
    pub proof fn lemma_roundtrip(self)
        ensures
            self.encoding().len() == 6,
            Self::decoding(self.encoding()) == Some(self),
    {
        self.sys_control.lemma_roundtrip();
        self.config_settings.lemma_roundtrip();
        assert(self.encoding().subrange(0, 2) =~= self.sys_control.encoding());
        assert(self.encoding().subrange(2, 4) =~= self.config_settings.encoding());
    }

    /// The settings that a configuration transfer writes.
    pub open spec fn default_value() -> Self {
        SystemSettings {
            sys_control: SysControl::default_value(),
            config_settings: ConfigSettings::default_value(),
            other_settings: 0,
        }
    }
}

impl Record<6> for SystemSettings {
    open spec fn in_range(&self) -> bool {
        true
    }

    open spec fn bytes(&self) -> Seq<u8> {
        self.encoding()
    }

    open spec fn of_bytes(bytes: Seq<u8>) -> Option<Self> {
        SystemSettings::decoding(bytes)
    }

    fn pack(&self) -> (b: [u8; 6]) {
        self.to_bytes()
    }

    fn unpack(b: [u8; 6]) -> (v: Option<Self>) {
        SystemSettings::from_bytes(b)
    }

    proof fn lemma_of_bytes(&self) {
        self.lemma_roundtrip();
    }
}

impl Default for SystemSettings {
    fn default() -> (v: Self)
        ensures
            v == SystemSettings::default_value(),
    {
        Self::new(SysControl::default(), ConfigSettings::default(), 0)
    }
}

} // verus!
