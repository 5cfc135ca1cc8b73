//! Tuning sessions: the settings that a session changes and puts back, and
//! the live measurements it reads.

use crate::config::hardware::{AlpHardware, AutoProxCycles};
use crate::config::Config;
use crate::control::config_settings::{ConfigSettings, InterruptMode};
use crate::control::system_control::{ChargeMode, SysControl};
use crate::event::info::Info;
use crate::wire::{le16, u16_from_le};
use crate::{Error, Iqs7211e};
use vstd::prelude::*;

verus! {

/// Largest number of trackpad channels: the most pairs that thirteen pads
/// can make.
pub const MAX_TRACKPAD_CHANNELS: usize = 42;

/// The live measurements that are looked at while a design is tuned.
#[derive(Debug, Clone, Copy, PartialEq, Eq)]
pub struct SetupSnapshot {
    /// Status flags of the device.
    pub info: Info,
    /// Delta of each trackpad channel; `rx_count * tx_count` entries are in
    /// use, the others are zero.
    pub trackpad_deltas: [u16; 42],
    /// Base target of each trackpad channel; `rx_count * tx_count` entries
    /// are in use, the others are zero.
    pub trackpad_base_targets: [u16; 42],
    /// Number of Rx electrodes.
    pub rx_count: usize,
    /// Number of Tx electrodes.
    pub tx_count: usize,
    /// Long-term average of the low-power channel.
    pub alp_channel_lta: u16,
    /// Count of the low-power channel.
    pub alp_channel_count: u16,
    /// Counts of the two prox engines of the low-power channel.
    pub alp_count_a: u16,
    pub alp_count_b: u16,
    /// Compensation values of the two prox engines.
    pub alp_comp_a: u16,
    pub alp_comp_b: u16,
}

/// The readings of the low-power channel registers, as numbers.
#[derive(Debug, Clone, Copy, PartialEq, Eq, Structural)]
pub struct AlpReadings {
    pub channel_lta: u16,
    pub channel_count: u16,
    pub count_a: u16,
    pub count_b: u16,
    pub comp_a: u16,
    pub comp_b: u16,
}

/// The values of an extended page: one 16-bit value, least significant
/// byte first, for each of the first `populated` channels, and zero for
/// the others.
pub open spec fn measurements(raw: Seq<u8>, populated: nat) -> Seq<u16> {
    Seq::new(
        MAX_TRACKPAD_CHANNELS as nat,
        |i: int|
            if i < populated {
                le16(raw[2 * i], raw[2 * i + 1])
            } else {
                0u16
            },
    )
}

/// The addresses of the first `populated` entries of the extended page that
/// starts at `from`: one address for each entry.
pub fn measurement_addresses(from: u16, populated: usize) -> (addresses: Vec<u16>)
    requires
        populated <= MAX_TRACKPAD_CHANNELS,
        from + MAX_TRACKPAD_CHANNELS <= u16::MAX,
    ensures
        addresses@.len() == populated,
        forall|i: int| 0 <= i < populated ==> addresses@[i] == from + i,
{
    let mut addresses: Vec<u16> = Vec::new();
    let mut idx: usize = 0;
    while idx < populated
        invariant
            idx <= populated <= MAX_TRACKPAD_CHANNELS,
            from + MAX_TRACKPAD_CHANNELS <= u16::MAX,
            addresses@.len() == idx,
            forall|i: int| 0 <= i < idx ==> addresses@[i] == from + i,
        decreases populated - idx,
    {
        addresses.push(from + idx as u16);
        idx += 1;
    }
    addresses
}

/// The values of an extended page, from the bytes read at the addresses
/// of its first `populated` entries, in their order.
pub fn read_measurement_block(raw: &[u8], populated: usize) -> (out: [u16; 42])
    requires
        populated <= MAX_TRACKPAD_CHANNELS,
        raw@.len() == 2 * populated,
    ensures
        out@ == measurements(raw@, populated as nat),
{
    let mut out = [0u16; 42];
    let mut idx: usize = 0;
    while idx < populated
        invariant
            idx <= populated <= MAX_TRACKPAD_CHANNELS,
            raw@.len() == 2 * populated,
            forall|i: int| 0 <= i < idx ==> out@[i] == le16(raw@[2 * i], raw@[2 * i + 1]),
            forall|i: int| idx <= i < MAX_TRACKPAD_CHANNELS ==> out@[i] == 0,
        decreases populated - idx,
    {
        out[idx] = u16_from_le(raw[2 * idx], raw[2 * idx + 1]);
        idx += 1;
    }
    assert(out@ =~= measurements(raw@, populated as nat));
    out
}

/// A tuning session on a device: it remembers the settings that it changes,
/// and puts them back at its end.
pub struct SetupSession<'a> {
    pub device: &'a mut Iqs7211e,
    /// The configuration that was staged when the session began.
    pub staged_at_entry: Config,
    pub original_interrupt_mode: InterruptMode,
    pub original_lp1_auto_prox_cycles: AutoProxCycles,
    pub original_lp2_auto_prox_cycles: AutoProxCycles,
    pub manual_control_enabled: bool,
}

impl Iqs7211e {
    /// Begins a tuning session. The settings to put back are captured by
    /// [`SetupSession::initialize`].
    pub fn begin_setup(&mut self) -> (session: SetupSession<'_>)
        ensures
            *session.device == *old(self),
            *final(self) == *final(session.device),
            session.staged_at_entry == old(self).staged(),
            session.original_interrupt_mode == InterruptMode::Stream,
            session.original_lp1_auto_prox_cycles == AutoProxCycles::Cycles16,
            session.original_lp2_auto_prox_cycles == AutoProxCycles::Cycles32,
            !session.manual_control_enabled,
    {
        let staged_at_entry = self.config();
        SetupSession {
            device: self,
            staged_at_entry,
            original_interrupt_mode: InterruptMode::Stream,
            original_lp1_auto_prox_cycles: AutoProxCycles::Cycles16,
            original_lp2_auto_prox_cycles: AutoProxCycles::Cycles32,
            manual_control_enabled: false,
        }
    }
}

impl<'a> SetupSession<'a> {
    /// Number of Rx electrodes of the staged pin layout.
    pub open spec fn rx_count(&self) -> nat {
        self.device.staged().pinout.rx_view().len()
    }

    /// Number of Tx electrodes of the staged pin layout.
    pub open spec fn tx_count(&self) -> nat {
        self.device.staged().pinout.tx_view().len()
    }

    /// Number of trackpad channels of the staged pin layout.
    pub open spec fn spec_populated(&self) -> nat {
        self.rx_count() * self.tx_count()
    }

    /// Number of trackpad channels of the staged pin layout: one for each
    /// pair of an Rx and a Tx electrode.
    pub fn populated(&self) -> (n: usize)
        ensures
            n == self.spec_populated(),
            n <= MAX_TRACKPAD_CHANNELS,
    {
        let config = self.device.config();
        let rx_count = config.pinout.rx().len();
        let tx_count = config.pinout.tx().len();
        assert(rx_count * tx_count <= 42) by (nonlinear_arith)
            requires
                rx_count + tx_count <= 13,
        ;
        rx_count * tx_count
    }

    /// The step after bring-up, given the bytes of the configuration
    /// settings and of the low-power hardware registers: the session
    /// captures the interrupt mode and the auto-prox cycles that are in
    /// force, and returns the bytes to write to the two registers, which
    /// switch to streaming and switch the auto-prox cycles off. Hardware
    /// bytes that stand for no settings are an error; the interrupt mode is
    /// captured all the same.
    pub fn initialize<E>(&mut self, settings: [u8; 2], alp_hardware: [u8; 2]) -> (staged: Result<
        ([u8; 2], [u8; 2]),
        Error<E>,
    >)
        ensures
            *final(self).device == *old(self).device,
            final(self).staged_at_entry == old(self).staged_at_entry,
            final(self).manual_control_enabled == old(self).manual_control_enabled,
            final(self).original_interrupt_mode == ConfigSettings::decoding(
                settings@,
            ).interrupt_mode,
            match AlpHardware::decoding(alp_hardware@) {
                Some(hardware) => {
                    &&& final(self).original_lp1_auto_prox_cycles == hardware.lp1_auto_prox_cycles
                    &&& final(self).original_lp2_auto_prox_cycles == hardware.lp2_auto_prox_cycles
                    &&& staged matches Ok(bytes)
                    &&& bytes.0@ == (ConfigSettings {
                        interrupt_mode: InterruptMode::Stream,
                        ..ConfigSettings::decoding(settings@)
                    }).encoding()
                    &&& bytes.1@ == (AlpHardware {
                        lp1_auto_prox_cycles: AutoProxCycles::Disabled,
                        lp2_auto_prox_cycles: AutoProxCycles::Disabled,
                        ..hardware
                    }).encoding()
                },
                None => {
                    &&& final(self).original_lp1_auto_prox_cycles == old(
                        self,
                    ).original_lp1_auto_prox_cycles
                    &&& final(self).original_lp2_auto_prox_cycles == old(
                        self,
                    ).original_lp2_auto_prox_cycles
                    &&& staged matches Err(Error::BufferOverflow)
                },
            },
    {
        let current = ConfigSettings::from_bytes(settings);
        self.original_interrupt_mode = current.interrupt_mode;
        match AlpHardware::from_bytes(alp_hardware) {
            Some(hardware) => {
                self.original_lp1_auto_prox_cycles = hardware.lp1_auto_prox_cycles;
                self.original_lp2_auto_prox_cycles = hardware.lp2_auto_prox_cycles;
                let streaming = ConfigSettings { interrupt_mode: InterruptMode::Stream, ..current };
                let tuning = AlpHardware {
                    lp1_auto_prox_cycles: AutoProxCycles::Disabled,
                    lp2_auto_prox_cycles: AutoProxCycles::Disabled,
                    ..hardware
                };
                Ok((streaming.to_bytes(), tuning.to_bytes()))
            },
            None => Err(Error::BufferOverflow),
        }
    }

    /// Manual control, given the bytes of the configuration settings and
    /// of the system control registers: returns the bytes to write to the
    /// two registers, which switch manual control on and select the first
    /// low-power charge mode. Control bytes that stand for no control word
    /// are an error, and the session then does not count manual control as
    /// switched on.
    pub fn enter_manual_control<E>(&mut self, settings: [u8; 2], control: [u8; 2]) -> (staged:
        Result<([u8; 2], [u8; 2]), Error<E>>)
        ensures
            *final(self).device == *old(self).device,
            final(self).staged_at_entry == old(self).staged_at_entry,
            final(self).original_interrupt_mode == old(self).original_interrupt_mode,
            final(self).original_lp1_auto_prox_cycles == old(self).original_lp1_auto_prox_cycles,
            final(self).original_lp2_auto_prox_cycles == old(self).original_lp2_auto_prox_cycles,
            match SysControl::decoding(control@) {
                Some(word) => {
                    &&& final(self).manual_control_enabled
                    &&& staged matches Ok(bytes)
                    &&& bytes.0@ == (ConfigSettings {
                        manual_control: true,
                        ..ConfigSettings::decoding(settings@)
                    }).encoding()
                    &&& bytes.1@ == (SysControl {
                        charge_mode: ChargeMode::LowPower1,
                        ..word
                    }).encoding()
                },
                None => {
                    &&& final(self).manual_control_enabled == old(self).manual_control_enabled
                    &&& staged matches Err(Error::BufferOverflow)
                },
            },
    {
        let manual = Iqs7211e::set_manual_control(settings, true);
        match Iqs7211e::set_charge_mode::<E>(control, ChargeMode::LowPower1) {
            Ok(mode) => {
                self.manual_control_enabled = true;
                Ok((manual, mode))
            },
            Err(e) => Err(e),
        }
    }

    /// The snapshot that the readings stand for: the bytes of the status
    /// register, the bytes read from the base target and delta pages for
    /// the channels of the staged pin layout, and the readings of the
    /// low-power channel. Status bytes that stand for no status are an
    /// error.
    pub fn snapshot<E>(
        &self,
        info: [u8; 2],
        base_targets: &[u8],
        deltas: &[u8],
        alp: AlpReadings,
    ) -> (snapshot: Result<SetupSnapshot, Error<E>>)
        requires
            base_targets@.len() == 2 * self.spec_populated(),
            deltas@.len() == 2 * self.spec_populated(),
        ensures
            match Info::decoding(info@) {
                Some(status) => {
                    &&& snapshot matches Ok(s)
                    &&& s.info == status
                    &&& s.trackpad_base_targets@ == measurements(
                        base_targets@,
                        self.spec_populated(),
                    )
                    &&& s.trackpad_deltas@ == measurements(deltas@, self.spec_populated())
                    &&& s.rx_count == self.rx_count()
                    &&& s.tx_count == self.tx_count()
                    &&& s.alp_channel_lta == alp.channel_lta
                    &&& s.alp_channel_count == alp.channel_count
                    &&& s.alp_count_a == alp.count_a
                    &&& s.alp_count_b == alp.count_b
                    &&& s.alp_comp_a == alp.comp_a
                    &&& s.alp_comp_b == alp.comp_b
                },
                None => snapshot matches Err(Error::BufferOverflow),
            },
    {
        let config = self.device.config();
        let rx_count = config.pinout.rx().len();
        let tx_count = config.pinout.tx().len();
        let populated = self.populated();
        match Info::from_bytes(info) {
            Some(status) => Ok(
                SetupSnapshot {
                    info: status,
                    trackpad_deltas: read_measurement_block(deltas, populated),
                    trackpad_base_targets: read_measurement_block(base_targets, populated),
                    rx_count,
                    tx_count,
                    alp_channel_lta: alp.channel_lta,
                    alp_channel_count: alp.channel_count,
                    alp_count_a: alp.count_a,
                    alp_count_b: alp.count_b,
                    alp_comp_a: alp.comp_a,
                    alp_comp_b: alp.comp_b,
                },
            ),
            None => Err(Error::BufferOverflow),
        }
    }

    /// Gives the session up without a word to the device: the driver
    /// stages again the configuration that it staged when the session
    /// began, and the registers stay as the session left them.
    pub fn abandon(self)
        ensures
            final(self.device).staged() == self.staged_at_entry,
            final(self.device).ready() == old(self.device).ready(),
    {
        self.device.set_config(self.staged_at_entry);
    }

    /// The end of the session, given the bytes of the configuration
    /// settings and of the low-power hardware registers: returns the bytes
    /// to write to the two registers, which switch manual control off if the
    /// session switched it on, and put back the interrupt mode and the
    /// auto-prox cycles that the session captured. Hardware bytes that
    /// stand for no settings are an error. Either way the driver stages
    /// again the configuration that it staged when the session began.
    pub fn finish<E>(self, settings: [u8; 2], alp_hardware: [u8; 2]) -> (staged: Result<
        ([u8; 2], [u8; 2]),
        Error<E>,
    >)
        ensures
            final(self.device).staged() == self.staged_at_entry,
            final(self.device).ready() == old(self.device).ready(),
            match AlpHardware::decoding(alp_hardware@) {
                Some(hardware) => {
                    &&& staged matches Ok(bytes)
                    &&& bytes.0@ == (ConfigSettings {
                        manual_control: if self.manual_control_enabled {
                            false
                        } else {
                            ConfigSettings::decoding(settings@).manual_control
                        },
                        interrupt_mode: self.original_interrupt_mode,
                        ..ConfigSettings::decoding(settings@)
                    }).encoding()
                    &&& bytes.1@ == (AlpHardware {
                        lp1_auto_prox_cycles: self.original_lp1_auto_prox_cycles,
                        lp2_auto_prox_cycles: self.original_lp2_auto_prox_cycles,
                        ..hardware
                    }).encoding()
                },
                None => staged matches Err(Error::BufferOverflow),
            },
    {
        let current = ConfigSettings::from_bytes(settings);
        let manual_control = if self.manual_control_enabled {
            false
        } else {
            current.manual_control
        };
        let restored = ConfigSettings {
            manual_control,
            interrupt_mode: self.original_interrupt_mode,
            ..current
        };
        self.device.set_config(self.staged_at_entry);
        match AlpHardware::from_bytes(alp_hardware) {
            Some(hardware) => {
                let cycles = AlpHardware {
                    lp1_auto_prox_cycles: self.original_lp1_auto_prox_cycles,
                    lp2_auto_prox_cycles: self.original_lp2_auto_prox_cycles,
                    ..hardware
                };
                Ok((restored.to_bytes(), cycles.to_bytes()))
            },
            None => Err(Error::BufferOverflow),
        }
    }
}

} // verus!
