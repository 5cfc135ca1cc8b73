use iqs7211e::config::alp::{Alp, AlpSensingMode};
use iqs7211e::config::auto_tune::AutoTune;
use iqs7211e::config::conversion::ConversionFrequency;
use iqs7211e::config::gesture::Gestures;
use iqs7211e::config::hardware::Hardware;
use iqs7211e::config::output::ChannelOutput;
use iqs7211e::config::pinout::{Pin, Pinout};
use iqs7211e::config::timing::Timing;
use iqs7211e::config::trackpad::Trackpad;
use iqs7211e::config::{Config, CONFIG_WRITES};
use iqs7211e::control::config_settings::InterruptMode;
use iqs7211e::control::system_control::{ChargeMode, SysControl};
use iqs7211e::reg::Reg;
use iqs7211e::{Error, Iqs7211e};

fn layout() -> Pinout {
    Pinout::new(
        [Pin::RxTx0, Pin::RxTx2, Pin::RxTx4],
        [Pin::Tx8, Pin::Tx9],
        [Pin::RxTx0, Pin::RxTx4],
        [Pin::Tx9],
    )
}

#[test]
fn default_config_holds_the_reference_settings() {
    let c = Config::default();
    assert_eq!(c.auto_tune, AutoTune::default());
    assert_eq!(c.timing, Timing::default());
    assert_eq!(c.alp, Alp::default());
    assert_eq!(c.channel_output, ChannelOutput::default());
    assert_eq!(c.conversion_frequency, ConversionFrequency::default());
    assert_eq!(c.hardware, Hardware::default());
    assert_eq!(c.trackpad, Trackpad::new());
    assert_eq!(c.gestures, Gestures::default());
    assert_eq!(c.pinout.rx().len(), 0);
    assert_eq!(c.interrupt_mode, InterruptMode::Event);
}

#[test]
fn pin_layout_sets_counts_and_low_power_masks() {
    let c = Config::default().with_pinout(layout());
    assert_eq!(c.trackpad.total_rx, 3);
    assert_eq!(c.trackpad.total_tx, 2);
    assert_eq!(c.alp.rx, 0b0001_0001);
    assert_eq!(c.alp.tx, 0b0010_0000_0000);
    // The other settings of the low-power channel stay.
    assert_eq!(c.alp.sensing_mode, AlpSensingMode::ProjectedCapacitance);
    assert!(c.alp.count_filter);

    // New trackpad settings keep the counts of the layout.
    let t = Trackpad::new().single_touch();
    assert_eq!(t.total_rx, 0);
    let c = c.with_trackpad(t);
    assert_eq!(c.trackpad.total_rx, 3);
    assert_eq!(c.trackpad.total_tx, 2);
    assert_eq!(c.trackpad, Trackpad { total_rx: 3, total_tx: 2, ..t });

    // New low-power settings are taken as they are.
    let a = Alp::new(AlpSensingMode::SelfCapacitance, false, 0xAA, 0x0155);
    assert_eq!(c.with_alp(a).alp, a);
}

#[test]
fn config_builders_replace_one_record() {
    let c = Config::default();
    let tune = AutoTune::default().with_tuning(Default::default(), 1);
    assert_eq!(c.with_auto_tune(tune).auto_tune, tune);
    let timing = Timing { i2c_timeout: 5, ..Timing::new() };
    assert_eq!(c.with_timing(timing).timing, timing);
    let out = ChannelOutput::default().with_touch(Default::default());
    assert_eq!(c.with_channel_output(out).channel_output, out);
    let f = ConversionFrequency::default();
    assert_eq!(c.with_conversion_frequency(f).conversion_frequency, f);
    let h = Hardware::default();
    assert_eq!(c.with_hardware(h).hardware, h);
    let g = Gestures::default().enable_all();
    assert_eq!(c.with_gestures(g).gestures, g);
    assert_eq!(c.with_interrupt_mode(InterruptMode::Stream).interrupt_mode, InterruptMode::Stream);
    let n = Config::new(
        tune,
        timing,
        Alp::default(),
        out,
        f,
        h,
        Trackpad::new(),
        g,
        layout(),
        InterruptMode::Stream,
    );
    assert_eq!(n.gestures, g);
    assert_eq!(n.pinout.tx().len(), 2);
    // Nothing follows the layout unless it is set through the builder.
    assert_eq!(n.trackpad.total_rx, 0);
}

#[test]
fn transfer_writes_every_record_at_its_register() {
    let c = Config::default().with_pinout(layout());
    assert_eq!(CONFIG_WRITES, 14);
    let w = c.write_config(0);
    assert_eq!(w.reg, Reg::AlpAutoTuningCompA);
    assert_eq!(w.data, c.auto_tune.to_bytes().to_vec());
    let w = c.write_config(1);
    assert_eq!(w.reg, Reg::ActiveModeReportRate);
    assert_eq!(w.data, c.timing.to_bytes().to_vec());
    let w = c.write_config(2);
    assert_eq!(w.reg, Reg::SysControl);
    assert_eq!(w.data, vec![0x03, 0x00, 0x2C, 0x06, 0x00, 0x00]);
    let w = c.write_config(3);
    assert_eq!(w.reg, Reg::AlpSetup);
    assert_eq!(w.data, vec![0x11, 0x03, 0x00, 0x02]);
    let w = c.write_config(4);
    assert_eq!(w.reg, Reg::TouchSetClearMultipliers);
    assert_eq!(w.data, c.channel_output.to_bytes().to_vec());
    let w = c.write_config(5);
    assert_eq!(w.reg, Reg::TpConvFreq);
    assert_eq!(w.data, vec![0x02, 0x1A, 0x02, 0x1A]);
    let w = c.write_config(6);
    assert_eq!(w.reg, Reg::TpHardware);
    assert_eq!(w.data, vec![0x03, 0x9C, 0x67, 0x9C]);
    let w = c.write_config(7);
    assert_eq!(w.reg, Reg::TpRxSettings);
    assert_eq!(&w.data[0..4], &[0x14, 3, 2, 2]);
    let w = c.write_config(8);
    assert_eq!(w.reg, Reg::SettingsVersion);
    assert_eq!(w.data, vec![0, 0]);
    let w = c.write_config(9);
    assert_eq!(w.reg, Reg::GestureEnable);
    assert_eq!(w.data, c.gestures.to_bytes().to_vec());
    let w = c.write_config(10);
    assert_eq!(w.reg, Reg::RxTxMapping0_1);
    assert_eq!(w.data, vec![0, 2, 4, 8, 9, 0, 0, 0, 0, 0, 0, 0, 0, 0]);
    let cycles = c.pinout.cycles();
    let w = c.write_config(11);
    assert_eq!(w.reg, Reg::ProxACycle0);
    assert_eq!(w.data, cycles[0..30].to_vec());
    let w = c.write_config(12);
    assert_eq!(w.reg, Reg::ProxACycle10);
    assert_eq!(w.data, cycles[30..60].to_vec());
    let w = c.write_config(13);
    assert_eq!(w.reg, Reg::ProxACycle20);
    assert_eq!(w.data, vec![0x05, 0xFF, 0xFF, 0x01]);
    for k in 0..CONFIG_WRITES {
        assert!(c.write_config(k).data.len() <= 31);
    }
}

#[test]
fn control_requests_change_one_bit() {
    let raw = SysControl::default().to_bytes();
    let r: Result<[u8; 2], Error<()>> = Iqs7211e::ack_reset(raw);
    assert_eq!(r.unwrap(), [0x83, 0x00]);
    let r: Result<[u8; 2], Error<()>> = Iqs7211e::trigger_autotune(raw);
    assert_eq!(r.unwrap(), [0x23, 0x00]);
    let r: Result<[u8; 2], Error<()>> = Iqs7211e::trigger_autotune_for_alp(raw);
    assert_eq!(r.unwrap(), [0x43, 0x00]);
    let r: Result<[u8; 2], Error<()>> = Iqs7211e::software_reset(raw);
    assert_eq!(r.unwrap(), [0x03, 0x02]);
    let r: Result<[u8; 2], Error<()>> = Iqs7211e::set_charge_mode(raw, ChargeMode::Active);
    assert_eq!(r.unwrap(), [0x00, 0x00]);
    let r: Result<[u8; 2], Error<()>> = Iqs7211e::set_charge_mode([0xFC, 0x8A], ChargeMode::Idle);
    assert_eq!(r.unwrap(), [0xFA, 0x8A]);
    // Reserved bits are written back as zero.
    let r: Result<[u8; 2], Error<()>> = Iqs7211e::ack_reset([0x00, 0x75]);
    assert_eq!(r.unwrap(), [0x80, 0x00]);
    // A charge mode that does not exist cannot be written back.
    let r: Result<[u8; 2], Error<()>> = Iqs7211e::ack_reset([0x05, 0x00]);
    assert!(matches!(r, Err(Error::BufferOverflow)));
    let r: Result<[u8; 2], Error<()>> = Iqs7211e::software_reset([0x07, 0x00]);
    assert!(matches!(r, Err(Error::BufferOverflow)));

    assert_eq!(Iqs7211e::set_interrupt_mode([0x2C, 0x06], InterruptMode::Event), [0x2C, 0x07]);
    assert_eq!(Iqs7211e::set_interrupt_mode([0x2C, 0x07], InterruptMode::Stream), [0x2C, 0x06]);
    assert_eq!(Iqs7211e::set_manual_control([0x2C, 0x06], true), [0xAC, 0x06]);
    assert_eq!(Iqs7211e::set_manual_control([0xAC, 0x06], false), [0x2C, 0x06]);
    assert_eq!(Iqs7211e::config_settings([0x2C, 0x06]), Default::default());
    assert_eq!(
        Iqs7211e::app_version([0x58, 0x04, 9, 0, 8, 0, 1, 0, 0, 0]).number,
        iqs7211e::reg::PRODUCT_NUMBER
    );
}
