use iqs7211e::config::alp::{Alp, AlpSensingMode};
use iqs7211e::config::auto_tune::{AlpCompensation, AutoTune, Tune};
use iqs7211e::config::conversion::{ConversionFrequency, Frequency};
use iqs7211e::config::gesture::{GestureEnable, Gestures, Swipe, SwipeConfig, Tap, TapConfig};
use iqs7211e::config::hardware::{
    AlpHardware, AutoProxCycles, CSCap, CSDischarge, Hardware, InitDelay, MaxCount, OpampBias,
    TrackpadHardware,
};
use iqs7211e::config::output::{AlpFilterBetas, AlpOutput, ChannelOutput, TouchOutput};
use iqs7211e::config::timing::{ReportRate, Timeouts, Timing};
use iqs7211e::config::trackpad::{
    Axes, AxesInset, DynamicFilterConfig, Filters, IrrFilter, MaxTouches, Resolution, Trackpad,
};
use iqs7211e::config::SystemSettings;
use iqs7211e::control::config_settings::{ConfigSettings, EventTriggers, InterruptMode};
use iqs7211e::control::system_control::{ChargeMode, SysControl};
use iqs7211e::control::Version;
use iqs7211e::wire::{i16_from_le, u16_from_le, u16_to_be, u16_to_le, u32_from_le, u32_to_le};

#[test]
fn numbers_are_split_into_bytes() {
    assert_eq!(u16_to_le(0x1234), [0x34, 0x12]);
    assert_eq!(u16_to_be(0x1234), [0x12, 0x34]);
    assert_eq!(u16_from_le(0x34, 0x12), 0x1234);
    assert_eq!(u32_to_le(0xDEADBEEF), [0xEF, 0xBE, 0xAD, 0xDE]);
    assert_eq!(u32_from_le(0xEF, 0xBE, 0xAD, 0xDE), 0xDEADBEEF);
    assert_eq!(i16_from_le(0xF6, 0xFF), -10);
    assert_eq!(i16_from_le(0x00, 0x80), i16::MIN);
    assert_eq!(i16_from_le(0xFF, 0x7F), i16::MAX);
    assert_eq!(i16_from_le(0x05, 0x00), 5);
}

#[test]
fn auto_tune_defaults_have_their_bytes() {
    let bytes = AutoTune::default().to_bytes();
    assert_eq!(
        bytes,
        [
            0xB9, 0x01, 0xD2, 0x01, // low-power compensation 441, 466
            0xE1, 0x31, 0x09, 0x32, 0x2C, 0x01, // trackpad tuning
            0x32, 0x00, // retune threshold 50
            0xE1, 0x31, 0x04, 0x14, 0xC8, 0x00, // low-power tuning
        ]
    );
    assert_eq!(AutoTune::from_bytes(bytes), AutoTune::default());
    assert_eq!(Tune::default().to_scale_word(), 1 + (15 << 5) + (24 << 9));
    assert_eq!(AlpCompensation::from_bytes([0xB9, 0x01, 0xD2, 0x01]), AlpCompensation::default());
}

#[test]
fn tune_fields_are_cut_to_their_bits() {
    // 33 has six bits, 17 five, 40 six: the top bit of each is dropped.
    let wide = Tune::new(33, 17, 40, 9, 50, 300);
    assert_eq!(wide.to_scale_word(), 1 + (1 << 5) + (8 << 9));
    assert_eq!(Tune::from_bytes(wide.to_bytes()), Tune::new(1, 1, 8, 9, 50, 300));
    // The two top bits of the scale word are not read.
    assert_eq!(Tune::from_bytes([0xFF, 0xFF, 1, 2, 3, 4]), Tune::new(31, 15, 31, 1, 2, 0x0403));
}

#[test]
fn tune_builders() {
    let t = Tune::default()
        .with_target(1)
        .with_drift_limit(2)
        .with_dividier_multiplier(3, 4, 5)
        .with_compensation_divider(6);
    assert_eq!(t, Tune::new(3, 4, 5, 6, 2, 1));
    let a = AutoTune::default()
        .with_tuning(t, 77)
        .with_alp_tuning(Tune::new(1, 2, 3, 4, 5, 6), AlpCompensation::new(7, 8));
    assert_eq!(a, AutoTune::new(AlpCompensation::new(7, 8), t, 77, Tune::new(1, 2, 3, 4, 5, 6)));
    assert_eq!(AutoTune::from_bytes(a.to_bytes()), a);
}

#[test]
fn timing_defaults_have_their_bytes() {
    let bytes = Timing::default().to_bytes();
    assert_eq!(
        bytes,
        [
            0x0A, 0x00, 0x32, 0x00, 0x14, 0x00, 0x50, 0x00, 0xA0, 0x00, // report rates
            0x0A, 0x00, 0x3C, 0x00, 0x0A, 0x00, 0x0A, 0x00, // timeouts
            0x05, 0x08, // retry delay, sampling interval
            0x64, 0x00, // bus timeout
        ]
    );
    assert_eq!(Timing::from_bytes(bytes), Timing::new());
    assert_eq!(ReportRate::default(), ReportRate::new(10, 50, 20, 80, 160));
    assert_eq!(Timeouts::default(), Timeouts::new(10, 60, 10, 10));
    // Six bits each: 64 wraps to 0, 127 to 63.
    let wide = Timing {
        retune_retry_delay: 64,
        long_term_average_reference_sampling_interval: 127,
        ..Timing::new()
    };
    assert_eq!(wide.to_bytes()[18], 0);
    assert_eq!(wide.to_bytes()[19], 63);
    assert_eq!(ReportRate::from_bytes(ReportRate::new(1, 2, 3, 4, 0xFFFF).to_bytes()).lp2, 0xFFFF);
    assert_eq!(Timeouts::from_bytes([1, 0, 2, 0, 3, 0, 4, 1]), Timeouts::new(1, 2, 3, 260));
}

#[test]
fn alp_setup_has_its_bytes() {
    assert_eq!(Alp::default().to_bytes(), [0x00, 0x03, 0x00, 0x00]);
    let alp = Alp::new(AlpSensingMode::SelfCapacitance, true, 0x81, 0x1102);
    assert_eq!(alp.to_bytes(), [0x81, 0x02, 0x02, 0x11]);
    assert_eq!(Alp::from_bytes(alp.to_bytes()), alp);
    // Thirteen Tx bits: the top three are dropped.
    assert_eq!(Alp::new(AlpSensingMode::ProjectedCapacitance, false, 0, 0xFFFF).to_bytes(),
        [0x00, 0x01, 0xFF, 0x1F]);
    assert_eq!(
        Alp::default().with_mode(AlpSensingMode::SelfCapacitance).with_count_filter(false),
        Alp::new(AlpSensingMode::SelfCapacitance, false, 0, 0)
    );
    assert_eq!(AlpSensingMode::from_bits(0b10), AlpSensingMode::SelfCapacitance);
    assert_eq!(AlpSensingMode::from_bits(0b11), AlpSensingMode::ProjectedCapacitance);
    assert_eq!(AlpSensingMode::ProjectedCapacitance.to_bits(), 1);
}

#[test]
fn channel_output_defaults_have_their_bytes() {
    let bytes = ChannelOutput::default().to_bytes();
    assert_eq!(bytes, [0x02, 0x02, 0x08, 0x00, 0x04, 0x04, 0xDC, 0x08, 0xF0, 0x10]);
    assert_eq!(ChannelOutput::from_bytes(bytes), ChannelOutput::default());
    let c = ChannelOutput::default()
        .with_touch(TouchOutput::new(50, 20))
        .with_alp(AlpOutput::new(0x0102, 3, 4))
        .with_alp_filter_lp1(AlpFilterBetas::new(5, 6))
        .with_alp_filter_lp2(AlpFilterBetas::new(7, 8));
    assert_eq!(c.to_bytes(), [50, 20, 0x02, 0x01, 3, 4, 5, 6, 7, 8]);
    assert_eq!(ChannelOutput::from_bytes(c.to_bytes()), c);
    assert_eq!(
        c,
        ChannelOutput::new(
            TouchOutput::new(50, 20),
            AlpOutput::new(0x0102, 3, 4),
            AlpFilterBetas::new(5, 6),
            AlpFilterBetas::new(7, 8)
        )
    );
}

#[test]
fn conversion_frequency_has_its_bytes() {
    let bytes = ConversionFrequency::default().to_bytes();
    assert_eq!(bytes, [0x02, 0x1A, 0x02, 0x1A]);
    let c = ConversionFrequency::new(Frequency::new(1, 127), Frequency::new(53, 0));
    assert_eq!(c.to_bytes(), [1, 127, 53, 0]);
    assert_eq!(ConversionFrequency::from_bytes([1, 127, 53, 0]), c);
}

#[test]
fn hardware_defaults_have_their_bytes() {
    assert_eq!(TrackpadHardware::default().to_word(), 0x9C03);
    assert_eq!(AlpHardware::default().to_word(), 0x9C67);
    let bytes = Hardware::default().to_bytes();
    assert_eq!(bytes, [0x03, 0x9C, 0x67, 0x9C]);
    assert_eq!(Hardware::from_bytes(bytes), Some(Hardware::default()));
    assert_eq!(TrackpadHardware::from_bytes([0x03, 0x9C]), TrackpadHardware::default());
}

#[test]
fn hardware_fields_have_their_bits() {
    let t = TrackpadHardware::new(
        InitDelay::Cycles16,
        MaxCount::Count4095,
        OpampBias::Microamp5,
        CSCap::Picofarad40,
        true,
        CSDischarge::To0_5v,
        false,
    );
    assert_eq!(t.to_word(), 1 | (2 << 8) | (1 << 10) | (1 << 13) | (1 << 14));
    assert_eq!(TrackpadHardware::from_word(t.to_word()), t);
    // Bits 2 to 7 are not part of the trackpad settings.
    assert_eq!(TrackpadHardware::from_word(t.to_word() | 0x00FC), t);

    let a = AlpHardware::default()
        .with_init_delay(InitDelay::Cycles4)
        .with_lp1_auto_prox_cycles(AutoProxCycles::Disabled)
        .with_lp2_auto_prox_cycles(AutoProxCycles::Cycles16)
        .with_max_count(MaxCount::Count16384)
        .with_opamp_bias(OpampBias::Microamp7)
        .with_cs_cap(CSCap::Picofarad40)
        .with_rf_filter(true)
        .with_cs_discharge(CSDischarge::To0_5v)
        .with_nm_in_static(false);
    assert_eq!(a.to_word(), (4 << 2) | (2 << 5) | (3 << 8) | (2 << 10) | (1 << 13) | (1 << 14));
    assert_eq!(AlpHardware::from_bytes(a.to_bytes()), Some(a));
    let h = Hardware::default().with_trackpad(t).with_alp(a);
    assert_eq!(h, Hardware::new(t, a));
    assert_eq!(Hardware::from_bytes(h.to_bytes()), Some(h));
}

#[test]
fn unknown_auto_prox_cycles_fail_decoding() {
    for code in 5u8..8 {
        assert_eq!(AutoProxCycles::from_bits(code), None);
        // In the first low-power mode, bits 2 to 4 ...
        assert_eq!(AlpHardware::from_bytes([code << 2, 0]), None);
        // ... and in the second, bits 5 to 7.
        assert_eq!(AlpHardware::from_bytes([code << 5, 0]), None);
        assert_eq!(Hardware::from_bytes([0, 0, code << 2, 0]), None);
    }
    assert_eq!(AutoProxCycles::from_bits(4), Some(AutoProxCycles::Disabled));
    assert_eq!(AutoProxCycles::from_bits(8 + 3), Some(AutoProxCycles::Cycles32));
    assert!(AlpHardware::from_bytes([0, 0]).is_some());
}

#[test]
fn hardware_enums_have_their_codes() {
    assert_eq!(InitDelay::Cycles4.to_bits(), 0);
    assert_eq!(InitDelay::Cycles64.to_bits(), 3);
    assert_eq!(InitDelay::from_bits(2), InitDelay::Cycles32);
    assert_eq!(InitDelay::from_bits(4 + 1), InitDelay::Cycles16);
    assert_eq!(MaxCount::from_bits(1), MaxCount::Count2047);
    assert_eq!(MaxCount::Count16384.to_bits(), 3);
    assert_eq!(OpampBias::from_bits(0), OpampBias::Microamp2);
    assert_eq!(OpampBias::Microamp10.to_bits(), 3);
    assert_eq!(CSCap::from_bits(2), CSCap::Picofarad40);
    assert_eq!(CSCap::Picofarad80.to_bits(), 1);
    assert_eq!(CSDischarge::from_bits(1), CSDischarge::To0_5v);
    assert_eq!(CSDischarge::To0v.to_bits(), 0);
    assert_eq!(AutoProxCycles::Cycles8.to_bits(), 1);
}

#[test]
fn trackpad_defaults_have_their_bytes() {
    let bytes = Trackpad::new().to_bytes();
    assert_eq!(
        bytes,
        [
            0x14, // dynamic filter with moving average
            0x00, 0x00, // no electrodes
            0x02, // two contacts
            0xE8, 0x03, 0xE8, 0x03, // resolution 1000 x 1000
            0x06, 0x00, 0x7C, 0x00, 0x07, // dynamic filter
            0x80, 0x14, 0x03, // static beta, stationary threshold, split factor
            0x14, 0x14, // inset
        ]
    );
    assert_eq!(Trackpad::from_bytes(bytes), Some(Trackpad::default()));
    assert_eq!(Trackpad::default(), Trackpad::new());
}

#[test]
fn trackpad_builders() {
    let t = Trackpad::new()
        .with_axes(Axes::new(true, false, false), Resolution::new(800, 600), AxesInset::uniform(5))
        .with_static_filter(false, 99)
        .single_touch();
    assert_eq!(t.axes, Axes::new(true, false, false));
    assert_eq!(t.resolution, Resolution::new(800, 600));
    assert_eq!(t.axes_inset, AxesInset::new(5, 5));
    assert_eq!(t.filters, Filters::new(IrrFilter::Fixed, false));
    assert_eq!(t.static_filter_beta, 99);
    assert_eq!(t.max_simultaneous_touches, MaxTouches::One);
    // Flip X (1), fixed filter (2 << 2), no moving average.
    assert_eq!(t.to_bytes()[0], 0x09);
    assert_eq!(t.to_bytes()[3], 0x01);
    assert_eq!(Trackpad::from_bytes(t.to_bytes()), Some(t));

    let m = t.multi_touch(7).with_dynamic_filter(DynamicFilterConfig::new(1, 2, 3));
    assert_eq!(m.max_simultaneous_touches, MaxTouches::Two);
    assert_eq!(m.multitouch_finger_split_factor, 7);
    assert_eq!(m.filters, Filters::dynamic());
    assert_eq!(m.dynamic_filter, DynamicFilterConfig::new(1, 2, 3));
    assert_eq!(m.without_filters().filters, Filters::disabled());
    assert_eq!(m.without_filters().to_bytes()[0], 0x01);
    assert_eq!(Filters::default(), Filters::dynamic());
    assert_eq!(Filters::fixed(), Filters::new(IrrFilter::Fixed, true));
    assert_eq!(MaxTouches::default(), MaxTouches::Two);
}

#[test]
fn trackpad_keeps_the_flips_but_not_the_swap() {
    let swapped = Trackpad::new().with_axes(
        Axes::new(true, true, true),
        Resolution::default(),
        AxesInset::default(),
    );
    // The settings byte has two bits for the orientation.
    assert_eq!(swapped.to_bytes()[0], 0x03 | 0x14);
    let back = Trackpad::from_bytes(swapped.to_bytes()).unwrap();
    assert_eq!(back.axes, Axes::new(true, true, false));
    // On its own the orientation has three bits.
    assert_eq!(Axes::new(true, true, true).to_word(), 7);
    assert_eq!(Axes::from_word(7), Axes::new(true, true, true));
    assert_eq!(Axes::from_word(4), Axes::new(false, false, true));
    assert_eq!(Axes::default(), Axes::new(false, false, false));
}

#[test]
fn unknown_filter_or_contact_count_fails_decoding() {
    let mut bytes = Trackpad::new().to_bytes();
    bytes[0] = 0x03 << 2; // filter code 3
    assert_eq!(Trackpad::from_bytes(bytes), None);
    bytes[0] = 0x14;
    bytes[3] = 0; // no contact at all
    assert_eq!(Trackpad::from_bytes(bytes), None);
    bytes[3] = 3;
    assert_eq!(Trackpad::from_bytes(bytes), None);
    bytes[3] = 0xFD; // only the low two bits count
    assert_eq!(Trackpad::from_bytes(bytes).unwrap().max_simultaneous_touches, MaxTouches::One);
    assert_eq!(IrrFilter::from_bits(3), None);
    assert_eq!(IrrFilter::from_bits(2), Some(IrrFilter::Fixed));
    assert_eq!(IrrFilter::Fixed.to_bits(), 2);
    assert_eq!(MaxTouches::from_bits(0), None);
    assert_eq!(MaxTouches::from_bits(1), Some(MaxTouches::One));
    assert_eq!(MaxTouches::Two.to_bits(), 2);
    assert_eq!(Filters::from_word(3), None);
    assert_eq!(Filters::from_word(6), Some(Filters::new(IrrFilter::Fixed, true)));
    assert_eq!(Filters::dynamic().to_word(), 5);
}

#[test]
fn gestures_defaults_have_their_bytes() {
    let bytes = Gestures::default().to_bytes();
    assert_eq!(
        bytes,
        [
            0x00, 0x00, // nothing enabled
            0x96, 0x00, 0x96, 0x00, 0x32, 0x00, // tap 150 ms, 150 ms, 50 px
            0x2C, 0x01, // hold 300 ms
            0x96, 0x00, 0xC8, 0x00, 0xC8, 0x00, 0x64, 0x00, 0x64, 0x00, 0x17, // swipe
            0x1E, // palm 30
        ]
    );
    assert_eq!(Gestures::from_bytes(bytes), Gestures::default());
    assert_eq!(GestureEnable::default(), GestureEnable::none());
    assert_eq!(TapConfig::default(), TapConfig::new(150, 150, 50));
    assert_eq!(SwipeConfig::default(), SwipeConfig::new(150, 200, 200, 100, 100, 23));
    assert_eq!(Tap::default(), Tap::none());
    assert_eq!(Swipe::default(), Swipe::none());
}

#[test]
fn gesture_enable_bits() {
    assert_eq!(Gestures::default().enable_all().to_bytes()[0..2], [0x1F, 0xFF]);
    assert_eq!(Gestures::default().enable_tap(Tap::single()).to_bytes()[0..2], [0x01, 0x00]);
    assert_eq!(Gestures::default().enable_tap(Tap::double()).to_bytes()[0..2], [0x02, 0x00]);
    assert_eq!(Gestures::default().enable_tap(Tap::triple()).to_bytes()[0..2], [0x04, 0x00]);
    assert_eq!(
        Gestures::default().enable_tap(Tap::single_and_double()).to_bytes()[0..2],
        [0x03, 0x00]
    );
    assert_eq!(Gestures::default().enable_press_and_hold().to_bytes()[0..2], [0x08, 0x00]);
    assert_eq!(Gestures::default().enable_palm().to_bytes()[0..2], [0x10, 0x00]);
    assert_eq!(
        Gestures::default().enable_swipe(Swipe::horizontal()).to_bytes()[0..2],
        [0x00, 0x03]
    );
    assert_eq!(
        Gestures::default().enable_swipe(Swipe::vertical()).to_bytes()[0..2],
        [0x00, 0x0C]
    );
    assert_eq!(
        Gestures::default().enable_swipe_and_hold(Swipe::new(true, false, false, true)).to_bytes()
            [0..2],
        [0x00, 0x90]
    );
    let e = GestureEnable::new(Tap::all(), false, true, Swipe::all(), Swipe::none());
    assert_eq!(e.to_word(), 0x0F17);
    assert_eq!(GestureEnable::from_word(0x0F17), e);
    // Bits 5 to 7 are reserved.
    assert_eq!(GestureEnable::from_word(0x0FF7), e);
    assert_eq!(Tap::from_word(5), Tap::new(true, false, true));
    assert_eq!(Swipe::from_word(10), Swipe::new(false, true, false, true));
    assert_eq!(Swipe::all().to_word(), 15);
}

#[test]
fn gesture_limits_builders() {
    let g = Gestures::new(
        GestureEnable::none(),
        TapConfig::default(),
        300,
        SwipeConfig::default(),
        30,
    )
    .use_tap_config(TapConfig::new(1, 2, 3))
    .use_swipe_config(
        SwipeConfig::symmetric(4, 5, 6, 7)
            .with_duration(8)
            .with_distance(9, 10)
            .with_angle(11)
            .with_consecutive_distance(12, 13),
    )
    .use_hold_duration(14)
    .use_palm_threshold(15);
    assert_eq!(g.tap, TapConfig::new(1, 2, 3));
    assert_eq!(g.swipe, SwipeConfig::new(8, 9, 10, 12, 13, 11));
    assert_eq!(SwipeConfig::symmetric(4, 5, 6, 7), SwipeConfig::new(4, 5, 5, 6, 6, 7));
    assert_eq!(g.hold_duration, 14);
    assert_eq!(g.palm_threshold, 15);
    assert_eq!(
        g.to_bytes(),
        [0, 0, 1, 0, 2, 0, 3, 0, 14, 0, 8, 0, 9, 0, 10, 0, 12, 0, 13, 0, 11, 15]
    );
    assert_eq!(Gestures::from_bytes(g.to_bytes()), g);
}

#[test]
fn config_settings_have_their_bits() {
    assert_eq!(ConfigSettings::default().to_word(), 0x062C);
    assert_eq!(ConfigSettings::default().to_bytes(), [0x2C, 0x06]);
    assert_eq!(ConfigSettings::from_bytes([0x2C, 0x06]), ConfigSettings::default());
    let all = ConfigSettings {
        trackpad_autotune: true,
        alp_autotune: true,
        comms_request: true,
        watchdog: true,
        end_comms: true,
        manual_control: true,
        interrupt_mode: InterruptMode::Event,
        event_triggers: EventTriggers::new(true, true, true, true, true),
    };
    // Bits 0, 1, 12 and 15 are reserved.
    assert_eq!(all.to_word(), 0x6FFC);
    assert_eq!(ConfigSettings::from_word(0xFFFF), all);
    assert_eq!(EventTriggers::new(false, false, false, true, true).to_word(), 0x30);
    assert_eq!(EventTriggers::from_word(0x07), EventTriggers::new(true, true, true, false, false));
    assert_eq!(InterruptMode::from_bits(0), InterruptMode::Stream);
    assert_eq!(InterruptMode::from_bits(3), InterruptMode::Event);
    assert_eq!(InterruptMode::Event.to_bits(), 1);
}

#[test]
fn system_control_has_its_bits() {
    assert_eq!(SysControl::default().to_word(), 0x0003);
    let all = SysControl {
        charge_mode: ChargeMode::LowPower2,
        trackpad_reseed: true,
        alp_reseed: true,
        trackpad_retune: true,
        alp_retune: true,
        ack_reset: true,
        sw_reset: true,
        suspend: true,
        tx_test: true,
    };
    assert_eq!(all.to_word(), 0x8AFC);
    assert_eq!(SysControl::from_bytes([0xFC, 0x8A]), Some(all));
    assert_eq!(SysControl::from_bytes([0x05, 0x00]), None);
    assert_eq!(SysControl::from_bytes([0x06, 0x00]), None);
    assert_eq!(SysControl::from_bytes([0x07, 0x00]), None);
    assert_eq!(ChargeMode::from_bits(0), Some(ChargeMode::Active));
    assert_eq!(ChargeMode::from_bits(1), Some(ChargeMode::IdleTouch));
    assert_eq!(ChargeMode::from_bits(2), Some(ChargeMode::Idle));
    assert_eq!(ChargeMode::from_bits(3), Some(ChargeMode::LowPower1));
    assert_eq!(ChargeMode::from_bits(8 + 4), Some(ChargeMode::LowPower2));
    assert_eq!(ChargeMode::from_bits(5), None);
    assert_eq!(SystemSettings::default().to_bytes(), [0x03, 0x00, 0x2C, 0x06, 0x00, 0x00]);
    assert_eq!(
        SystemSettings::from_bytes([0x03, 0x00, 0x2C, 0x06, 0x34, 0x12]),
        Some(SystemSettings::new(SysControl::default(), ConfigSettings::default(), 0x1234))
    );
    assert_eq!(SystemSettings::from_bytes([0x07, 0x00, 0x2C, 0x06, 0, 0]), None);
}

#[test]
fn version_has_its_bytes() {
    let v = Version { number: 0x0458, major: 1, minor: 2, commit: 0xDEADBEEF };
    assert_eq!(v.to_bytes(), [0x58, 0x04, 0x01, 0x00, 0x02, 0x00, 0xEF, 0xBE, 0xAD, 0xDE]);
    assert_eq!(Version::from_bytes(v.to_bytes()), v);
    // Bytes 3 and 5 are not part of the version.
    assert_eq!(
        Version::from_bytes([0x58, 0x04, 0x01, 0xFF, 0x02, 0xFF, 0xEF, 0xBE, 0xAD, 0xDE]),
        v
    );
}

#[test]
fn records_survive_a_round_trip() {
    for k in 0u16..=255 {
        let b = k as u8;
        let w = k.wrapping_mul(257) ^ 0x5A5A;
        let tune = Tune::new(b % 32, b % 16, (b / 8) % 32, b, !b, w);
        assert_eq!(Tune::from_bytes(tune.to_bytes()), tune);
        let alp = Alp::new(
            AlpSensingMode::from_bits(b),
            b & 2 != 0,
            b,
            w % 8192,
        );
        assert_eq!(Alp::from_bytes(alp.to_bytes()), alp);
        let hw = TrackpadHardware::new(
            InitDelay::from_bits(b),
            MaxCount::from_bits(b >> 2),
            OpampBias::from_bits(b >> 4),
            CSCap::from_bits(b >> 6),
            b & 1 != 0,
            CSDischarge::from_bits(b >> 7),
            b & 4 != 0,
        );
        assert_eq!(TrackpadHardware::from_word(hw.to_word()), hw);
        let settings = ConfigSettings::from_word(w);
        assert_eq!(ConfigSettings::from_word(settings.to_word()), settings);
        if let Some(control) = SysControl::from_word(w) {
            assert_eq!(SysControl::from_word(control.to_word()), Some(control));
        }
        if let Some(alp_hw) = AlpHardware::from_word(w) {
            assert_eq!(AlpHardware::from_word(alp_hw.to_word()), Some(alp_hw));
        }
        let enable = GestureEnable::from_word(w);
        assert_eq!(GestureEnable::from_word(enable.to_word()), enable);
    }
}
