use iqs7211e::control::system_control::ChargeMode;
use iqs7211e::report::{Finger, Gesture, InfoFlags, NumFingers, Report};
use iqs7211e::Error;

#[test]
fn num_fingers_decodes() {
    assert_eq!(NumFingers::from_bits(0b00), NumFingers::Zero);
    assert_eq!(NumFingers::from_bits(0b01), NumFingers::One);
    assert_eq!(NumFingers::from_bits(0b10), NumFingers::Two);
    assert!(matches!(NumFingers::from_bits(0b11), NumFingers::Reserved(0b11)));
}

#[test]
fn num_fingers_reads_the_low_two_bits_only() {
    assert_eq!(NumFingers::from_bits(0b1110), NumFingers::Two);
    assert_eq!(NumFingers::from_bits(0xFF), NumFingers::Reserved(3));
}

#[test]
fn finger_is_present_flag() {
    assert!(Finger::new(10, 20, 30, 40).is_present());
    assert!(!Finger::new(0xFFFF, 0xFFFF, 0, 0).is_present());
}

#[test]
fn finger_is_absent_only_with_both_coordinates_at_the_mark() {
    assert!(Finger::new(0xFFFF, 20, 0, 0).is_present());
    assert!(Finger::new(10, 0xFFFF, 0, 0).is_present());
    assert!(!Finger::absent().is_present());
    assert_eq!(Finger::default(), Finger::absent());
}

#[test]
fn finger_packbits_roundtrip() {
    let finger = Finger::new(0x0102, 0x0304, 0x0506, 0x0708);
    let packed: [u8; 8] = finger.to_bytes();
    assert_eq!(packed, [0x02, 0x01, 0x04, 0x03, 0x06, 0x05, 0x08, 0x07]);

    let decoded = Finger::from_bytes(packed);
    assert_eq!(decoded, finger);
}

#[test]
fn gesture_try_from_enforces_single_bit() {
    assert_eq!(Gesture::from_code(0b0000_0000_0000_0001u16), Some(Gesture::SingleTap));
    assert_eq!(Gesture::from_code(0b0000_0001_0000_0000u16), Some(Gesture::SwipeXPositive));
    assert!(Gesture::from_code(0b0000_0000_0000_0011u16).is_none());
}

#[test]
fn gesture_codes_round_trip() {
    let all = [
        (Gesture::SingleTap, 0x0001u16),
        (Gesture::DoubleTap, 0x0002),
        (Gesture::TripleTap, 0x0004),
        (Gesture::PressHold, 0x0008),
        (Gesture::Palm, 0x0010),
        (Gesture::SwipeXPositive, 0x0100),
        (Gesture::SwipeXNegative, 0x0200),
        (Gesture::SwipeYPositive, 0x0400),
        (Gesture::SwipeYNegative, 0x0800),
        (Gesture::SwipeHoldXPositive, 0x1000),
        (Gesture::SwipeHoldXNegative, 0x2000),
        (Gesture::SwipeHoldYPositive, 0x4000),
        (Gesture::SwipeHoldYNegative, 0x8000),
    ];
    for (gesture, code) in all {
        assert_eq!(gesture.code(), code);
        assert_eq!(Gesture::from_code(code), Some(gesture));
    }
    // Zero, and bits that are no flag, stand for no gesture.
    assert_eq!(Gesture::from_code(0), None);
    assert_eq!(Gesture::from_code(0x0020), None);
    assert_eq!(Gesture::from_code(0x0080), None);
}

fn flags(show_reset: bool) -> InfoFlags {
    InfoFlags {
        charge_mode: ChargeMode::Idle,
        auto_tuning_error: false,
        re_auto_tuning_occurred: true,
        low_power_auto_tuning_error: false,
        low_power_re_auto_tuning_occurred: false,
        show_reset,
        num_fingers: 1,
        trackpad_movement: true,
        too_many_fingers: false,
        low_power_output: true,
    }
}

#[test]
fn info_flags_have_their_bits() {
    // Idle (2), auto-tuning done (bit 4), one finger (bit 8), movement
    // (bit 10), low-power output (bit 14).
    let info = flags(false);
    assert_eq!(info.to_word(), 0x4512);
    assert_eq!(info.to_bytes(), [0x12, 0x45]);
    assert_eq!(InfoFlags::from_bytes([0x12, 0x45]), Some(info));
    assert_eq!(flags(true).to_word(), 0x4592);
    // Charge modes 5 to 7 do not exist.
    assert_eq!(InfoFlags::from_bytes([0x05, 0x00]), None);
}

#[test]
fn report_is_decoded_from_the_registers() {
    let info = flags(false);
    let primary = Finger::new(10, 20, 30, 40);
    let r: Result<Report, Error<()>> = Report::from_registers(
        0x0002,
        info.to_bytes(),
        primary.to_bytes(),
        Finger::absent().to_bytes(),
    );
    let report = r.unwrap();
    assert_eq!(report.gesture, Some(Gesture::DoubleTap));
    assert_eq!(report.info, info);
    assert_eq!(report.primary_finger(), primary);
    assert_eq!(report.secondary_finger(), Finger::absent());
    assert_eq!(report.fingers(), (primary, Finger::absent()));

    // An unknown gesture code counts as no gesture.
    let r: Result<Report, Error<()>> =
        Report::from_registers(0x0003, info.to_bytes(), primary.to_bytes(), primary.to_bytes());
    assert_eq!(r.unwrap().gesture, None);

    // Status bytes that stand for no status are an error.
    let r: Result<Report, Error<()>> =
        Report::from_registers(0, [0x07, 0x00], primary.to_bytes(), primary.to_bytes());
    assert!(matches!(r, Err(Error::BufferOverflow)));
}
