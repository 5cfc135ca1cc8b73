use iqs7211e::reg::{Reg, I2C_ADDR, PRODUCT_NUMBER};
use iqs7211e::rw::{
    force_comms_frame, read_ext_frame, read_frame, read_u16, slice_to_vec, to_vec,
    write_frame,
};
use iqs7211e::config::auto_tune::Tune;
use iqs7211e::config::timing::Timing;
use iqs7211e::config::trackpad::Trackpad;
use iqs7211e::control::system_control::SysControl;
use iqs7211e::report::Finger;
use iqs7211e::rw::Record;
use iqs7211e::{Error, Iqs7211e};

#[test]
fn write_of_31_bytes_succeeds() {
    let data = [0xABu8; 31];
    let frame: Result<Vec<u8>, Error<()>> = write_frame(Reg::ProxACycle0, &data);
    let frame = frame.unwrap();
    assert_eq!(frame.len(), 32);
    assert_eq!(frame[0], 0x5D);
    assert_eq!(&frame[1..], &data[..]);
}

#[test]
fn write_of_32_bytes_overflows() {
    let data = [0u8; 32];
    let frame: Result<Vec<u8>, Error<()>> = write_frame(Reg::ProxACycle0, &data);
    assert!(matches!(frame, Err(Error::BufferOverflow)));
    let frame: Result<Vec<u8>, Error<()>> = write_frame(Reg::AppVersion, &[0u8; 200]);
    assert!(matches!(frame, Err(Error::BufferOverflow)));
}

#[test]
fn write_frame_starts_with_the_register_address() {
    let frame: Result<Vec<u8>, Error<()>> = write_frame(Reg::SysControl, &[0x03, 0x00]);
    assert_eq!(frame.unwrap(), vec![0x33, 0x03, 0x00]);
    let frame: Result<Vec<u8>, Error<()>> = write_frame(Reg::SettingsVersion, &[]);
    assert_eq!(frame.unwrap(), vec![0x4A]);
}

#[test]
fn read_frames_hold_the_address() {
    assert_eq!(read_frame(Reg::InfoFlags), [0x0F]);
    assert_eq!(read_frame(Reg::Finger1X), [0x10]);
    // Extended pages are addressed with the high byte first.
    assert_eq!(read_ext_frame(0xE100), [0xE1, 0x00]);
    assert_eq!(read_ext_frame(0xE229), [0xE2, 0x29]);
    assert_eq!(force_comms_frame(), [0xFF, 0x00]);
}

#[test]
fn register_values_are_little_endian() {
    assert_eq!(read_u16([0x58, 0x04]), PRODUCT_NUMBER);
    assert_eq!(read_u16([0xFF, 0x00]), 255);
    assert_eq!(read_u16([0x00, 0xFF]), 0xFF00);
}

#[test]
fn register_map() {
    assert_eq!(I2C_ADDR, 0x56);
    assert_eq!(Reg::AppVersion.addr(), 0x00);
    assert_eq!(Reg::Gestures.addr(), 0x0E);
    assert_eq!(Reg::AlpAutoTuningCompA.addr(), 0x1F);
    assert_eq!(Reg::ActiveModeReportRate.addr(), 0x28);
    assert_eq!(Reg::SysControl.addr(), 0x33);
    assert_eq!(Reg::ConfigSettings.addr(), 0x34);
    assert_eq!(Reg::AlpSetup.addr(), 0x36);
    assert_eq!(Reg::TouchSetClearMultipliers.addr(), 0x38);
    assert_eq!(Reg::TpConvFreq.addr(), 0x3D);
    assert_eq!(Reg::TpHardware.addr(), 0x3F);
    assert_eq!(Reg::AlpHardware.addr(), 0x40);
    assert_eq!(Reg::TpRxSettings.addr(), 0x41);
    assert_eq!(Reg::SettingsVersion.addr(), 0x4A);
    assert_eq!(Reg::GestureEnable.addr(), 0x4B);
    assert_eq!(Reg::RxTxMapping0_1.addr(), 0x56);
    assert_eq!(Reg::ProxACycle0.addr(), 0x5D);
    assert_eq!(Reg::ProxACycle10.addr(), 0x6C);
    assert_eq!(Reg::ProxACycle20.addr(), 0x7B);
    assert_eq!(Reg::ProxBCycle20.addr(), 0x7C);
}

#[test]
fn blocks_are_copied() {
    let block = [1u8, 2, 3, 4, 5];
    assert_eq!(to_vec(&block), vec![1, 2, 3, 4, 5]);
    assert_eq!(slice_to_vec(&block, 1, 4), vec![2, 3, 4]);
    assert_eq!(slice_to_vec(&block, 2, 2), Vec::<u8>::new());
}

#[test]
fn a_record_that_was_written_is_read_back() {
    let finger = Finger::new(0x0102, 0x0304, 0x0506, 0x0708);
    let frame: Result<Vec<u8>, Error<()>> = Iqs7211e::write(Reg::Finger1X, finger);
    let frame = frame.unwrap();
    assert_eq!(frame, vec![0x10, 0x02, 0x01, 0x04, 0x03, 0x06, 0x05, 0x08, 0x07]);
    let mut answer = [0u8; 8];
    answer.copy_from_slice(&frame[1..]);
    let back: Result<Finger, Error<()>> = Iqs7211e::read(answer);
    assert_eq!(back.unwrap(), finger);

    let tune = Tune::new(31, 15, 31, 255, 0, 0xFFFF);
    let frame: Result<Vec<u8>, Error<()>> = Iqs7211e::write(Reg::TpAutoTuningMultipliers, tune);
    let frame = frame.unwrap();
    assert_eq!(frame, vec![0x21, 0xFF, 0x3F, 0xFF, 0x00, 0xFF, 0xFF]);
    let mut answer = [0u8; 6];
    answer.copy_from_slice(&frame[1..]);
    let back: Result<Tune, Error<()>> = Iqs7211e::read(answer);
    assert_eq!(back.unwrap(), tune);

    let timing = Timing::new();
    let frame: Result<Vec<u8>, Error<()>> = Iqs7211e::write(Reg::ActiveModeReportRate, timing);
    let frame = frame.unwrap();
    assert_eq!(frame.len(), 23);
    assert_eq!(frame[0], 0x28);
    let mut answer = [0u8; 22];
    answer.copy_from_slice(&frame[1..]);
    let back: Result<Timing, Error<()>> = Iqs7211e::read(answer);
    assert_eq!(back.unwrap(), timing);
}

#[test]
fn bytes_that_stand_for_no_record_fail_the_read() {
    // Charge mode 6 does not exist.
    let control: Result<SysControl, Error<()>> = Iqs7211e::read([0x06, 0x00]);
    assert!(matches!(control, Err(Error::BufferOverflow)));
    let control: Result<SysControl, Error<()>> = Iqs7211e::read([0x03, 0x00]);
    assert_eq!(control.unwrap(), SysControl::default());
    // Filter code 3 does not exist.
    let mut bytes = Trackpad::new().to_bytes();
    bytes[0] = 0x0C;
    let trackpad: Result<Trackpad, Error<()>> = Iqs7211e::read(bytes);
    assert!(matches!(trackpad, Err(Error::BufferOverflow)));
}

#[test]
fn records_pack_as_their_codecs_do() {
    let tune = Tune::new(1, 15, 24, 9, 50, 300);
    assert_eq!(tune.pack(), tune.to_bytes());
    assert_eq!(<Tune as Record<6>>::unpack(tune.to_bytes()), Some(tune));
    assert_eq!(<SysControl as Record<2>>::unpack([0x05, 0x00]), None);
}
