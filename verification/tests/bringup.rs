use iqs7211e::config::pinout::{Pin, Pinout};
use iqs7211e::config::Config;
use iqs7211e::control::config_settings::{ConfigSettings, InterruptMode};
use iqs7211e::control::system_control::{ChargeMode, SysControl};
use iqs7211e::control::Version;
use iqs7211e::event::info::Info;
use iqs7211e::init::{Bringup, InitState, Progress};
use iqs7211e::reg::Reg;
use iqs7211e::report::{Finger, InfoFlags};
use iqs7211e::rw::{Request, Response};
use iqs7211e::{Error, Iqs7211e};

fn info(show_reset: bool, tuned: bool) -> Info {
    Info {
        charge_mode: ChargeMode::Active,
        auto_tuning_error: false,
        re_auto_tuning_occurred: tuned,
        alp_auto_tuning_error: false,
        alp_re_auto_tuning_occurred: false,
        show_reset,
        num_fingers: 0,
        trackpad_movement: false,
        too_many_fingers: false,
        alp_output: false,
    }
}

fn version(number: u16) -> Vec<u8> {
    Version { number, major: 1, minor: 2, commit: 0xDEADBEEF }.to_bytes().to_vec()
}

fn layout() -> Pinout {
    Pinout::new([Pin::RxTx0, Pin::RxTx4], [Pin::Tx8, Pin::Tx9], [Pin::RxTx0], [Pin::Tx8])
}

/// Hands `response` to bring-up and returns the request that follows.
fn next(bringup: &mut Bringup, response: Response<u8>) -> Request {
    assert!(bringup.expects(&response));
    match bringup.advance(response) {
        Progress::Next(request) => request,
        Progress::Done(outcome) => panic!("bring-up ended early: {:?}", outcome),
    }
}

fn expect_wait(request: Request) {
    assert!(matches!(request, Request::AwaitReady), "{:?}", request);
}

fn expect_read(request: Request, reg: Reg, len: usize) {
    match request {
        Request::Read { reg: r, len: l } => {
            assert_eq!(r, reg);
            assert_eq!(l, len);
        }
        other => panic!("expected a read, got {:?}", other),
    }
}

fn expect_write(request: Request, reg: Reg) -> Vec<u8> {
    match request {
        Request::Write { reg: r, data } => {
            assert_eq!(r, reg);
            assert!(data.len() <= 31);
            data
        }
        other => panic!("expected a write, got {:?}", other),
    }
}

#[test]
fn bringup_runs_its_steps_in_order() {
    let config = Config::default().with_pinout(layout()).with_interrupt_mode(InterruptMode::Event);
    let driver = Iqs7211e::new(config);
    let (mut b, first) = driver.initialize();
    expect_wait(first);
    assert_eq!(b.state(), InitState::VerifyProductId);

    // Identification.
    expect_read(next(&mut b, Response::Ready), Reg::AppVersion, 10);
    expect_wait(next(&mut b, Response::Data(version(0x0458))));
    assert_eq!(b.state(), InitState::AwaitResetAck);

    // No reset seen: a software reset is asked for, and the flags are read
    // again.
    expect_read(next(&mut b, Response::Ready), Reg::InfoFlags, 2);
    expect_read(
        next(&mut b, Response::Data(info(false, false).to_bytes().to_vec())),
        Reg::SysControl,
        2,
    );
    let control = SysControl { suspend: true, ..SysControl::default() };
    let written =
        expect_write(next(&mut b, Response::Data(control.to_bytes().to_vec())), Reg::SysControl);
    assert_eq!(written, SysControl { sw_reset: true, ..control }.to_bytes().to_vec());
    expect_wait(next(&mut b, Response::Written));
    assert_eq!(b.state(), InitState::AwaitResetAck);
    expect_read(next(&mut b, Response::Ready), Reg::InfoFlags, 2);
    expect_wait(next(&mut b, Response::Data(info(true, false).to_bytes().to_vec())));
    assert_eq!(b.state(), InitState::TransferConfig);

    // The configuration, in the order of the register map.
    let order = [
        (Reg::AlpAutoTuningCompA, 18),
        (Reg::ActiveModeReportRate, 22),
        (Reg::SysControl, 6),
        (Reg::AlpSetup, 4),
        (Reg::TouchSetClearMultipliers, 10),
        (Reg::TpConvFreq, 4),
        (Reg::TpHardware, 4),
        (Reg::TpRxSettings, 18),
        (Reg::SettingsVersion, 2),
        (Reg::GestureEnable, 22),
        (Reg::RxTxMapping0_1, 14),
        (Reg::ProxACycle0, 30),
        (Reg::ProxACycle10, 30),
        (Reg::ProxACycle20, 4),
    ];
    let mut response = Response::Ready;
    let mut cycles = Vec::new();
    for (k, (reg, len)) in order.iter().enumerate() {
        let data = expect_write(next(&mut b, response), *reg);
        assert_eq!(data.len(), *len, "write {}", k);
        assert_eq!(data, config.write_config(k).data);
        if k >= 11 {
            cycles.extend_from_slice(&data);
        }
        response = Response::Written;
    }
    assert_eq!(cycles, config.pinout.cycles().to_vec());
    expect_wait(next(&mut b, response));
    assert_eq!(b.state(), InitState::AcknowledgeReset);

    // Acknowledge the reset.
    expect_read(next(&mut b, Response::Ready), Reg::SysControl, 2);
    let written = expect_write(
        next(&mut b, Response::Data(SysControl::default().to_bytes().to_vec())),
        Reg::SysControl,
    );
    assert_eq!(written, vec![0x83, 0x00]);
    expect_wait(next(&mut b, Response::Written));
    assert_eq!(b.state(), InitState::TriggerCalibration);

    // Ask for auto-tuning.
    expect_read(next(&mut b, Response::Ready), Reg::SysControl, 2);
    let written = expect_write(
        next(&mut b, Response::Data(SysControl::default().to_bytes().to_vec())),
        Reg::SysControl,
    );
    assert_eq!(written, vec![0x23, 0x00]);
    expect_wait(next(&mut b, Response::Written));
    assert_eq!(b.state(), InitState::AwaitCalibration);

    // Wait for auto-tuning: twice not done, then done.
    for _ in 0..2 {
        expect_read(next(&mut b, Response::Ready), Reg::InfoFlags, 2);
        expect_wait(next(&mut b, Response::Data(info(false, false).to_bytes().to_vec())));
        assert_eq!(b.state(), InitState::AwaitCalibration);
    }
    expect_read(next(&mut b, Response::Ready), Reg::InfoFlags, 2);
    expect_wait(next(&mut b, Response::Data(info(false, true).to_bytes().to_vec())));
    assert_eq!(b.state(), InitState::FinalizeInterruptMode);

    // The interrupt mode of the configuration.
    expect_read(next(&mut b, Response::Ready), Reg::ConfigSettings, 2);
    let settings = ConfigSettings::default();
    let written = expect_write(
        next(&mut b, Response::Data(settings.to_bytes().to_vec())),
        Reg::ConfigSettings,
    );
    assert_eq!(
        written,
        ConfigSettings { interrupt_mode: InterruptMode::Event, ..settings }.to_bytes().to_vec()
    );
    assert!(b.expects(&Response::<u8>::Written));
    assert!(!b.is_finished());
    match b.advance(Response::<u8>::Written) {
        Progress::Done(Ok(true)) => {}
        other => panic!("{:?}", other),
    }
    assert!(b.is_finished());
    assert!(!b.expects(&Response::<u8>::Ready));
    assert!(!b.expects(&Response::<u8>::Failed(1)));
}

#[test]
fn wrong_product_ends_bringup_before_any_write() {
    let (mut b, first) = Bringup::start(Config::default());
    expect_wait(first);
    expect_read(next(&mut b, Response::Ready), Reg::AppVersion, 10);
    // 0x0496 instead of 0x0458: the low byte is reported.
    match b.advance(Response::<u8>::Data(version(0x0496))) {
        Progress::Done(Err(Error::InvalidChipId(0x96))) => {}
        other => panic!("{:?}", other),
    }
    assert!(b.is_finished());
    assert_eq!(b.state(), InitState::VerifyProductId);
}

#[test]
fn bus_failure_ends_bringup_with_the_transport_error() {
    // While waiting for the ready signal.
    let (mut b, _) = Bringup::start(Config::default());
    assert!(b.expects(&Response::Failed(7u8)));
    assert!(matches!(b.advance(Response::Failed(7u8)), Progress::Done(Err(Error::I2c(7)))));
    assert!(b.is_finished());

    // In the middle of the configuration transfer.
    let (mut b, _) = Bringup::start(Config::default());
    next(&mut b, Response::Ready);
    next(&mut b, Response::Data(version(0x0458)));
    next(&mut b, Response::Ready);
    next(&mut b, Response::Data(info(true, false).to_bytes().to_vec()));
    expect_write(next(&mut b, Response::Ready), Reg::AlpAutoTuningCompA);
    expect_write(next(&mut b, Response::Written), Reg::ActiveModeReportRate);
    assert!(matches!(b.advance(Response::Failed(9u8)), Progress::Done(Err(Error::I2c(9)))));
    assert_eq!(b.state(), InitState::TransferConfig);
}

#[test]
fn undecodable_registers_end_bringup() {
    // Charge mode 5 does not exist, in the status flags ...
    let (mut b, _) = Bringup::start(Config::default());
    next(&mut b, Response::Ready);
    next(&mut b, Response::Data(version(0x0458)));
    next(&mut b, Response::Ready);
    assert!(matches!(
        b.advance(Response::<u8>::Data(vec![0x05, 0x00])),
        Progress::Done(Err(Error::BufferOverflow))
    ));

    // ... nor in the system control register.
    let (mut b, _) = Bringup::start(Config::default());
    next(&mut b, Response::Ready);
    next(&mut b, Response::Data(version(0x0458)));
    next(&mut b, Response::Ready);
    next(&mut b, Response::Data(info(false, false).to_bytes().to_vec()));
    assert!(matches!(
        b.advance(Response::<u8>::Data(vec![0x07, 0x00])),
        Progress::Done(Err(Error::BufferOverflow))
    ));
}

#[test]
fn a_response_that_does_not_answer_is_handed_back() {
    let (mut b, _) = Bringup::start(Config::default());
    assert!(matches!(b.try_advance(Response::<u8>::Written), Err(Response::Written)));
    match b.try_advance(Response::<u8>::Data(vec![1, 2])) {
        Err(Response::Data(bytes)) => assert_eq!(bytes, vec![1, 2]),
        other => panic!("{:?}", other),
    }
    assert_eq!(b.state(), InitState::VerifyProductId);
    assert!(!b.is_finished());
    // Bring-up goes on as if nothing had happened.
    match b.try_advance(Response::<u8>::Ready) {
        Ok(Progress::Next(request)) => expect_read(request, Reg::AppVersion, 10),
        other => panic!("{:?}", other),
    }
}

#[test]
fn responses_must_answer_the_request() {
    let (mut b, _) = Bringup::start(Config::default());
    // Waiting for ready: data and write completions are no answer.
    assert!(b.expects(&Response::<u8>::Ready));
    assert!(!b.expects(&Response::<u8>::Written));
    assert!(!b.expects(&Response::<u8>::Data(vec![0; 10])));
    next(&mut b, Response::Ready);
    // Waiting for ten bytes.
    assert!(!b.expects(&Response::<u8>::Ready));
    assert!(!b.expects(&Response::<u8>::Data(vec![0; 2])));
    assert!(b.expects(&Response::<u8>::Data(vec![0; 10])));
}

#[test]
fn driver_tracks_whether_the_device_is_set_up() {
    let mut driver = Iqs7211e::new(Config::default());
    assert!(!driver.is_initialized());
    let quiet = InfoFlags {
        charge_mode: ChargeMode::Active,
        auto_tuning_error: false,
        re_auto_tuning_occurred: false,
        low_power_auto_tuning_error: false,
        low_power_re_auto_tuning_occurred: false,
        show_reset: false,
        num_fingers: 0,
        trackpad_movement: false,
        too_many_fingers: false,
        low_power_output: false,
    };
    let reset = InfoFlags { show_reset: true, ..quiet };
    let absent = Finger::absent().to_bytes();

    // Not set up yet: a bring-up is due.
    let (report, due) = driver.read_report::<u8>(0, quiet.to_bytes(), absent, absent).unwrap();
    assert!(due);
    assert_eq!(report.info, quiet);
    // A failed bring-up changes nothing, a bring-up without update neither.
    driver.complete_initialize::<u8>(&Err(Error::InvalidChipId(3)));
    assert!(!driver.is_initialized());
    driver.complete_initialize::<u8>(&Ok(false));
    assert!(!driver.is_initialized());
    driver.complete_initialize::<u8>(&Ok(true));
    assert!(driver.is_initialized());

    // Set up: no bring-up is due.
    let (_, due) = driver.read_report::<u8>(0, quiet.to_bytes(), absent, absent).unwrap();
    assert!(!due);
    assert!(driver.is_initialized());
    // The device shows its reset flag: it has lost its settings.
    let (_, due) = driver.read_report::<u8>(0, reset.to_bytes(), absent, absent).unwrap();
    assert!(!due);
    assert!(!driver.is_initialized());
    let (_, due) = driver.read_report::<u8>(0, quiet.to_bytes(), absent, absent).unwrap();
    assert!(due);

    // Undecodable status: an error, and nothing changes.
    driver.complete_initialize::<u8>(&Ok(true));
    assert!(matches!(
        driver.read_report::<u8>(0, [0x87, 0], absent, absent),
        Err(Error::BufferOverflow)
    ));
    assert!(driver.is_initialized());

    let other = Config::default().with_interrupt_mode(InterruptMode::Stream);
    driver.set_config(other);
    assert_eq!(driver.config().interrupt_mode, InterruptMode::Stream);
}
