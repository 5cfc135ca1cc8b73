//! The register map of the device.

use vstd::prelude::*;

verus! {

/// Seven-bit bus address of the controller.
pub const I2C_ADDR: u8 = 0x56;

/// Product number that the identification block of a genuine device reports.
pub const PRODUCT_NUMBER: u16 = 0x0458;

/// Largest payload, in bytes, of one register write.
pub const MAX_WRITE_LEN: usize = 31;

/// Address that requests a communication window while the ready line is idle.
pub const COMMS_REQUEST_ADDR: u8 = 0xFF;

/// First address of the extended page that holds the base targets.
pub const BASE_TARGETS_ADDR: u16 = 0xE100;

/// First address of the extended page that holds the deltas.
pub const DELTAS_ADDR: u16 = 0xE200;

/// Registers of the memory map. Each address holds one 16-bit word.
#[derive(Clone, Copy, Debug, PartialEq, Eq, Structural)]
pub enum Reg {
    // App version information (0x00..0x04)
    AppVersion,
    // ROM lib version information (0x05..0x09)
    RomVersion,

    // Gesture data (0x0A..0x17)
    RelativeX,
    RelativeY,
    GestureX,
    GestureY,
    Gestures,
    InfoFlags,
    Finger1X,
    Finger1Y,
    Finger1TouchStrength,
    Finger1Area,
    Finger2X,
    Finger2Y,
    Finger2TouchStrength,
    Finger2Area,

    // Channel states & counts (0x18..0x1E)
    TouchState0,
    TouchState1,
    TouchState2,
    LowPowerChannelCount,
    LowPowerChannelLta,
    LowPowerChannelCountA,
    LowPowerChannelCountB,

    // ALP & TP ATI settings (0x1F..0x27)
    AlpAutoTuningCompA,
    AlpAutoTuningCompB,
    TpAutoTuningMultipliers,
    TpRefDriftLimit,
    TpAutoTuningTarget,
    TpMinCountReAutoTuning,
    AlpAutoTuningMultipliers,
    AlpLtaDriftLimit,
    AlpAutoTuningTarget,

    // Report rates and timings (0x28..0x32)
    ActiveModeReportRate,
    IdleTouchReportRate,
    IdleModeReportRate,
    Lp1ModeReportRate,
    Lp2ModeReportRate,
    ActiveModeTimeout,
    IdleTouchModeTimeout,
    IdleModeTimeout,
    Lp1ModeTimeout,
    RefUpdateReatiTime,
    I2cTimeout,

    // System and ALP setup (0x33..0x37)
    SysControl,
    ConfigSettings,
    OtherSettings,
    AlpSetup,
    AlpTxEnable,

    // Trackpad & ALP thresholds (0x38..0x3A)
    TouchSetClearMultipliers,
    LowPowerThreshold,
    LowPowerSetClearDebounce,

    // Button/ALP betas (0x3B..0x3C)
    Lp1Filters,
    Lp2Filters,

    // Channel setup (0x3D..0x40)
    TpConvFreq,
    AlpConvFreq,
    TpHardware,
    AlpHardware,

    // TP setup (0x41..0x49)
    TpRxSettings,
    XResolution,
    YResolution,
    XyFilterBottomSpeed,
    XyFilterTopSpeed,
    StaticFilter,
    FingerSplitMovement,
    TrimValues,

    // Settings version (0x4A)
    SettingsVersion,

    // Gesture settings (0x4B..0x55)
    GestureEnable,
    TapTime,
    AirTime,
    TapDistance,
    HoldTime,
    SwipeTime,
    XInitialDistance,
    YInitialDistance,
    XConsecutiveDistance,
    YConsecutiveDistance,
    ThresholdAngle,

    // Rx/Tx mapping (0x56..0x5C)
    RxTxMapping0_1,
    RxTxMapping2_3,
    RxTxMapping4_5,
    RxTxMapping6_7,
    RxTxMapping8_9,
    RxTxMapping10_11,
    RxTxMapping12,

    // Cycle allocation (0x5D..0x7C)
    ProxACycle0,
    ProxBCycle0,
    Cycle1,
    ProxACycle2,
    ProxBCycle2,
    Cycle3,
    ProxACycle4,
    ProxBCycle4,
    Cycle5,
    ProxACycle6,
    ProxBCycle6,
    Cycle7,
    ProxACycle8,
    ProxBCycle8,
    Cycle9,

    ProxACycle10,
    ProxBCycle10,
    Cycle11,
    ProxACycle12,
    ProxBCycle12,
    Cycle13,
    ProxACycle14,
    ProxBCycle14,
    Cycle15,
    ProxACycle16,
    ProxBCycle16,
    Cycle17,
    ProxACycle18,
    ProxBCycle18,
    Cycle19,
    ProxACycle20,
    ProxBCycle20,
}

impl Reg {
    /// The register's address in the memory map.
    pub open spec fn spec_addr(self) -> u8 {
        match self {
            Reg::AppVersion => 0x00,
            Reg::RomVersion => 0x05,
            Reg::RelativeX => 0x0A,
            Reg::RelativeY => 0x0B,
            Reg::GestureX => 0x0C,
            Reg::GestureY => 0x0D,
            Reg::Gestures => 0x0E,
            Reg::InfoFlags => 0x0F,
            Reg::Finger1X => 0x10,
            Reg::Finger1Y => 0x11,
            Reg::Finger1TouchStrength => 0x12,
            Reg::Finger1Area => 0x13,
            Reg::Finger2X => 0x14,
            Reg::Finger2Y => 0x15,
            Reg::Finger2TouchStrength => 0x16,
            Reg::Finger2Area => 0x17,
            Reg::TouchState0 => 0x18,
            Reg::TouchState1 => 0x19,
            Reg::TouchState2 => 0x1A,
            Reg::LowPowerChannelCount => 0x1B,
            Reg::LowPowerChannelLta => 0x1C,
            Reg::LowPowerChannelCountA => 0x1D,
            Reg::LowPowerChannelCountB => 0x1E,
            Reg::AlpAutoTuningCompA => 0x1F,
            Reg::AlpAutoTuningCompB => 0x20,
            Reg::TpAutoTuningMultipliers => 0x21,
            Reg::TpRefDriftLimit => 0x22,
            Reg::TpAutoTuningTarget => 0x23,
            Reg::TpMinCountReAutoTuning => 0x24,
            Reg::AlpAutoTuningMultipliers => 0x25,
            Reg::AlpLtaDriftLimit => 0x26,
            Reg::AlpAutoTuningTarget => 0x27,
            Reg::ActiveModeReportRate => 0x28,
            Reg::IdleTouchReportRate => 0x29,
            Reg::IdleModeReportRate => 0x2A,
            Reg::Lp1ModeReportRate => 0x2B,
            Reg::Lp2ModeReportRate => 0x2C,
            Reg::ActiveModeTimeout => 0x2D,
            Reg::IdleTouchModeTimeout => 0x2E,
            Reg::IdleModeTimeout => 0x2F,
            Reg::Lp1ModeTimeout => 0x30,
            Reg::RefUpdateReatiTime => 0x31,
            Reg::I2cTimeout => 0x32,
            Reg::SysControl => 0x33,
            Reg::ConfigSettings => 0x34,
            Reg::OtherSettings => 0x35,
            Reg::AlpSetup => 0x36,
            Reg::AlpTxEnable => 0x37,
            Reg::TouchSetClearMultipliers => 0x38,
            Reg::LowPowerThreshold => 0x39,
            Reg::LowPowerSetClearDebounce => 0x3A,
            Reg::Lp1Filters => 0x3B,
            Reg::Lp2Filters => 0x3C,
            Reg::TpConvFreq => 0x3D,
            Reg::AlpConvFreq => 0x3E,
            Reg::TpHardware => 0x3F,
            Reg::AlpHardware => 0x40,
            Reg::TpRxSettings => 0x41,
            Reg::XResolution => 0x43,
            Reg::YResolution => 0x44,
            Reg::XyFilterBottomSpeed => 0x45,
            Reg::XyFilterTopSpeed => 0x46,
            Reg::StaticFilter => 0x47,
            Reg::FingerSplitMovement => 0x48,
            Reg::TrimValues => 0x49,
            Reg::SettingsVersion => 0x4A,
            Reg::GestureEnable => 0x4B,
            Reg::TapTime => 0x4C,
            Reg::AirTime => 0x4D,
            Reg::TapDistance => 0x4E,
            Reg::HoldTime => 0x4F,
            Reg::SwipeTime => 0x50,
            Reg::XInitialDistance => 0x51,
            Reg::YInitialDistance => 0x52,
            Reg::XConsecutiveDistance => 0x53,
            Reg::YConsecutiveDistance => 0x54,
            Reg::ThresholdAngle => 0x55,
            Reg::RxTxMapping0_1 => 0x56,
            Reg::RxTxMapping2_3 => 0x57,
            Reg::RxTxMapping4_5 => 0x58,
            Reg::RxTxMapping6_7 => 0x59,
            Reg::RxTxMapping8_9 => 0x5A,
            Reg::RxTxMapping10_11 => 0x5B,
            Reg::RxTxMapping12 => 0x5C,
            Reg::ProxACycle0 => 0x5D,
            Reg::ProxBCycle0 => 0x5E,
            Reg::Cycle1 => 0x5F,
            Reg::ProxACycle2 => 0x60,
            Reg::ProxBCycle2 => 0x61,
            Reg::Cycle3 => 0x62,
            Reg::ProxACycle4 => 0x63,
            Reg::ProxBCycle4 => 0x64,
            Reg::Cycle5 => 0x65,
            Reg::ProxACycle6 => 0x66,
            Reg::ProxBCycle6 => 0x67,
            Reg::Cycle7 => 0x68,
            Reg::ProxACycle8 => 0x69,
            Reg::ProxBCycle8 => 0x6A,
            Reg::Cycle9 => 0x6B,
            Reg::ProxACycle10 => 0x6C,
            Reg::ProxBCycle10 => 0x6D,
            Reg::Cycle11 => 0x6E,
            Reg::ProxACycle12 => 0x6F,
            Reg::ProxBCycle12 => 0x70,
            Reg::Cycle13 => 0x71,
            Reg::ProxACycle14 => 0x72,
            Reg::ProxBCycle14 => 0x73,
            Reg::Cycle15 => 0x74,
            Reg::ProxACycle16 => 0x75,
            Reg::ProxBCycle16 => 0x76,
            Reg::Cycle17 => 0x77,
            Reg::ProxACycle18 => 0x78,
            Reg::ProxBCycle18 => 0x79,
            Reg::Cycle19 => 0x7A,
            Reg::ProxACycle20 => 0x7B,
            Reg::ProxBCycle20 => 0x7C,
        }
    }

    /// The register's address in the memory map.
    #[verifier::when_used_as_spec(spec_addr)]
    pub fn addr(self) -> (a: u8)
        ensures
            a == self.spec_addr(),
            a <= 0x7C,
    {
        match self {
            Reg::AppVersion => 0x00,
            Reg::RomVersion => 0x05,
            Reg::RelativeX => 0x0A,
            Reg::RelativeY => 0x0B,
            Reg::GestureX => 0x0C,
            Reg::GestureY => 0x0D,
            Reg::Gestures => 0x0E,
            Reg::InfoFlags => 0x0F,
            Reg::Finger1X => 0x10,
            Reg::Finger1Y => 0x11,
            Reg::Finger1TouchStrength => 0x12,
            Reg::Finger1Area => 0x13,
            Reg::Finger2X => 0x14,
            Reg::Finger2Y => 0x15,
            Reg::Finger2TouchStrength => 0x16,
            Reg::Finger2Area => 0x17,
            Reg::TouchState0 => 0x18,
            Reg::TouchState1 => 0x19,
            Reg::TouchState2 => 0x1A,
            Reg::LowPowerChannelCount => 0x1B,
            Reg::LowPowerChannelLta => 0x1C,
            Reg::LowPowerChannelCountA => 0x1D,
            Reg::LowPowerChannelCountB => 0x1E,
            Reg::AlpAutoTuningCompA => 0x1F,
            Reg::AlpAutoTuningCompB => 0x20,
            Reg::TpAutoTuningMultipliers => 0x21,
            Reg::TpRefDriftLimit => 0x22,
            Reg::TpAutoTuningTarget => 0x23,
            Reg::TpMinCountReAutoTuning => 0x24,
            Reg::AlpAutoTuningMultipliers => 0x25,
            Reg::AlpLtaDriftLimit => 0x26,
            Reg::AlpAutoTuningTarget => 0x27,
            Reg::ActiveModeReportRate => 0x28,
            Reg::IdleTouchReportRate => 0x29,
            Reg::IdleModeReportRate => 0x2A,
            Reg::Lp1ModeReportRate => 0x2B,
            Reg::Lp2ModeReportRate => 0x2C,
            Reg::ActiveModeTimeout => 0x2D,
            Reg::IdleTouchModeTimeout => 0x2E,
            Reg::IdleModeTimeout => 0x2F,
            Reg::Lp1ModeTimeout => 0x30,
            Reg::RefUpdateReatiTime => 0x31,
            Reg::I2cTimeout => 0x32,
            Reg::SysControl => 0x33,
            Reg::ConfigSettings => 0x34,
            Reg::OtherSettings => 0x35,
            Reg::AlpSetup => 0x36,
            Reg::AlpTxEnable => 0x37,
            Reg::TouchSetClearMultipliers => 0x38,
            Reg::LowPowerThreshold => 0x39,
            Reg::LowPowerSetClearDebounce => 0x3A,
            Reg::Lp1Filters => 0x3B,
            Reg::Lp2Filters => 0x3C,
            Reg::TpConvFreq => 0x3D,
            Reg::AlpConvFreq => 0x3E,
            Reg::TpHardware => 0x3F,
            Reg::AlpHardware => 0x40,
            Reg::TpRxSettings => 0x41,
            Reg::XResolution => 0x43,
            Reg::YResolution => 0x44,
            Reg::XyFilterBottomSpeed => 0x45,
            Reg::XyFilterTopSpeed => 0x46,
            Reg::StaticFilter => 0x47,
            Reg::FingerSplitMovement => 0x48,
            Reg::TrimValues => 0x49,
            Reg::SettingsVersion => 0x4A,
            Reg::GestureEnable => 0x4B,
            Reg::TapTime => 0x4C,
            Reg::AirTime => 0x4D,
            Reg::TapDistance => 0x4E,
            Reg::HoldTime => 0x4F,
            Reg::SwipeTime => 0x50,
            Reg::XInitialDistance => 0x51,
            Reg::YInitialDistance => 0x52,
            Reg::XConsecutiveDistance => 0x53,
            Reg::YConsecutiveDistance => 0x54,
            Reg::ThresholdAngle => 0x55,
            Reg::RxTxMapping0_1 => 0x56,
            Reg::RxTxMapping2_3 => 0x57,
            Reg::RxTxMapping4_5 => 0x58,
            Reg::RxTxMapping6_7 => 0x59,
            Reg::RxTxMapping8_9 => 0x5A,
            Reg::RxTxMapping10_11 => 0x5B,
            Reg::RxTxMapping12 => 0x5C,
            Reg::ProxACycle0 => 0x5D,
            Reg::ProxBCycle0 => 0x5E,
            Reg::Cycle1 => 0x5F,
            Reg::ProxACycle2 => 0x60,
            Reg::ProxBCycle2 => 0x61,
            Reg::Cycle3 => 0x62,
            Reg::ProxACycle4 => 0x63,
            Reg::ProxBCycle4 => 0x64,
            Reg::Cycle5 => 0x65,
            Reg::ProxACycle6 => 0x66,
            Reg::ProxBCycle6 => 0x67,
            Reg::Cycle7 => 0x68,
            Reg::ProxACycle8 => 0x69,
            Reg::ProxBCycle8 => 0x6A,
            Reg::Cycle9 => 0x6B,
            Reg::ProxACycle10 => 0x6C,
            Reg::ProxBCycle10 => 0x6D,
            Reg::Cycle11 => 0x6E,
            Reg::ProxACycle12 => 0x6F,
            Reg::ProxBCycle12 => 0x70,
            Reg::Cycle13 => 0x71,
            Reg::ProxACycle14 => 0x72,
            Reg::ProxBCycle14 => 0x73,
            Reg::Cycle15 => 0x74,
            Reg::ProxACycle16 => 0x75,
            Reg::ProxBCycle16 => 0x76,
            Reg::Cycle17 => 0x77,
            Reg::ProxACycle18 => 0x78,
            Reg::ProxBCycle18 => 0x79,
            Reg::Cycle19 => 0x7A,
            Reg::ProxACycle20 => 0x7B,
            Reg::ProxBCycle20 => 0x7C,
        }
    }
}

} // verus!
