//! Bring-up of the device: identification, reset, configuration transfer
//! and auto-tuning, as a sequence of requests.

use crate::config::{Config, CONFIG_WRITES};
use crate::control::config_settings::ConfigSettings;
use crate::control::system_control::SysControl;
use crate::control::Version;
use crate::event::info::Info;
use crate::reg::{Reg, MAX_WRITE_LEN, PRODUCT_NUMBER};
use crate::rw::{to_vec, Request, RequestView, Response, ResponseView};
use crate::Error;
use vstd::prelude::*;

verus! {

/// The steps of bring-up, in their order.
#[derive(Debug, Clone, Copy, PartialEq, Eq, Structural)]
pub enum InitState {
    /// Read the identification block and compare the product number.
    VerifyProductId,
    /// Read the status flags until they show that the device was reset,
    /// asking for a software reset each time they do not. Nothing limits
    /// the number of rounds: the step lasts as long as the device takes.
    AwaitResetAck,
    /// Write the configuration.
    TransferConfig,
    /// Clear the reset flag.
    AcknowledgeReset,
    /// Ask for a new auto-tuning of the trackpad.
    TriggerCalibration,
    /// Read the status flags until they show that auto-tuning is done.
    /// Nothing limits the number of rounds: a caller that wants a limit
    /// counts the requests, or stops serving them.
    AwaitCalibration,
    /// Write the interrupt mode of the configuration.
    FinalizeInterruptMode,
}

impl InitState {
    /// Position of the step in the sequence.
    pub open spec fn rank(self) -> int {
        match self {
            InitState::VerifyProductId => 0,
            InitState::AwaitResetAck => 1,
            InitState::TransferConfig => 2,
            InitState::AcknowledgeReset => 3,
            InitState::TriggerCalibration => 4,
            InitState::AwaitCalibration => 5,
            InitState::FinalizeInterruptMode => 6,
        }
    }

    /// Whether the step reads a register and writes it back changed.
    pub open spec fn rewrites(self) -> bool {
        self is AwaitResetAck || self is AcknowledgeReset || self is TriggerCalibration || self
            is FinalizeInterruptMode
    }

    /// The register that the step reads once the device is ready, and the
    /// number of bytes. The configuration transfer reads nothing.
    pub open spec fn spec_register(self) -> Option<(Reg, usize)> {
        match self {
            InitState::VerifyProductId => Some((Reg::AppVersion, 10usize)),
            InitState::AwaitResetAck => Some((Reg::InfoFlags, 2usize)),
            InitState::TransferConfig => None,
            InitState::AcknowledgeReset => Some((Reg::SysControl, 2usize)),
            InitState::TriggerCalibration => Some((Reg::SysControl, 2usize)),
            InitState::AwaitCalibration => Some((Reg::InfoFlags, 2usize)),
            InitState::FinalizeInterruptMode => Some((Reg::ConfigSettings, 2usize)),
        }
    }

    /// The register that the step reads once the device is ready, and the
    /// number of bytes. The configuration transfer reads nothing.
    #[verifier::when_used_as_spec(spec_register)]
    pub fn register(self) -> (r: Option<(Reg, usize)>)
        ensures
            r == self.spec_register(),
    {
        match self {
            InitState::VerifyProductId => Some((Reg::AppVersion, 10)),
            InitState::AwaitResetAck => Some((Reg::InfoFlags, 2)),
            InitState::TransferConfig => None,
            InitState::AcknowledgeReset => Some((Reg::SysControl, 2)),
            InitState::TriggerCalibration => Some((Reg::SysControl, 2)),
            InitState::AwaitCalibration => Some((Reg::InfoFlags, 2)),
            InitState::FinalizeInterruptMode => Some((Reg::ConfigSettings, 2)),
        }
    }
}

/// What bring-up is waiting for within its step.
#[derive(Debug, Clone, Copy, PartialEq, Eq, Structural)]
pub enum Phase {
    /// The ready signal.
    Ready,
    /// The bytes of the step's register.
    Data,
    /// The bytes of the system control register, read in order to ask for
    /// a software reset.
    ResetControl,
    /// The completion of a write. The number counts the writes of the step,
    /// from zero.
    Written(usize),
    /// Nothing: bring-up has ended.
    Finished,
}

/// Where bring-up stands: its step, and what it is waiting for.
#[derive(Debug, Clone, Copy, PartialEq, Eq, Structural)]
pub struct Stage {
    pub state: InitState,
    pub phase: Phase,
}

/// What bring-up does next.
#[derive(Debug)]
pub enum Progress<E> {
    /// It asks for this, and goes on with the response.
    Next(Request),
    /// It has ended, well or with an error.
    Done(Result<bool, Error<E>>),
}

/// What bring-up does next, with the bytes to write as a sequence.
pub enum ProgressView<E> {
    Next(RequestView),
    Done(Result<bool, Error<E>>),
}

impl<E> View for Progress<E> {
    type V = ProgressView<E>;

    open spec fn view(&self) -> ProgressView<E> {
        match self {
            Progress::Next(request) => ProgressView::Next(request@),
            Progress::Done(result) => ProgressView::Done(*result),
        }
    }
}

impl Stage {
    /// The stage at which bring-up begins.
    pub open spec fn initial() -> Stage {
        Stage { state: InitState::VerifyProductId, phase: Phase::Ready }
    }

    /// Number of bytes that a read in this stage brings.
    pub open spec fn read_len(self) -> nat {
        if self.phase is ResetControl {
            2
        } else {
            match self.state.register() {
                Some((_, len)) => len as nat,
                None => 0,
            }
        }
    }

    /// Whether `response` is a way in which the request of this stage can
    /// end.
    pub open spec fn expects<E>(self, response: ResponseView<E>) -> bool {
        match response {
            ResponseView::Failed(_) => !(self.phase is Finished),
            ResponseView::Ready => self.phase is Ready,
            ResponseView::Data(bytes) => (self.phase is Data || self.phase is ResetControl)
                && bytes.len() == self.read_len(),
            ResponseView::Written => self.phase is Written,
        }
    }

    /// The stage waits for something that its step asks for: a write
    /// only in a step that writes, with the number of one of its writes,
    /// and bytes only in a step that reads.
    pub open spec fn wf(self) -> bool {
        &&& self.phase matches Phase::Written(k) ==> if self.state is TransferConfig {
            k < CONFIG_WRITES
        } else {
            k == 0 && self.state.rewrites()
        }
        &&& self.phase is Data ==> !(self.state is TransferConfig)
        &&& self.phase is ResetControl ==> self.state is AwaitResetAck
    }

    /// Entering `state`: bring-up waits for the device to be ready.
    pub open spec fn enter<E>(state: InitState) -> (Stage, ProgressView<E>) {
        (Stage { state, phase: Phase::Ready }, ProgressView::Next(RequestView::AwaitReady))
    }

    /// Ending with `error`.
    pub open spec fn fail<E>(self, error: Error<E>) -> (Stage, ProgressView<E>) {
        (Stage { state: self.state, phase: Phase::Finished }, ProgressView::Done(Err(error)))
    }

    /// Asking for a write of `data` at `reg`, as the single write of the
    /// step.
    pub open spec fn write<E>(self, reg: Reg, data: Seq<u8>) -> (Stage, ProgressView<E>) {
        (
            Stage { state: self.state, phase: Phase::Written(0) },
            ProgressView::Next(RequestView::Write { reg, data }),
        )
    }

    /// The device is ready: the configuration transfer asks for its first
    /// write, every other step for the bytes of its register.
    pub open spec fn on_ready<E>(self, config: Config) -> (Stage, ProgressView<E>) {
        match self.state.register() {
            Some((reg, len)) => (
                Stage { state: self.state, phase: Phase::Data },
                ProgressView::Next(RequestView::Read { reg, len: len as nat }),
            ),
            None => (
                Stage { state: self.state, phase: Phase::Written(0) },
                ProgressView::Next(
                    RequestView::Write {
                        reg: config.transfer_plan()[0].0,
                        data: config.transfer_plan()[0].1,
                    },
                ),
            ),
        }
    }

    /// The system control register with the request of this stage set in
    /// it: a software reset while the reset flag is awaited, the
    /// acknowledgement of the reset, or a new auto-tuning of the trackpad.
    pub open spec fn spec_control_request(self, control: SysControl) -> SysControl {
        if self.phase is ResetControl {
            SysControl { sw_reset: true, ..control }
        } else {
            match self.state {
                InitState::AcknowledgeReset => SysControl { ack_reset: true, ..control },
                InitState::TriggerCalibration => SysControl { trackpad_retune: true, ..control },
                _ => control,
            }
        }
    }

    /// The system control register with the request of this stage set in
    /// it.
    #[verifier::when_used_as_spec(spec_control_request)]
    pub fn control_request(self, control: SysControl) -> (asked: SysControl)
        ensures
            asked == self.spec_control_request(control),
    {
        if matches!(self.phase, Phase::ResetControl) {
            SysControl { sw_reset: true, ..control }
        } else {
            match self.state {
                InitState::AcknowledgeReset => SysControl { ack_reset: true, ..control },
                InitState::TriggerCalibration => SysControl { trackpad_retune: true, ..control },
                _ => control,
            }
        }
    }

    /// The system control register is written back with the request of
    /// this stage set in it. Bytes that stand for no control word end
    /// bring-up.
    pub open spec fn update_control<E>(self, bytes: Seq<u8>) -> (Stage, ProgressView<E>) {
        match SysControl::decoding(bytes) {
            Some(control) => self.write(Reg::SysControl, self.control_request(control).encoding()),
            None => self.fail(Error::BufferOverflow),
        }
    }

    /// The bytes that were asked for have come.
    pub open spec fn on_data<E>(self, config: Config, bytes: Seq<u8>) -> (Stage, ProgressView<E>) {
        if self.phase is ResetControl {
            self.update_control(bytes)
        } else {
            match self.state {
                InitState::VerifyProductId => {
                    let number = Version::decoding(bytes).number;
                    if number == PRODUCT_NUMBER {
                        Stage::enter(InitState::AwaitResetAck)
                    } else {
                        self.fail(Error::InvalidChipId((number % 256) as u8))
                    }
                },
                InitState::AwaitResetAck => match Info::decoding(bytes) {
                    Some(info) => if info.show_reset {
                        Stage::enter(InitState::TransferConfig)
                    } else {
                        (
                            Stage { state: self.state, phase: Phase::ResetControl },
                            ProgressView::Next(
                                RequestView::Read { reg: Reg::SysControl, len: 2 },
                            ),
                        )
                    },
                    None => self.fail(Error::BufferOverflow),
                },
                InitState::TransferConfig => self.fail(Error::BufferOverflow),
                InitState::AcknowledgeReset => self.update_control(bytes),
                InitState::TriggerCalibration => self.update_control(bytes),
                InitState::AwaitCalibration => match Info::decoding(bytes) {
                    Some(info) => if info.re_auto_tuning_occurred {
                        Stage::enter(InitState::FinalizeInterruptMode)
                    } else {
                        Stage::enter(InitState::AwaitCalibration)
                    },
                    None => self.fail(Error::BufferOverflow),
                },
                InitState::FinalizeInterruptMode => self.write(
                    Reg::ConfigSettings,
                    ConfigSettings {
                        interrupt_mode: config.interrupt_mode,
                        ..ConfigSettings::decoding(bytes)
                    }.encoding(),
                ),
            }
        }
    }

    /// The write that was asked for went through.
    pub open spec fn on_written<E>(self, config: Config) -> (Stage, ProgressView<E>) {
        match self.state {
            InitState::VerifyProductId => self.fail(Error::BufferOverflow),
            InitState::AwaitResetAck => Stage::enter(InitState::AwaitResetAck),
            InitState::TransferConfig => {
                let next = match self.phase {
                    Phase::Written(k) => k + 1,
                    _ => 0,
                };
                if next < CONFIG_WRITES {
                    (
                        Stage { state: self.state, phase: Phase::Written(next as usize) },
                        ProgressView::Next(
                            RequestView::Write {
                                reg: config.transfer_plan()[next].0,
                                data: config.transfer_plan()[next].1,
                            },
                        ),
                    )
                } else {
                    Stage::enter(InitState::AcknowledgeReset)
                }
            },
            InitState::AcknowledgeReset => Stage::enter(InitState::TriggerCalibration),
            InitState::TriggerCalibration => Stage::enter(InitState::AwaitCalibration),
            InitState::AwaitCalibration => self.fail(Error::BufferOverflow),
            InitState::FinalizeInterruptMode => (
                Stage { state: self.state, phase: Phase::Finished },
                ProgressView::Done(Ok(true)),
            ),
        }
    }

    /// The stage after `response`, and what bring-up does next. A failure
    /// of the transport ends bring-up at once, with the transport's error.
    /// A response that the stage does not expect cannot come about; for
    /// such a one bring-up is defined to end.
    pub open spec fn step<E>(self, config: Config, response: ResponseView<E>) -> (
        Stage,
        ProgressView<E>,
    ) {
        match response {
            ResponseView::Failed(e) => self.fail(Error::I2c(e)),
            ResponseView::Ready => self.on_ready(config),
            ResponseView::Data(bytes) => self.on_data(config, bytes),
            ResponseView::Written => self.on_written(config),
        }
    }
}

/// While the product number is not verified, bring-up asks for no write,
/// and it leaves that step only on an identification block that names the
/// expected product.
pub proof fn lemma_no_write_before_identification<E>(
    stage: Stage,
    config: Config,
    response: ResponseView<E>,
)
    requires
        stage.wf(),
        stage.state is VerifyProductId,
        stage.expects(response),
    ensures
        !(stage.step(config, response).1 matches ProgressView::Next(RequestView::Write { .. })),
        !(stage.step(config, response).0.state is VerifyProductId) ==> (response
            matches ResponseView::Data(bytes) && Version::decoding(bytes).number
            == PRODUCT_NUMBER),
{
}

/// From its beginning bring-up asks for the ready signal and then for the
/// identification block. Where that block names another product, bring-up
/// ends there with `InvalidChipId` and the low byte of the number that was
/// read; up to that point it has asked for no write.
pub proof fn lemma_wrong_product_ends_bringup<E>(config: Config, identification: Seq<u8>)
    requires
        identification.len() == 10,
        Version::decoding(identification).number != PRODUCT_NUMBER,
    ensures
        ({
            let first = Stage::initial().step::<E>(config, ResponseView::Ready);
            let second = first.0.step::<E>(config, ResponseView::Data(identification));
            &&& first.1 == ProgressView::<E>::Next(
                RequestView::Read { reg: Reg::AppVersion, len: 10 },
            )
            &&& first.0.expects(ResponseView::<E>::Data(identification))
            &&& second.1 == ProgressView::<E>::Done(
                Err(
                    Error::InvalidChipId(
                        (Version::decoding(identification).number % 256) as u8,
                    ),
                ),
            )
            &&& second.0.phase is Finished
        }),
{
}

/// Bring-up never goes back: a response leaves it in its step or takes it
/// to the next one. Whenever it moves on to the next step, it first waits
/// for the device to be ready. It is over exactly when it says so.
pub proof fn lemma_steps_in_order<E>(stage: Stage, config: Config, response: ResponseView<E>)
    requires
        stage.wf(),
        stage.expects(response),
    ensures
        stage.step(config, response).0.wf(),
        stage.step(config, response).0.state != stage.state ==> stage.step(config, response)
            == Stage::enter::<E>(stage.step(config, response).0.state),
        stage.step(config, response).0.state.rank() == stage.state.rank() || stage.step(
            config,
            response,
        ).0.state.rank() == stage.state.rank() + 1,
        stage.step(config, response).1 is Done <==> stage.step(config, response).0.phase
            is Finished,
{
}

/// Every write that bring-up asks for fits one bus transfer.
pub proof fn lemma_writes_fit<E>(stage: Stage, config: Config, response: ResponseView<E>)
    requires
        stage.wf(),
        stage.expects(response),
    ensures
        stage.step(config, response).1 matches ProgressView::Next(
            RequestView::Write { data, .. },
        ) ==> data.len() <= MAX_WRITE_LEN,
{
    config.lemma_transfer_plan_fits();
    if let ResponseView::Data(bytes) = response {
        if let Some(control) = SysControl::decoding(bytes) {
            assert(stage.control_request(control).encoding().len() == 2);
        }
    }
    if let ResponseView::Written = response {
        if let Phase::Written(k) = stage.phase {
            if stage.state is TransferConfig && k + 1 < CONFIG_WRITES {
                assert(config.transfer_plan()[k + 1].1.len() <= MAX_WRITE_LEN);
            }
        }
    }
    if let ResponseView::Ready = response {
        assert(config.transfer_plan()[0].1.len() <= MAX_WRITE_LEN);
    }
}

/// The bring-up of the device: a sequence of requests, each decided from
/// the responses to those before it.
#[derive(Debug)]
pub struct Bringup {
    stage: Stage,
    config: Config,
}

impl Bringup {
    #[verifier::type_invariant]
    spec fn inv(self) -> bool {
        self.stage.wf()
    }

    /// Where bring-up stands.
    pub closed spec fn stage(self) -> Stage {
        self.stage
    }

    /// The configuration that bring-up transfers.
    pub closed spec fn config(self) -> Config {
        self.config
    }

    /// Bring-up at its beginning, and its first request.
    pub fn start(config: Config) -> (begun: (Bringup, Request))
        ensures
            begun.0.stage() == Stage::initial(),
            begun.0.config() == config,
            begun.1@ == RequestView::AwaitReady,
    {
        (
            Bringup {
                stage: Stage { state: InitState::VerifyProductId, phase: Phase::Ready },
                config,
            },
            Request::AwaitReady,
        )
    }

    /// The step that bring-up is in.
    pub fn state(&self) -> (s: InitState)
        ensures
            s == self.stage().state,
    {
        self.stage.state
    }

    /// Whether bring-up has ended.
    pub fn is_finished(&self) -> (f: bool)
        ensures
            f == (self.stage().phase is Finished),
    {
        matches!(self.stage.phase, Phase::Finished)
    }

    /// Whether `response` is a way in which the request that bring-up made
    /// last can end.
    pub fn expects<E>(&self, response: &Response<E>) -> (ok: bool)
        ensures
            ok == self.stage().expects(response@),
    {
        match response {
            Response::Failed(_) => !matches!(self.stage.phase, Phase::Finished),
            Response::Ready => matches!(self.stage.phase, Phase::Ready),
            Response::Data(bytes) => {
                let len = if matches!(self.stage.phase, Phase::ResetControl) {
                    2
                } else {
                    match self.stage.state.register() {
                        Some((_, len)) => len,
                        None => 0,
                    }
                };
                (matches!(self.stage.phase, Phase::Data) || matches!(
                    self.stage.phase,
                    Phase::ResetControl
                )) && bytes.len() == len
            },
            Response::Written => matches!(self.stage.phase, Phase::Written(_)),
        }
    }

    fn enter<E>(&mut self, state: InitState) -> (p: Progress<E>)
        ensures
            (final(self).stage, p@) == Stage::enter::<E>(state),
            final(self).config == old(self).config,
    {
        self.stage = Stage { state, phase: Phase::Ready };
        Progress::Next(Request::AwaitReady)
    }

    fn fail<E>(&mut self, error: Error<E>) -> (p: Progress<E>)
        ensures
            (final(self).stage, p@) == old(self).stage.fail(error),
            final(self).config == old(self).config,
    {
        self.stage = Stage { state: self.stage.state, phase: Phase::Finished };
        Progress::Done(Err(error))
    }

    fn write<E, const N: usize>(&mut self, reg: Reg, data: &[u8; N]) -> (p: Progress<E>)
        requires
            old(self).stage.state.rewrites(),
        ensures
            (final(self).stage, p@) == old(self).stage.write::<E>(reg, data@),
            final(self).config == old(self).config,
    {
        self.stage = Stage { state: self.stage.state, phase: Phase::Written(0) };
        Progress::Next(Request::Write { reg, data: to_vec(data) })
    }

    /// Goes on with `response` if it answers the request that bring-up made
    /// last. A response that does not is handed back, and bring-up stays
    /// where it is.
    pub fn try_advance<E>(&mut self, response: Response<E>) -> (r: Result<Progress<E>, Response<E>>)
        ensures
            final(self).config() == old(self).config(),
            old(self).stage().expects(response@) ==> (r matches Ok(p) && (final(self).stage(), p@)
                == old(self).stage().step(old(self).config(), response@)),
            !old(self).stage().expects(response@) ==> r == Err::<Progress<E>, Response<E>>(response)
                && final(self).stage() == old(self).stage(),
    {
        if self.expects(&response) {
            Ok(self.advance(response))
        } else {
            Err(response)
        }
    }

    fn on_ready<E>(&mut self) -> (p: Progress<E>)
        ensures
            (final(self).stage, p@) == old(self).stage.on_ready::<E>(old(self).config),
            final(self).config == old(self).config,
    {
        let state = self.stage.state;
        match state.register() {
            Some((reg, len)) => {
                self.stage = Stage { state, phase: Phase::Data };
                Progress::Next(Request::Read { reg, len })
            },
            None => {
                let first = self.config.write_config(0);
                self.stage = Stage { state, phase: Phase::Written(0) };
                Progress::Next(Request::Write { reg: first.reg, data: first.data })
            },
        }
    }

    fn update_control<E>(&mut self, raw: [u8; 2]) -> (p: Progress<E>)
        requires
            old(self).stage.state.rewrites(),
        ensures
            (final(self).stage, p@) == old(self).stage.update_control::<E>(raw@),
            final(self).config == old(self).config,
    {
        match SysControl::from_bytes(raw) {
            Some(control) => {
                let asked = self.stage.control_request(control);
                self.write(Reg::SysControl, &asked.to_bytes())
            },
            None => self.fail(Error::BufferOverflow),
        }
    }

    fn on_identification<E>(&mut self, raw: [u8; 10]) -> (p: Progress<E>)
        requires
            old(self).stage.state is VerifyProductId,
            old(self).stage.phase is Data,
        ensures
            (final(self).stage, p@) == old(self).stage.on_data::<E>(old(self).config, raw@),
            final(self).config == old(self).config,
    {
        let number = Version::from_bytes(raw).number;
        if number == PRODUCT_NUMBER {
            self.enter(InitState::AwaitResetAck)
        } else {
            self.fail(Error::InvalidChipId((number % 256) as u8))
        }
    }

    fn on_register<E>(&mut self, raw: [u8; 2]) -> (p: Progress<E>)
        requires
            !(old(self).stage.state is VerifyProductId),
            old(self).stage.phase is Data || old(self).stage.phase is ResetControl,
            old(self).stage.wf(),
        ensures
            (final(self).stage, p@) == old(self).stage.on_data::<E>(old(self).config, raw@),
            final(self).config == old(self).config,
    {
        let state = self.stage.state;
        if matches!(self.stage.phase, Phase::ResetControl) {
            return self.update_control(raw);
        }
        match state {
            InitState::VerifyProductId => self.fail(Error::BufferOverflow),
            InitState::AwaitResetAck => {
                match Info::from_bytes(raw) {
                    Some(info) => {
                        if info.show_reset {
                            self.enter(InitState::TransferConfig)
                        } else {
                            self.stage = Stage { state, phase: Phase::ResetControl };
                            Progress::Next(Request::Read { reg: Reg::SysControl, len: 2 })
                        }
                    },
                    None => self.fail(Error::BufferOverflow),
                }
            },
            InitState::TransferConfig => self.fail(Error::BufferOverflow),
            InitState::AcknowledgeReset => self.update_control(raw),
            InitState::TriggerCalibration => self.update_control(raw),
            InitState::AwaitCalibration => {
                match Info::from_bytes(raw) {
                    Some(info) => {
                        if info.re_auto_tuning_occurred {
                            self.enter(InitState::FinalizeInterruptMode)
                        } else {
                            self.enter(InitState::AwaitCalibration)
                        }
                    },
                    None => self.fail(Error::BufferOverflow),
                }
            },
            InitState::FinalizeInterruptMode => {
                let settings = ConfigSettings {
                    interrupt_mode: self.config.interrupt_mode,
                    ..ConfigSettings::from_bytes(raw)
                };
                self.write(Reg::ConfigSettings, &settings.to_bytes())
            },
        }
    }

    fn on_written<E>(&mut self) -> (p: Progress<E>)
        requires
            old(self).stage.wf(),
            old(self).stage.phase is Written,
        ensures
            (final(self).stage, p@) == old(self).stage.on_written::<E>(old(self).config),
            final(self).config == old(self).config,
    {
        let state = self.stage.state;
        match state {
            InitState::VerifyProductId => self.fail(Error::BufferOverflow),
            InitState::AwaitResetAck => self.enter(InitState::AwaitResetAck),
            InitState::TransferConfig => {
                let next = match self.stage.phase {
                    Phase::Written(k) => k + 1,
                    _ => 0,
                };
                if next < CONFIG_WRITES {
                    let w = self.config.write_config(next);
                    self.stage = Stage { state, phase: Phase::Written(next) };
                    Progress::Next(Request::Write { reg: w.reg, data: w.data })
                } else {
                    self.enter(InitState::AcknowledgeReset)
                }
            },
            InitState::AcknowledgeReset => self.enter(InitState::TriggerCalibration),
            InitState::TriggerCalibration => self.enter(InitState::AwaitCalibration),
            InitState::AwaitCalibration => self.fail(Error::BufferOverflow),
            InitState::FinalizeInterruptMode => {
                self.stage = Stage { state, phase: Phase::Finished };
                Progress::Done(Ok(true))
            },
        }
    }

    /// Goes on with the response to the request that bring-up made last,
    /// and says what it does next.
    pub fn advance<E>(&mut self, response: Response<E>) -> (p: Progress<E>)
        requires
            old(self).stage().expects(response@),
        ensures
            (final(self).stage(), p@) == old(self).stage().step(old(self).config(), response@),
            final(self).config() == old(self).config(),
            p@ matches ProgressView::Next(RequestView::Write { data, .. }) ==> data.len()
                <= MAX_WRITE_LEN,
    {
        proof {
            use_type_invariant(&*self);
            lemma_writes_fit(self.stage, self.config, response@);
        }
        match response {
            Response::Failed(e) => self.fail(Error::I2c(e)),
            Response::Ready => self.on_ready(),
            Response::Data(bytes) => {
                if matches!(self.stage.state, InitState::VerifyProductId) {
                    let raw = [
                        bytes[0],
                        bytes[1],
                        bytes[2],
                        bytes[3],
                        bytes[4],
                        bytes[5],
                        bytes[6],
                        bytes[7],
                        bytes[8],
                        bytes[9],
                    ];
                    assert(raw@ =~= bytes@);
                    self.on_identification(raw)
                } else {
                    let raw = [bytes[0], bytes[1]];
                    assert(raw@ =~= bytes@);
                    self.on_register(raw)
                }
            },
            Response::Written => self.on_written(),
        }
    }
}

} // verus!
