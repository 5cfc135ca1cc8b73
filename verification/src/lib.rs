//! Driver core for the Azoteq IQS7211E capacitive touch and gesture
//! controller: register layouts, the sensing-cycle allocator, the bring-up
//! sequence and the classification of touch reports, all free of I/O.
//!
//! The core never touches the bus. It says which register to read or write
//! next and with which bytes, and it is told what came back:
//!
//! - [`Iqs7211e::initialize`] begins a [`Bringup`], which hands out one
//!   [`Request`] at a time and goes on with the [`Response`] to it;
//! - the functions that change a register take the bytes read from it and
//!   return the bytes to write back;
//! - [`event::next_event`] and [`Iqs7211e::read_report`] turn the bytes of
//!   one communication window into an event or a report, and
//!   [`touchpad::Touchpad`] turns consecutive reports into contact changes.

pub mod config;
pub mod control;
pub mod event;
pub mod init;
pub mod reg;
pub mod report;
pub mod rw;
pub mod setup;
pub mod touchpad;
pub mod wire;

pub use crate::config::pinout::{Pin, Pinout};
pub use crate::config::Config;
pub use crate::init::{Bringup, InitState, Progress};
pub use crate::rw::{Request, Response};

use crate::init::Stage;
use crate::report::Report;
use crate::rw::RequestView;
use vstd::prelude::*;

verus! {

/// What can go wrong while talking to the controller.
#[derive(Debug)]
pub enum Error<E> {
    /// The bus transaction failed; the transport's own error is inside.
    I2c(E),
    /// The device identified itself as something else; the low byte of the
    /// product number it gave is inside.
    InvalidChipId(u8),
    /// More bytes than one transfer can carry, or bytes that stand for no
    /// value of the type read.
    BufferOverflow,
}

/// The driver of one controller: the configuration staged for it, and
/// whether the device holds that configuration.
#[derive(Debug)]
pub struct Iqs7211e {
    config: Config,
    initialized: bool,
}

impl Iqs7211e {
    /// The configuration staged for the device.
    pub closed spec fn staged(self) -> Config {
        self.config
    }

    /// Whether the device holds the staged configuration, as far as the
    /// driver knows.
    pub closed spec fn ready(self) -> bool {
        self.initialized
    }

    /// A driver with `config` staged. Nothing reaches the device before
    /// bring-up.
    pub fn new(config: Config) -> (driver: Self)
        ensures
            driver.staged() == config,
            !driver.ready(),
    {
        Self { config, initialized: false }
    }

    /// The configuration staged for the device.
    pub fn config(&self) -> (config: Config)
        ensures
            config == self.staged(),
    {
        self.config
    }

    /// Stages another configuration. It reaches the device with the next
    /// bring-up.
    pub fn set_config(&mut self, config: Config)
        ensures
            final(self).staged() == config,
            final(self).ready() == old(self).ready(),
    {
        self.config = config;
    }

    /// Whether the device holds the staged configuration, as far as the
    /// driver knows.
    pub fn is_initialized(&self) -> (ready: bool)
        ensures
            ready == self.ready(),
    {
        self.initialized
    }

    /// Begins the bring-up of the device with a copy of the staged
    /// configuration: identification, reset, configuration transfer and
    /// auto-tuning. The caller serves each request and hands the response
    /// to [`Bringup::advance`].
    pub fn initialize(&self) -> (begun: (Bringup, Request))
        ensures
            begun.0.stage() == Stage::initial(),
            begun.0.config() == self.staged(),
            begun.1@ == RequestView::AwaitReady,
    {
        Bringup::start(self.config)
    }

    /// Takes note of how a bring-up ended: the device holds the staged
    /// configuration once a bring-up has updated its settings.
    pub fn complete_initialize<E>(&mut self, outcome: &Result<bool, Error<E>>)
        ensures
            final(self).staged() == old(self).staged(),
            final(self).ready() == (old(self).ready() || *outcome == Ok::<bool, Error<E>>(true)),
    {
        if let Ok(true) = outcome {
            self.initialized = true;
        }
    }

    /// The report that the registers read in one communication window stand
    /// for, and whether a bring-up is due before the next: it is while the
    /// device does not hold the staged configuration. A device that holds
    /// it and shows its reset flag has lost it.
    pub fn read_report<E>(
        &mut self,
        gesture: u16,
        info: [u8; 2],
        primary: [u8; 8],
        secondary: [u8; 8],
    ) -> (read: Result<(Report, bool), Error<E>>)
        ensures
            final(self).staged() == old(self).staged(),
            match Report::decoding::<E>(gesture, info@, primary@, secondary@) {
                Ok(report) => {
                    &&& read == Ok::<(Report, bool), Error<E>>((report, !old(self).ready()))
                    &&& final(self).ready() == (old(self).ready() && !report.info.show_reset)
                },
                Err(e) => read == Err::<(Report, bool), Error<E>>(e) && final(self).ready() == old(
                    self,
                ).ready(),
            },
    {
        match Report::from_registers(gesture, info, primary, secondary) {
            Ok(report) => {
                let due = !self.initialized;
                if self.initialized && report.info.show_reset {
                    self.initialized = false;
                }
                Ok((report, due))
            },
            Err(e) => Err(e),
        }
    }
}

} // verus!
