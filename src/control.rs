//! The decisions of the control loop, one command at a time.

use vstd::prelude::*;
use crate::command::{Acknowledgement, Command, EncoderSettings};
use crate::session::{FlagsModel, SessionFlags, StartError};

verus! {

/// What the control loop does after a command.
#[derive(Clone, Debug)]
pub enum ControlAction {
    /// Create an encoder bound to these settings, then report the outcome
    /// with `on_encoder_created`.
    CreateEncoder(EncoderSettings),
    /// The start is refused; nothing changed.
    Reject(StartError),
    /// Send this acknowledgement.
    Acknowledge(Acknowledgement),
    /// An unknown command, left unanswered.
    Ignore(String),
}

pub open spec fn command_step(s: FlagsModel, cmd: Command, now: u128) -> (FlagsModel, ControlAction) {
    match cmd {
        Command::Start(settings) => match s.install_error() {
            Some(e) => (s, ControlAction::Reject(e)),
            None => (s, ControlAction::CreateEncoder(settings)),
        },
        Command::Stop => (
            s.with_capturing(false),
            ControlAction::Acknowledge(Acknowledgement::Stopped(now)),
        ),
        Command::Unknown(raw) => (s, ControlAction::Ignore(raw)),
    }
}

pub open spec fn created_step(s: FlagsModel, created: bool, now: u128) -> (
    FlagsModel,
    Result<Acknowledgement, StartError>,
) {
    if !created {
        (s, Err(StartError::EncoderCreateFailed))
    } else {
        match s.install().1 {
            Ok(_) => (s.install().0.with_capturing(true), Ok(Acknowledgement::Started(now))),
            Err(e) => (s, Err(e)),
        }
    }
}

/// Acts on one command received at `received_at` (nanoseconds). A stop
/// clears the flag and is acknowledged at once; the encoder is left for the
/// frame side to finalize. A start changes nothing yet.
pub fn on_command(flags: &mut SessionFlags, cmd: Command, received_at: u128) -> (r: ControlAction)
    ensures
        (final(flags)@, r) == command_step(old(flags)@, cmd, received_at),
{
    match cmd {
        Command::Start(settings) => match flags.install_check() {
            Some(e) => ControlAction::Reject(e),
            None => ControlAction::CreateEncoder(settings),
        },
        Command::Stop => {
            flags.set_capturing(false);
            ControlAction::Acknowledge(Acknowledgement::Stopped(received_at))
        },
        Command::Unknown(raw) => ControlAction::Ignore(raw),
    }
}

/// Completes a start once the encoder was created (or failed to be): the
/// session is installed and the flag set together, or nothing changes.
pub fn on_encoder_created(flags: &mut SessionFlags, created: bool, received_at: u128) -> (r: Result<
    Acknowledgement,
    StartError,
>)
    ensures
        (final(flags)@, r) == created_step(old(flags)@, created, received_at),
{
    if !created {
        return Err(StartError::EncoderCreateFailed);
    }
    match flags.try_install_encoder() {
        Ok(_) => {
            flags.set_capturing(true);
            Ok(Acknowledgement::Started(received_at))
        },
        Err(e) => Err(e),
    }
}

} // verus!
