//! The state shared by the frame-arrival side and the control side: the
//! capturing flag and the slot that holds at most one encoder session.

use vstd::prelude::*;

verus! {

/// One encoder session, numbered in the order sessions were installed.
#[derive(Clone, Copy, Debug, PartialEq, Eq, Structural)]
pub struct EncoderHandle {
    pub session: u64,
}

/// Why a start does not install an encoder.
#[derive(Clone, Copy, Debug, PartialEq, Eq, Structural)]
pub enum StartError {
    /// An encoder is already in the slot; it is left running.
    AlreadyActive,
    /// Every session number has been handed out.
    SessionsExhausted,
    /// The encoder could not be created.
    EncoderCreateFailed,
}

/// The mathematical state of the shared session: the flag, the slot, the
/// next session number, and the sessions that have left the slot.
pub struct FlagsModel {
    pub capturing: bool,
    pub slot: Option<EncoderHandle>,
    pub next_session: u64,
    pub retired: Set<u64>,
}

impl FlagsModel {
    /// The slot holds a session that was handed out and has not left it;
    /// every session that left was handed out before.
    pub open spec fn wf(self) -> bool {
        &&& (self.slot matches Some(h) ==> h.session < self.next_session && !self.retired.contains(
            h.session,
        ))
        &&& forall|s: u64| self.retired.contains(s) ==> s < self.next_session
    }

    pub open spec fn initial() -> FlagsModel {
        FlagsModel { capturing: false, slot: None, next_session: 0, retired: Set::empty() }
    }

    pub open spec fn with_capturing(self, on: bool) -> FlagsModel {
        FlagsModel {
            capturing: on,
            slot: self.slot,
            next_session: self.next_session,
            retired: self.retired,
        }
    }

    /// Whether a new session can be installed now.
    pub open spec fn install_error(self) -> Option<StartError> {
        if self.slot.is_some() {
            Some(StartError::AlreadyActive)
        } else if self.next_session == u64::MAX {
            Some(StartError::SessionsExhausted)
        } else {
            None
        }
    }

    /// Puts a fresh session into an empty slot.
    pub open spec fn install(self) -> (FlagsModel, Result<EncoderHandle, StartError>) {
        match self.install_error() {
            Some(e) => (self, Err(e)),
            None => {
                let h = EncoderHandle { session: self.next_session };
                (
                    FlagsModel {
                        capturing: self.capturing,
                        slot: Some(h),
                        next_session: (self.next_session + 1) as u64,
                        retired: self.retired,
                    },
                    Ok(h),
                )
            },
        }
    }

    /// Removes the session from the slot, if there is one.
    pub open spec fn take(self) -> (FlagsModel, Option<EncoderHandle>) {
        match self.slot {
            Some(h) => (
                FlagsModel {
                    capturing: self.capturing,
                    slot: None,
                    next_session: self.next_session,
                    retired: self.retired.insert(h.session),
                },
                Some(h),
            ),
            None => (self, None),
        }
    }

    /// Teardown: stop capturing and empty the slot.
    pub open spec fn drain(self) -> (FlagsModel, Option<EncoderHandle>) {
        self.with_capturing(false).take()
    }
}

/// Installing keeps the state well formed.
pub proof fn lemma_install_wf(m: FlagsModel)
    requires
        m.wf(),
    ensures
        m.install().0.wf(),
{
}

/// Taking keeps the state well formed, and a taken session had not left
/// the slot before and has left it after.
pub proof fn lemma_take_wf(m: FlagsModel)
    requires
        m.wf(),
    ensures
        m.take().0.wf(),
        m.take().1 matches Some(h) ==> !m.retired.contains(h.session) && m.take().0.retired
            == m.retired.insert(h.session),
        m.take().1 is None ==> m.take().0 == m,
        m.take().0.slot is None,
{
}

/// The shared session state. Its fields are reached only through the
/// operations below, each of which is one atomic step of the model.
pub struct SessionFlags {
    capturing: bool,
    encoder_slot: Option<EncoderHandle>,
    next_session: u64,
    retired: Ghost<Set<u64>>,
}

impl View for SessionFlags {
    type V = FlagsModel;

    closed spec fn view(&self) -> FlagsModel {
        FlagsModel {
            capturing: self.capturing,
            slot: self.encoder_slot,
            next_session: self.next_session,
            retired: self.retired@,
        }
    }
}

impl SessionFlags {
    /// Not capturing, no encoder.
    pub fn new() -> (r: SessionFlags)
        ensures
            r@ == FlagsModel::initial(),
            r@.wf(),
    {
        SessionFlags {
            capturing: false,
            encoder_slot: None,
            next_session: 0,
            retired: Ghost(Set::empty()),
        }
    }

    pub fn is_capturing(&self) -> (r: bool)
        ensures
            r == self@.capturing,
    {
        self.capturing
    }

    pub fn set_capturing(&mut self, on: bool)
        ensures
            final(self)@ == old(self)@.with_capturing(on),
    {
        self.capturing = on;
    }

    /// The session in the slot, if any.
    pub fn current_encoder(&self) -> (r: Option<EncoderHandle>)
        ensures
            r == self@.slot,
    {
        self.encoder_slot
    }

    /// Why a new session could not be installed now, if it could not.
    pub fn install_check(&self) -> (r: Option<StartError>)
        ensures
            r == self@.install_error(),
    {
        if self.encoder_slot.is_some() {
            Some(StartError::AlreadyActive)
        } else if self.next_session == u64::MAX {
            Some(StartError::SessionsExhausted)
        } else {
            None
        }
    }

    /// Installs a fresh session; an occupied slot is left as it is.
    pub fn try_install_encoder(&mut self) -> (r: Result<EncoderHandle, StartError>)
        ensures
            (final(self)@, r) == old(self)@.install(),
    {
        match self.install_check() {
            Some(e) => Err(e),
            None => {
                let h = EncoderHandle { session: self.next_session };
                self.encoder_slot = Some(h);
                self.next_session = self.next_session + 1;
                Ok(h)
            },
        }
    }

    /// Removes and returns the session in the slot.
    pub fn take_encoder(&mut self) -> (r: Option<EncoderHandle>)
        ensures
            (final(self)@, r) == old(self)@.take(),
    {
        match self.encoder_slot {
            Some(h) => {
                self.encoder_slot = None;
                self.retired = Ghost(self.retired@.insert(h.session));
                Some(h)
            },
            None => None,
        }
    }

    /// Teardown: clears the flag and hands out the session still installed,
    /// which the caller then finalizes.
    pub fn drain(&mut self) -> (r: Option<EncoderHandle>)
        ensures
            (final(self)@, r) == old(self)@.drain(),
    {
        self.set_capturing(false);
        self.take_encoder()
    }
}

} // verus!
