//! The decision taken for each frame that the capture subsystem delivers.

use vstd::prelude::*;
use crate::session::{EncoderHandle, FlagsModel, SessionFlags};

verus! {

/// Whether this frame is the first of a capturing period or the first after one.
#[derive(Clone, Copy, Debug, PartialEq, Eq, Structural)]
pub enum CaptureEdge {
    Steady,
    /// Capturing has just begun: the elapsed-time reference is reset.
    Began,
    /// Capturing has just ended.
    Ended,
}

/// What the caller does with the frame.
#[derive(Clone, Copy, Debug, PartialEq, Eq, Structural)]
pub enum FrameAction {
    /// Hand the frame to this session's encoder.
    Feed(EncoderHandle),
    /// Capturing, but no encoder is installed yet: the frame is dropped.
    Drop,
    /// Capturing ended: finalize this session, which has left the slot.
    Finalize(EncoderHandle),
    /// Nothing to do.
    Idle,
}

#[derive(Clone, Copy, Debug, PartialEq, Eq, Structural)]
pub struct FrameDecision {
    pub edge: CaptureEdge,
    pub action: FrameAction,
}

/// One frame: from the shared state and whether the handler saw capturing on
/// the previous frame, the next shared state, the next such flag, and the
/// decision.
pub open spec fn frame_step(s: FlagsModel, was: bool) -> (FlagsModel, bool, FrameDecision) {
    if s.capturing {
        let edge = if was {
            CaptureEdge::Steady
        } else {
            CaptureEdge::Began
        };
        let action = match s.slot {
            Some(h) => FrameAction::Feed(h),
            None => FrameAction::Drop,
        };
        (s, true, FrameDecision { edge, action })
    } else if was {
        let action = match s.take().1 {
            Some(h) => FrameAction::Finalize(h),
            None => FrameAction::Idle,
        };
        (s.take().0, false, FrameDecision { edge: CaptureEdge::Ended, action })
    } else {
        (s, false, FrameDecision { edge: CaptureEdge::Steady, action: FrameAction::Idle })
    }
}

/// The handler's own memory: whether the previous frame was captured.
pub struct FrameHandler {
    was_capturing: bool,
}

impl View for FrameHandler {
    type V = bool;

    closed spec fn view(&self) -> bool {
        self.was_capturing
    }
}

impl FrameHandler {
    pub fn new() -> (r: FrameHandler)
        ensures
            r@ == false,
    {
        FrameHandler { was_capturing: false }
    }

    pub fn was_capturing(&self) -> (r: bool)
        ensures
            r == self@,
    {
        self.was_capturing
    }

    /// Decides what to do with one arriving frame. The flag is read afresh;
    /// the slot is emptied only on the first frame after capturing ended.
    pub fn on_frame(&mut self, flags: &mut SessionFlags) -> (r: FrameDecision)
        ensures
            (final(flags)@, final(self)@, r) == frame_step(old(flags)@, old(self)@),
    {
        if flags.is_capturing() {
            let edge = if self.was_capturing {
                CaptureEdge::Steady
            } else {
                CaptureEdge::Began
            };
            self.was_capturing = true;
            let action = match flags.current_encoder() {
                Some(h) => FrameAction::Feed(h),
                None => FrameAction::Drop,
            };
            FrameDecision { edge, action }
        } else if self.was_capturing {
            self.was_capturing = false;
            let action = match flags.take_encoder() {
                Some(h) => FrameAction::Finalize(h),
                None => FrameAction::Idle,
            };
            FrameDecision { edge: CaptureEdge::Ended, action }
        } else {
            FrameDecision { edge: CaptureEdge::Steady, action: FrameAction::Idle }
        }
    }
}

} // verus!
