//! What holds of the session over sequences of frames, commands and
//! teardown, stated over the transition functions that the executable
//! operations follow.

use vstd::prelude::*;
use crate::command::{Command, EncoderSettings};
use crate::control::{command_step, created_step, ControlAction};
use crate::frame::{frame_step, FrameAction, FrameDecision};
use crate::session::{lemma_install_wf, lemma_take_wf, EncoderHandle, FlagsModel};

verus! {

/// `n` frames in a row, with no command in between.
pub open spec fn frames_run(s: FlagsModel, was: bool, n: nat) -> (FlagsModel, bool, Seq<FrameDecision>)
    decreases n,
{
    if n == 0 {
        (s, was, Seq::empty())
    } else {
        let first = frame_step(s, was);
        let rest = frames_run(first.0, first.1, (n - 1) as nat);
        (rest.0, rest.1, seq![first.2] + rest.2)
    }
}

/// While the flag is off, however many frames arrive, none is fed to an
/// encoder and the flag stays off.
pub proof fn lemma_no_feed_while_not_capturing(s: FlagsModel, was: bool, n: nat)
    requires
        !s.capturing,
    ensures
        !frames_run(s, was, n).0.capturing,
        frames_run(s, was, n).2.len() == n,
        forall|i: int|
            0 <= i < n ==> !((#[trigger] frames_run(s, was, n).2[i]).action is Feed),
    decreases n,
{
    if n > 0 {
        let first = frame_step(s, was);
        lemma_no_feed_while_not_capturing(first.0, first.1, (n - 1) as nat);
        let rest = frames_run(first.0, first.1, (n - 1) as nat);
        assert forall|i: int| 0 <= i < n implies !((#[trigger] frames_run(s, was, n).2[i]).action is Feed) by {
            if i > 0 {
                assert(frames_run(s, was, n).2[i] == rest.2[i - 1]);
            }
        }
    }
}

/// A start either installs a session and sets the flag together, or leaves
/// the state exactly as it was: receiving the command changes nothing, and
/// completing it changes both or neither.
pub proof fn lemma_start_all_or_nothing(
    s: FlagsModel,
    settings: EncoderSettings,
    created: bool,
    now: u128,
)
    ensures
        command_step(s, Command::Start(settings), now).0 == s,
        command_step(s, Command::Start(settings), now).1 is CreateEncoder <==> s.install_error()
            is None,
        created_step(s, created, now).1 is Ok ==> created_step(s, created, now).0.capturing
            && created_step(s, created, now).0.slot is Some,
        created_step(s, created, now).1 is Err ==> created_step(s, created, now).0 == s,
        created_step(s, created, now).1 is Ok <==> created && s.install_error() is None,
{
}

/// The events that move a session.
pub enum SessionEvent {
    Frame,
    Received(Command, u128),
    Created(bool, u128),
    Drain,
}

/// One event: the next state, the next frame-side flag, and the session
/// finalized by it, if any.
pub open spec fn event_step(s: FlagsModel, was: bool, e: SessionEvent) -> (
    FlagsModel,
    bool,
    Option<EncoderHandle>,
) {
    match e {
        SessionEvent::Frame => {
            let r = frame_step(s, was);
            let done = match r.2.action {
                FrameAction::Finalize(h) => Some(h),
                _ => None,
            };
            (r.0, r.1, done)
        },
        SessionEvent::Received(cmd, t) => (command_step(s, cmd, t).0, was, None),
        SessionEvent::Created(ok, t) => (created_step(s, ok, t).0, was, None),
        SessionEvent::Drain => (s.drain().0, was, s.drain().1),
    }
}

/// The sessions finalized, in order, over a sequence of events.
pub open spec fn run_events(s: FlagsModel, was: bool, es: Seq<SessionEvent>) -> (
    FlagsModel,
    bool,
    Seq<u64>,
)
    decreases es.len(),
{
    if es.len() == 0 {
        (s, was, Seq::empty())
    } else {
        let first = event_step(s, was, es[0]);
        let rest = run_events(first.0, first.1, es.drop_first());
        let done = match first.2 {
            Some(h) => seq![h.session] + rest.2,
            None => rest.2,
        };
        (rest.0, rest.1, done)
    }
}

proof fn lemma_event_step(s: FlagsModel, was: bool, e: SessionEvent)
    requires
        s.wf(),
    ensures
        event_step(s, was, e).0.wf(),
        event_step(s, was, e).2 matches Some(h) ==> !s.retired.contains(h.session)
            && event_step(s, was, e).0.retired == s.retired.insert(h.session),
        event_step(s, was, e).2 is None ==> event_step(s, was, e).0.retired == s.retired,
{
    lemma_take_wf(s);
    lemma_take_wf(s.with_capturing(false));
    lemma_install_wf(s);
}

/// Over any sequence of events from a well-formed state, no session is
/// finalized twice, nor one that had already left the slot.
pub proof fn lemma_finalize_at_most_once(s: FlagsModel, was: bool, es: Seq<SessionEvent>)
    requires
        s.wf(),
    ensures
        run_events(s, was, es).2.no_duplicates(),
        forall|i: int|
            0 <= i < run_events(s, was, es).2.len() ==> !s.retired.contains(
                #[trigger] run_events(s, was, es).2[i],
            ),
        forall|i: int|
            0 <= i < run_events(s, was, es).2.len() ==> run_events(s, was, es).0.retired.contains(
                #[trigger] run_events(s, was, es).2[i],
            ),
        s.retired.subset_of(run_events(s, was, es).0.retired),
        run_events(s, was, es).0.wf(),
    decreases es.len(),
{
    if es.len() > 0 {
        let first = event_step(s, was, es[0]);
        lemma_event_step(s, was, es[0]);
        lemma_finalize_at_most_once(first.0, first.1, es.drop_first());
        let rest = run_events(first.0, first.1, es.drop_first());
        let all = run_events(s, was, es).2;
        match first.2 {
            Some(h) => {
                assert(all == seq![h.session] + rest.2);
                assert forall|i: int| 0 <= i < all.len() implies !s.retired.contains(
                    #[trigger] all[i],
                ) && rest.0.retired.contains(all[i]) by {
                    if i > 0 {
                        assert(all[i] == rest.2[i - 1]);
                    }
                }
                assert forall|i: int, j: int|
                    0 <= i < all.len() && 0 <= j < all.len() && i != j implies all[i] != all[j] by {
                    if i > 0 {
                        assert(all[i] == rest.2[i - 1]);
                    }
                    if j > 0 {
                        assert(all[j] == rest.2[j - 1]);
                    }
                }
            },
            None => {
                assert(all == rest.2);
            },
        }
    }
}

/// Well formed, and the flag is on only while a session is installed.
pub open spec fn consistent(s: FlagsModel) -> bool {
    s.wf() && (s.capturing ==> s.slot is Some)
}

/// No event leaves the flag on without a session installed: a start sets
/// both or neither, and whatever empties the slot clears the flag first.
pub proof fn lemma_events_keep_consistent(s: FlagsModel, was: bool, es: Seq<SessionEvent>)
    requires
        consistent(s),
    ensures
        consistent(run_events(s, was, es).0),
    decreases es.len(),
{
    if es.len() > 0 {
        let first = event_step(s, was, es[0]);
        lemma_event_step(s, was, es[0]);
        lemma_events_keep_consistent(first.0, first.1, es.drop_first());
    }
}

/// After a stop, the teardown drain leaves the flag off and the slot empty,
/// and hands out the session that was installed before the stop.
pub proof fn lemma_stop_then_drain(s: FlagsModel, now: u128)
    ensures
        !command_step(s, Command::Stop, now).0.drain().0.capturing,
        command_step(s, Command::Stop, now).0.drain().0.slot is None,
        command_step(s, Command::Stop, now).0.drain().1 == s.slot,
{
}

/// After a stop, the first frame seen by a handler that was capturing empties
/// the slot and finalizes the session that was in it.
pub proof fn lemma_stop_then_frame(s: FlagsModel, now: u128)
    ensures
        frame_step(command_step(s, Command::Stop, now).0, true).0.slot is None,
        frame_step(command_step(s, Command::Stop, now).0, true).2.action == match s.slot {
            Some(h) => FrameAction::Finalize(h),
            None => FrameAction::Idle,
        },
{
}

} // verus!
