use capture_session::command::{Acknowledgement, Command, CommandReader, ReadStep, StartField};
use capture_session::control::{on_command, on_encoder_created, ControlAction};
use capture_session::frame::{CaptureEdge, FrameAction, FrameHandler};
use capture_session::session::{EncoderHandle, SessionFlags, StartError};

fn read_all(reader: &mut CommandReader, frames: &[&str]) -> ReadStep {
    let mut last = ReadStep::NeedMore;
    for f in frames {
        last = reader.push(f.to_string());
    }
    last
}

fn start_session(flags: &mut SessionFlags, reader: &mut CommandReader, at: u128) -> Result<Acknowledgement, StartError> {
    let step = read_all(reader, &["start", "video.mp4", "30", "1920", "1080"]);
    let cmd = match step {
        ReadStep::Done(c) => c,
        other => panic!("unexpected step {:?}", other),
    };
    match on_command(flags, cmd, at) {
        ControlAction::CreateEncoder(_) => on_encoder_created(flags, true, at),
        ControlAction::Reject(e) => Err(e),
        other => panic!("unexpected action {:?}", other),
    }
}

#[test]
fn round_trip_start_frames_stop() {
    let mut flags = SessionFlags::new();
    let mut reader = CommandReader::new();
    let mut handler = FrameHandler::new();

    let step = read_all(&mut reader, &["start", "video.mp4", "30", "1920", "1080"]);
    let cmd = match step {
        ReadStep::Done(c) => c,
        other => panic!("unexpected step {:?}", other),
    };
    let settings = match on_command(&mut flags, cmd, 1_000) {
        ControlAction::CreateEncoder(s) => s,
        other => panic!("unexpected action {:?}", other),
    };
    assert_eq!(settings.name, "video.mp4");
    assert_eq!(settings.fps, 30);
    assert_eq!(settings.width, 1920);
    assert_eq!(settings.height, 1080);
    assert!(!flags.is_capturing());

    let ack = on_encoder_created(&mut flags, true, 1_000).unwrap();
    assert_eq!(ack, Acknowledgement::Started(1_000));
    assert_eq!(ack.topic(), "start");
    assert_eq!(ack.timestamp(), 1_000);
    assert!(flags.is_capturing());
    let handle = flags.current_encoder().unwrap();

    let mut feeds = 0;
    for i in 0..10 {
        let d = handler.on_frame(&mut flags);
        assert_eq!(d.edge, if i == 0 { CaptureEdge::Began } else { CaptureEdge::Steady });
        if d.action == FrameAction::Feed(handle) {
            feeds += 1;
        }
    }
    assert_eq!(feeds, 10);

    let stop = match reader.push("stop".to_string()) {
        ReadStep::Done(c) => c,
        other => panic!("unexpected step {:?}", other),
    };
    match on_command(&mut flags, stop, 2_000) {
        ControlAction::Acknowledge(a) => {
            assert_eq!(a, Acknowledgement::Stopped(2_000));
            assert_eq!(a.topic(), "stop");
            assert_eq!(a.timestamp(), 2_000);
        }
        other => panic!("unexpected action {:?}", other),
    }
    assert!(!flags.is_capturing());

    let mut finalized = Vec::new();
    for _ in 0..5 {
        let d = handler.on_frame(&mut flags);
        if let FrameAction::Finalize(h) = d.action {
            finalized.push(h);
        }
        assert!(!matches!(d.action, FrameAction::Feed(_)));
    }
    assert_eq!(finalized, vec![handle]);
    assert_eq!(flags.current_encoder(), None);
    assert_eq!(flags.drain(), None);
}

#[test]
fn malformed_start_changes_nothing() {
    let mut flags = SessionFlags::new();
    let mut reader = CommandReader::new();
    let step = read_all(&mut reader, &["start", "video.mp4", "abc", "1920", "1080"]);
    match step {
        ReadStep::Malformed(e) => {
            assert_eq!(e.field, StartField::Fps);
            assert_eq!(e.text, "abc");
        }
        other => panic!("unexpected step {:?}", other),
    }
    assert!(!flags.is_capturing());
    assert_eq!(flags.current_encoder(), None);
    // The reader is back to waiting for a command.
    assert!(matches!(reader.push("stop".to_string()), ReadStep::Done(Command::Stop)));
    assert!(flags.try_install_encoder().is_ok());
}

#[test]
fn malformed_width_and_height_are_named() {
    let mut reader = CommandReader::new();
    match read_all(&mut reader, &["start", "v.mp4", "30", "-5", "1080"]) {
        ReadStep::Malformed(e) => assert_eq!(e.field, StartField::Width),
        other => panic!("unexpected step {:?}", other),
    }
    match read_all(&mut reader, &["start", "v.mp4", "30", "1920", "4294967296"]) {
        ReadStep::Malformed(e) => {
            assert_eq!(e.field, StartField::Height);
            assert_eq!(e.text, "4294967296");
        }
        other => panic!("unexpected step {:?}", other),
    }
}

#[test]
fn duplicate_start_keeps_first_encoder() {
    let mut flags = SessionFlags::new();
    let mut reader = CommandReader::new();
    let mut handler = FrameHandler::new();
    assert_eq!(start_session(&mut flags, &mut reader, 5), Ok(Acknowledgement::Started(5)));
    let first = flags.current_encoder().unwrap();
    assert_eq!(handler.on_frame(&mut flags).action, FrameAction::Feed(first));

    assert_eq!(start_session(&mut flags, &mut reader, 6), Err(StartError::AlreadyActive));
    assert_eq!(flags.current_encoder(), Some(first));
    assert!(flags.is_capturing());
    for _ in 0..3 {
        assert_eq!(handler.on_frame(&mut flags).action, FrameAction::Feed(first));
    }
}

#[test]
fn frames_while_not_capturing_are_never_fed() {
    let mut flags = SessionFlags::new();
    let mut handler = FrameHandler::new();
    for _ in 0..20 {
        let d = handler.on_frame(&mut flags);
        assert_eq!(d.action, FrameAction::Idle);
        assert_eq!(d.edge, CaptureEdge::Steady);
    }
    // An encoder installed without the flag is not fed either.
    let h = flags.try_install_encoder().unwrap();
    assert_eq!(h, EncoderHandle { session: 0 });
    for _ in 0..5 {
        assert!(!matches!(handler.on_frame(&mut flags).action, FrameAction::Feed(_)));
    }
}

#[test]
fn failed_encoder_creation_leaves_state_unchanged() {
    let mut flags = SessionFlags::new();
    assert_eq!(on_encoder_created(&mut flags, false, 9), Err(StartError::EncoderCreateFailed));
    assert!(!flags.is_capturing());
    assert_eq!(flags.current_encoder(), None);
    assert_eq!(on_encoder_created(&mut flags, true, 9), Ok(Acknowledgement::Started(9)));
    assert!(flags.is_capturing());
    assert_eq!(flags.current_encoder(), Some(EncoderHandle { session: 0 }));
}

#[test]
fn stop_path_twice_finalizes_once() {
    let mut flags = SessionFlags::new();
    let mut handler = FrameHandler::new();
    on_encoder_created(&mut flags, true, 1).unwrap();
    handler.on_frame(&mut flags);
    on_command(&mut flags, Command::Stop, 2);
    on_command(&mut flags, Command::Stop, 3);
    let d = handler.on_frame(&mut flags);
    assert_eq!(d.edge, CaptureEdge::Ended);
    assert_eq!(d.action, FrameAction::Finalize(EncoderHandle { session: 0 }));
    assert_eq!(handler.on_frame(&mut flags).action, FrameAction::Idle);
    assert_eq!(flags.drain(), None);
    assert_eq!(flags.take_encoder(), None);
}

#[test]
fn stop_then_drain_empties_slot_without_frames() {
    let mut flags = SessionFlags::new();
    on_encoder_created(&mut flags, true, 1).unwrap();
    on_command(&mut flags, Command::Stop, 2);
    assert_eq!(flags.drain(), Some(EncoderHandle { session: 0 }));
    assert_eq!(flags.current_encoder(), None);
    assert!(!flags.is_capturing());
    assert_eq!(flags.drain(), None);
}

#[test]
fn drain_while_capturing_clears_flag() {
    let mut flags = SessionFlags::new();
    on_encoder_created(&mut flags, true, 1).unwrap();
    assert_eq!(flags.drain(), Some(EncoderHandle { session: 0 }));
    assert!(!flags.is_capturing());
}

#[test]
fn sessions_are_numbered_in_order() {
    let mut flags = SessionFlags::new();
    let mut handler = FrameHandler::new();
    for n in 0..3u64 {
        assert_eq!(on_encoder_created(&mut flags, true, 0), Ok(Acknowledgement::Started(0)));
        assert_eq!(handler.on_frame(&mut flags).action, FrameAction::Feed(EncoderHandle { session: n }));
        on_command(&mut flags, Command::Stop, 0);
        assert_eq!(handler.on_frame(&mut flags).action, FrameAction::Finalize(EncoderHandle { session: n }));
    }
}

#[test]
fn start_rejected_while_stopped_encoder_awaits_finalize() {
    let mut flags = SessionFlags::new();
    on_encoder_created(&mut flags, true, 1).unwrap();
    on_command(&mut flags, Command::Stop, 2);
    let cmd = match read_all(&mut CommandReader::new(), &["start", "b.mp4", "60", "640", "480"]) {
        ReadStep::Done(c) => c,
        other => panic!("unexpected step {:?}", other),
    };
    assert!(matches!(on_command(&mut flags, cmd, 3), ControlAction::Reject(StartError::AlreadyActive)));
}

#[test]
fn capturing_without_encoder_drops_frames() {
    let mut flags = SessionFlags::new();
    let mut handler = FrameHandler::new();
    flags.set_capturing(true);
    let d = handler.on_frame(&mut flags);
    assert_eq!(d.edge, CaptureEdge::Began);
    assert_eq!(d.action, FrameAction::Drop);
    assert!(handler.was_capturing());
}

#[test]
fn unknown_command_is_ignored() {
    let mut flags = SessionFlags::new();
    let mut reader = CommandReader::new();
    let cmd = match reader.push("pause".to_string()) {
        ReadStep::Done(c) => c,
        other => panic!("unexpected step {:?}", other),
    };
    match on_command(&mut flags, cmd, 4) {
        ControlAction::Ignore(raw) => assert_eq!(raw, "pause"),
        other => panic!("unexpected action {:?}", other),
    }
    assert!(!flags.is_capturing());
    assert_eq!(flags.current_encoder(), None);
}

#[test]
fn reader_needs_four_frames_after_start() {
    let mut reader = CommandReader::new();
    for f in ["start", "clip.mp4", "+24", "800"] {
        assert!(matches!(reader.push(f.to_string()), ReadStep::NeedMore));
    }
    match reader.push("600".to_string()) {
        ReadStep::Done(Command::Start(s)) => {
            assert_eq!(s.name, "clip.mp4");
            assert_eq!((s.fps, s.width, s.height), (24, 800, 600));
        }
        other => panic!("unexpected step {:?}", other),
    }
    // "stop" inside a start command is a field, not a command.
    let mut reader = CommandReader::new();
    read_all(&mut reader, &["start"]);
    assert!(matches!(reader.push("stop".to_string()), ReadStep::NeedMore));
}
