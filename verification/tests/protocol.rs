use testbed::backend::frame::{frame_payload, RecvError, WsFrame};
use testbed::backend::message::{
    Command, FileClass, Invocation, MeasureCpu, MeasurePower, Message, SentFile, Sequence, Timespan, C2S, S2C,
};
use testbed::backend::sequencer::Sequencer;

fn power_setup() -> MeasurePower {
    MeasurePower {
        mac_address: [1, 2, 3, 4, 5, 6],
        poll_interval: Timespan::from_millis(100),
        start_polling: false,
        max_measurements: Some(3),
    }
}

fn cpu_setup() -> MeasureCpu {
    MeasureCpu { poll_interval: Timespan::from_millis(500), start_polling: true, max_measurements: None }
}

#[test]
fn replies_expected_for_exactly_the_asking_requests() {
    assert!(C2S::Ping.has_reply());
    assert!(C2S::Commands(vec![]).has_reply());
    assert!(C2S::Download(vec!["tmp/results".to_string()]).has_reply());
    assert!(C2S::MeasurePower(power_setup(), None).has_reply());
    assert!(C2S::MeasureCpu(cpu_setup(), Some(Sequence(2))).has_reply());
    assert!(!C2S::ResetResults.has_reply());
    assert!(!C2S::Terminate(Sequence(3)).has_reply());
    assert!(!C2S::Upload(vec![]).has_reply());
    assert!(!C2S::ToggleMeasurement(Sequence(1)).has_reply());
}

#[test]
fn timespan_from_millis_splits_seconds() {
    assert_eq!(Timespan::from_millis(1500), Timespan { secs: 1, nanos: 500_000_000 });
    assert_eq!(Timespan::from_millis(0), Timespan { secs: 0, nanos: 0 });
    assert_eq!(Timespan::from_millis(999), Timespan { secs: 0, nanos: 999_000_000 });
}

#[test]
fn sent_file_target_name_prefers_rename() {
    let mut f = SentFile { filename: "../target/release/pulley".into(), rename: None, data: vec![1], class: FileClass::File };
    assert_eq!(f.target_name(), "../target/release/pulley");
    f.rename = Some("pulley".into());
    assert_eq!(f.target_name(), "pulley");
}

#[test]
fn sequencer_numbers_consecutively() {
    let mut s = Sequencer::new();
    let (m0, r0) = s.send(C2S::Ping);
    let (m1, r1) = s.send(C2S::ResetResults);
    let (m2, r2) = s.send(C2S::Commands(vec![Command {
        command: vec![Invocation { prog: "true".into(), args: vec![] }],
        env: vec![],
        cwd: None,
    }]));
    assert_eq!(m0.seq, Sequence(0));
    assert_eq!(r0, Some(Sequence(0)));
    assert_eq!(m1.seq, Sequence(1));
    assert_eq!(r1, None);
    assert_eq!(m2.seq, Sequence(2));
    assert_eq!(r2, Some(Sequence(2)));
    assert_eq!(s.seq, Sequence(3));
}

#[test]
fn sequencer_keeps_early_replies() {
    let mut s = Sequencer::new();
    assert!(s.take_reply(Sequence(4)).is_none());
    // While waiting for 5, the reply to 4 arrives: it is kept.
    let early = s.accept(Sequence(5), Message { seq: Sequence(4), cmd: S2C::Pong });
    assert!(early.is_none());
    // The awaited reply is handed out at once.
    let awaited = s.accept(Sequence(5), Message { seq: Sequence(5), cmd: S2C::Error("x".into()) });
    assert!(matches!(awaited, Some(S2C::Error(ref e)) if e == "x"));
    // Asking for 4 later hands out the kept reply, once.
    assert!(matches!(s.take_reply(Sequence(4)), Some(S2C::Pong)));
    assert!(s.take_reply(Sequence(4)).is_none());
    assert!(s.take_reply(Sequence(5)).is_none());
}

#[test]
fn sequencer_later_reply_replaces_kept_one() {
    let mut s = Sequencer::new();
    s.accept(Sequence(9), Message { seq: Sequence(1), cmd: S2C::Pong });
    s.accept(Sequence(9), Message { seq: Sequence(1), cmd: S2C::CpuData(vec!["a".into()]) });
    assert!(matches!(s.take_reply(Sequence(1)), Some(S2C::CpuData(ref v)) if v.len() == 1));
}

#[test]
fn frames_are_classified() {
    assert_eq!(frame_payload(Some(Ok(WsFrame::Binary(vec![1, 2])))).unwrap(), vec![1, 2]);
    assert!(matches!(frame_payload(None), Err(RecvError::Closed)));
    assert!(matches!(frame_payload(Some(Ok(WsFrame::Close))), Err(RecvError::Closed)));
    assert!(matches!(frame_payload(Some(Ok(WsFrame::Ping))), Err(RecvError::AuxMessage)));
    assert!(matches!(frame_payload(Some(Ok(WsFrame::Pong))), Err(RecvError::AuxMessage)));
    assert!(matches!(frame_payload(Some(Ok(WsFrame::Text))), Err(RecvError::NonBinaryWs)));
    assert!(matches!(frame_payload(Some(Ok(WsFrame::Raw))), Err(RecvError::NonBinaryWs)));
    let e = tokio_tungstenite::tungstenite::Error::ConnectionClosed;
    assert!(matches!(frame_payload(Some(Err(e))), Err(RecvError::UnexpectedError(_))));
}

#[test]
fn only_ping_pong_is_nonfatal() {
    assert!(RecvError::AuxMessage.is_nonfatal());
    assert!(!RecvError::Closed.is_nonfatal());
    assert!(!RecvError::NonBinaryWs.is_nonfatal());
    assert!(!RecvError::UnexpectedError(tokio_tungstenite::tungstenite::Error::AlreadyClosed).is_nonfatal());
}
