use boa::data::event_logger::{build_layer, EventLayer};
use boa::data::logger::{console, Layer, Output, Threshold};
use boa::live::credential::Credential;
use boa::live::error::LiveError;
use boa::live::session::{
    admits, interval_of, start_loop, step, Inbound, LiveClient, LoopAction, LoopEvent, LoopKind,
    LoopState, SessionAction, SessionState, HEARTBEAT_INTERVAL_MS, QUEUE_CAPACITY, RECEIVE_INTERVAL_MS,
};
use boa::live::text::{decimal_string, same_text};

fn run(kind: LoopKind, mut state: LoopState, events: &[LoopEvent]) -> (LoopState, Vec<LoopAction>) {
    let mut actions = Vec::new();
    for event in events {
        let (next, action) = step(kind, state, *event);
        state = next;
        actions.push(action);
    }
    (state, actions)
}

#[test]
fn loop_starts_by_reading_the_stop_signal() {
    assert_eq!(start_loop(), (LoopState::Polling, LoopAction::ReadStop));
}

#[test]
fn loop_intervals() {
    assert_eq!(HEARTBEAT_INTERVAL_MS, 20_000);
    assert_eq!(RECEIVE_INTERVAL_MS, 50);
    assert_eq!(interval_of(LoopKind::Heartbeat), 20_000);
    assert_eq!(interval_of(LoopKind::Receive), 50);
}

#[test]
fn heartbeat_round() {
    let events = [LoopEvent::Stop(false), LoopEvent::Lock(true), LoopEvent::Done, LoopEvent::Woke];
    assert_eq!(
        run(LoopKind::Heartbeat, LoopState::Polling, &events),
        (
            LoopState::Polling,
            vec![
                LoopAction::TakeLock,
                LoopAction::Work,
                LoopAction::Sleep(20_000),
                LoopAction::ReadStop
            ]
        )
    );
}

#[test]
fn receive_round() {
    let events = [LoopEvent::Stop(false), LoopEvent::Lock(true), LoopEvent::Done, LoopEvent::Woke];
    assert_eq!(
        run(LoopKind::Receive, LoopState::Polling, &events),
        (
            LoopState::Polling,
            vec![
                LoopAction::TakeLock,
                LoopAction::Work,
                LoopAction::Sleep(50),
                LoopAction::ReadStop
            ]
        )
    );
}

#[test]
fn heartbeat_ends_on_a_failed_lock() {
    assert_eq!(
        step(LoopKind::Heartbeat, LoopState::Locking, LoopEvent::Lock(false)),
        (LoopState::Exited { failed: true }, LoopAction::Return(Some(LiveError::LockFailure)))
    );
}

#[test]
fn receive_goes_on_after_a_failed_lock() {
    let events = [LoopEvent::Lock(false), LoopEvent::Woke, LoopEvent::Stop(false)];
    assert_eq!(
        run(LoopKind::Receive, LoopState::Locking, &events),
        (
            LoopState::Locking,
            vec![LoopAction::Sleep(50), LoopAction::ReadStop, LoopAction::TakeLock]
        )
    );
}

#[test]
fn loops_return_once_the_stop_signal_is_set() {
    for kind in [LoopKind::Heartbeat, LoopKind::Receive] {
        assert_eq!(
            step(kind, LoopState::Polling, LoopEvent::Stop(true)),
            (LoopState::Exited { failed: false }, LoopAction::Return(None))
        );
        // From the middle of a round: the work, one pause, then the signal.
        let events = [LoopEvent::Lock(true), LoopEvent::Done, LoopEvent::Woke, LoopEvent::Stop(true)];
        let (state, actions) = run(kind, LoopState::Locking, &events);
        assert_eq!(state, LoopState::Exited { failed: false });
        let pauses: Vec<&LoopAction> =
            actions.iter().filter(|a| matches!(a, LoopAction::Sleep(_))).collect();
        assert_eq!(pauses, vec![&LoopAction::Sleep(interval_of(kind))]);
        // From a pause: no further pause.
        let (state, actions) = run(kind, LoopState::Resting, &[LoopEvent::Woke, LoopEvent::Stop(true)]);
        assert_eq!(state, LoopState::Exited { failed: false });
        assert_eq!(actions, vec![LoopAction::ReadStop, LoopAction::Return(None)]);
    }
}

#[test]
fn loop_ignores_what_it_does_not_wait_for() {
    for kind in [LoopKind::Heartbeat, LoopKind::Receive] {
        assert_eq!(
            step(kind, LoopState::Polling, LoopEvent::Woke),
            (LoopState::Polling, LoopAction::ReadStop)
        );
        assert_eq!(
            step(kind, LoopState::Locking, LoopEvent::Stop(true)),
            (LoopState::Locking, LoopAction::TakeLock)
        );
        assert_eq!(
            step(kind, LoopState::Working, LoopEvent::Lock(false)),
            (LoopState::Working, LoopAction::Work)
        );
        assert_eq!(
            step(kind, LoopState::Resting, LoopEvent::Done),
            (LoopState::Resting, LoopAction::Sleep(interval_of(kind)))
        );
        assert_eq!(
            step(kind, LoopState::Exited { failed: false }, LoopEvent::Stop(false)),
            (LoopState::Exited { failed: false }, LoopAction::Return(None))
        );
        assert_eq!(
            step(kind, LoopState::Exited { failed: true }, LoopEvent::Woke),
            (LoopState::Exited { failed: true }, LoopAction::Return(Some(LiveError::LockFailure)))
        );
    }
}

#[test]
fn queue_drops_at_capacity() {
    assert_eq!(QUEUE_CAPACITY, 16);
    assert!(admits(0));
    assert!(admits(15));
    assert!(!admits(16));
    assert!(!admits(usize::MAX));
}

#[test]
fn session_from_idle_to_stopped() {
    let credential = Credential::from_sessdata("token");
    let mut session = LiveClient::new("100", &credential);
    assert_eq!(session.room_id(), "100");
    assert_eq!(session.cookie(), "SESSDATA=token");
    assert_eq!(session.state(), SessionState::Idle);
    assert!(!session.stop_requested());
    assert_eq!(
        session.connect(),
        vec![
            SessionAction::SendAuth,
            SessionAction::StartLoop(LoopKind::Heartbeat),
            SessionAction::StartLoop(LoopKind::Receive),
        ]
    );
    assert_eq!(session.state(), SessionState::Connected);
    assert_eq!(session.connect(), vec![]);
    assert_eq!(session.state(), SessionState::Connected);
    session.close();
    assert!(session.stop_requested());
    assert_eq!(session.state(), SessionState::ShuttingDown);
    session.loop_returned(LoopKind::Receive);
    assert_eq!(session.state(), SessionState::ShuttingDown);
    session.loop_returned(LoopKind::Heartbeat);
    assert_eq!(session.state(), SessionState::Stopped);
}

#[test]
fn one_loop_ending_does_not_stop_the_session() {
    let mut session = LiveClient::new("100", &Credential::from_sessdata("token"));
    session.connect();
    session.loop_returned(LoopKind::Heartbeat);
    assert!(!session.stop_requested());
    assert_eq!(session.state(), SessionState::Connected);
}

#[test]
fn session_closed_before_it_connects() {
    let mut session = LiveClient::new("100", &Credential::from_sessdata("token"));
    session.loop_returned(LoopKind::Heartbeat);
    session.loop_returned(LoopKind::Receive);
    assert_eq!(session.state(), SessionState::Idle);
    session.close();
    assert_eq!(session.state(), SessionState::Idle);
    assert_eq!(session.connect().len(), 3);
    assert_eq!(session.state(), SessionState::ShuttingDown);
}

#[test]
fn next_message_wraps_raw_documents_only() {
    let session = LiveClient::new("100", &Credential::from_sessdata("token"));
    assert!(session.next_message(None).is_none());
    assert!(session.next_message(Some(Inbound::Other)).is_none());
    let data: serde_json::Value = serde_json::from_str(r#"{"cmd":"LIVE"}"#).expect("JSON");
    let message = session.next_message(Some(Inbound::Raw(data.clone()))).expect("a raw message");
    assert_eq!(message.room_id(), "100");
    assert_eq!(message.data(), &data);
    assert_eq!(message.to_text(), Some(r#"{"cmd":"LIVE"}"#.to_string()));
    assert_eq!(message.to_pretty_text(), Some("{\n  \"cmd\": \"LIVE\"\n}".to_string()));
    assert_eq!(message.into_data(), data);
}

#[test]
fn session_needs_room_and_credential() {
    assert!(LiveClient::accepts("100", &Credential::from_sessdata("token")));
    assert!(!LiveClient::accepts("", &Credential::from_sessdata("token")));
    assert!(!LiveClient::accepts("100", &Credential::from_sessdata("")));
}

#[test]
fn credential_as_cookie() {
    assert_eq!(Credential::from_sessdata("abc%2C123").to_text(), "SESSDATA=abc%2C123");
    assert_eq!(Credential::from_sessdata("").to_text(), "SESSDATA=");
    assert!(Credential::from_sessdata("").is_empty());
    assert!(!Credential::from_sessdata("x").is_empty());
}

#[test]
fn program_log_layers() {
    assert_eq!(
        boa::data::logger::init(),
        vec![
            Layer {
                output: Output::Daily { directory: "logs", file: "logs.jsonl" },
                threshold: Threshold::Debug,
                with_time: true,
                with_level: true,
                with_file: false,
                with_ansi: false,
            },
            Layer {
                output: Output::Stdout,
                threshold: Threshold::Environment,
                with_time: false,
                with_level: true,
                with_file: true,
                with_ansi: true,
            },
        ]
    );
    assert_eq!(console(), boa::data::logger::init()[1]);
}

#[test]
fn event_log_layers() {
    assert_eq!(
        build_layer("gift"),
        EventLayer { file: "gift.jsonl".to_string(), filter: "gift=trace".to_string() }
    );
    assert_eq!(
        boa::data::event_logger::init(),
        vec![
            EventLayer { file: "raw.jsonl".to_string(), filter: "raw=trace".to_string() },
            EventLayer { file: "danmaku.jsonl".to_string(), filter: "danmaku=trace".to_string() },
        ]
    );
}

#[test]
fn data_directory_names() {
    assert_eq!(
        (boa::data::QUALIFIER, boa::data::ORGANIZATION, boa::data::APPLICATION),
        ("xyz", "mufanc", "boa")
    );
}

#[test]
fn numbers_in_decimal() {
    assert_eq!(decimal_string(0), "0");
    assert_eq!(decimal_string(9), "9");
    assert_eq!(decimal_string(10), "10");
    assert_eq!(decimal_string(1234567890), "1234567890");
    assert_eq!(decimal_string(u64::MAX), "18446744073709551615");
}

#[test]
fn texts_compare_by_their_characters() {
    assert!(same_text("", ""));
    assert!(same_text("LIVE", "LIVE"));
    assert!(!same_text("LIVE", "LIVES"));
    assert!(!same_text("LIVE", "LIVe"));
    assert!(same_text("弹幕", "弹幕"));
    assert!(!same_text("弹幕", "弹"));
}
