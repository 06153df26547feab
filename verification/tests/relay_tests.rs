use api_tester::relay::{
    begin, begin_with, step, Direction, Frame, ListenEnd, RelayAction, RelayError, RelayEvent,
    RelayPhase, RelaySession, RelayStep, WebSocketMessage, WebSocketRequest, WebSocketResponse,
};
use api_tester::settings::Settings;

fn request(url: &str, messages: &[&str], duration: Option<u64>) -> WebSocketRequest {
    WebSocketRequest {
        url: url.to_string(),
        messages: messages.iter().map(|text| text.to_string()).collect(),
        duration,
    }
}

fn sent(content: &str, timestamp: &str) -> WebSocketMessage {
    WebSocketMessage {
        direction: Direction::Sent,
        content: content.to_string(),
        timestamp: timestamp.to_string(),
    }
}

fn received(content: &str, timestamp: &str) -> WebSocketMessage {
    WebSocketMessage {
        direction: Direction::Received,
        content: content.to_string(),
        timestamp: timestamp.to_string(),
    }
}

fn text(content: &str, timestamp: &str) -> RelayEvent {
    RelayEvent::FrameArrived {
        frame: Frame::Text { content: content.to_string() },
        timestamp: timestamp.to_string(),
    }
}

fn at(timestamp: &str) -> RelayEvent {
    RelayEvent::Sent { timestamp: timestamp.to_string() }
}

fn ended(elapsed_ms: u64) -> RelayEvent {
    RelayEvent::ListenEnded { cause: ListenEnd::Expired, elapsed_ms }
}

#[test]
fn directions_have_their_words() {
    assert_eq!(Direction::Sent.label(), "sent");
    assert_eq!(Direction::Received.label(), "received");
}

#[test]
fn a_session_starts_by_connecting() {
    let settings = Settings::default();
    let taken = begin(request("ws://echo", &["a", "b"], Some(1)), &settings);
    assert_eq!(
        taken,
        RelayStep {
            next: RelaySession {
                phase: RelayPhase::Connecting,
                messages: vec!["a".to_string(), "b".to_string()],
                sent: 0,
                transcript: Vec::new(),
                window_secs: 1,
                pause_ms: 100,
            },
            action: RelayAction::Connect { target: url::Url::parse("ws://echo").unwrap() },
        }
    );
}

#[test]
fn the_listen_window_defaults_to_five_seconds() {
    let settings = Settings::default();
    let taken = begin(request("ws://echo", &[], None), &settings);
    assert_eq!(taken.next.window_secs, 5);
    let taken = begin(request("ws://echo", &[], Some(0)), &settings);
    assert_eq!(taken.next.window_secs, 0);
    let mut settings = Settings::default();
    settings.default_listen_secs = 9;
    settings.send_pause_ms = 20;
    let taken = begin(request("ws://echo", &[], None), &settings);
    assert_eq!(taken.next.window_secs, 9);
    assert_eq!(taken.next.pause_ms, 20);
}

#[test]
fn a_bad_url_fails_the_session_at_once() {
    let settings = Settings::default();
    let taken = begin(request("not a url", &["a"], None), &settings);
    assert_eq!(taken.next.phase, RelayPhase::Failed);
    let error = RelayError::InvalidUrl { reason: "relative URL without a base".to_string() };
    assert_eq!(taken.action, RelayAction::Fail { error: error.clone() });
    assert_eq!(error.status_code(), 400);
    assert_eq!(error.message(), "Invalid WebSocket URL: relative URL without a base");

    let taken = begin(request("ws://", &[], None), &settings);
    assert_eq!(
        taken.action,
        RelayAction::Fail { error: RelayError::InvalidUrl { reason: "empty host".to_string() } }
    );
    let taken = step(taken.next, RelayEvent::Connected);
    assert_eq!(taken.action, RelayAction::Ignore);
    assert_eq!(taken.next.phase, RelayPhase::Failed);
}

#[test]
fn begin_with_takes_the_parse_as_given() {
    let settings = Settings::default();
    let parsed = url::Url::parse("wss://echo.example/socket?x=1");
    let taken = begin_with(request("anything", &["a"], None), parsed.clone(), &settings);
    assert_eq!(taken.action, RelayAction::Connect { target: parsed.unwrap() });
    let taken = begin_with(request("ws://echo", &["a"], None), url::Url::parse("ws://[::1"), &settings);
    assert_eq!(
        taken.action,
        RelayAction::Fail {
            error: RelayError::InvalidUrl { reason: "invalid IPv6 address".to_string() },
        }
    );
}

#[test]
fn a_connection_that_cannot_be_made_is_an_internal_error() {
    let settings = Settings::default();
    let begun = begin(request("ws://echo", &["a"], None), &settings);
    let taken = step(begun.next, RelayEvent::ConnectFailed { reason: "refused".to_string() });
    let error = RelayError::ConnectFailure { reason: "refused".to_string() };
    assert_eq!(taken.action, RelayAction::Fail { error: error.clone() });
    assert_eq!(taken.next.phase, RelayPhase::Failed);
    assert_eq!(taken.next.transcript, Vec::new());
    assert_eq!(error.status_code(), 500);
    assert_eq!(error.message(), "WebSocket connection failed: refused");
}

#[test]
fn two_messages_and_a_second_of_listening() {
    let settings = Settings::default();
    let taken = begin(request("ws://echo", &["a", "b"], Some(1)), &settings);
    let mut waited_ms = 0;

    let taken = step(taken.next, RelayEvent::Connected);
    assert_eq!(taken.action, RelayAction::Send { text: "a".to_string() });
    assert_eq!(taken.next.phase, RelayPhase::Sending);

    let taken = step(taken.next, at("t1"));
    assert_eq!(taken.action, RelayAction::Pause { millis: 100 });
    assert_eq!(taken.next.phase, RelayPhase::Pausing);
    assert_eq!(taken.next.sent, 1);
    waited_ms += 100;

    let taken = step(taken.next, RelayEvent::PauseElapsed);
    assert_eq!(taken.action, RelayAction::Send { text: "b".to_string() });

    let taken = step(taken.next, at("t2"));
    assert_eq!(taken.action, RelayAction::Pause { millis: 100 });
    waited_ms += 100;

    let taken = step(taken.next, RelayEvent::PauseElapsed);
    assert_eq!(taken.action, RelayAction::Listen { window_secs: 1 });
    assert_eq!(taken.next.phase, RelayPhase::Listening);
    waited_ms += 1000;

    let taken = step(taken.next, text("a", "t3"));
    assert_eq!(taken.action, RelayAction::KeepListening);
    let taken = step(taken.next, text("b", "t4"));
    assert_eq!(taken.action, RelayAction::KeepListening);

    let taken = step(taken.next, ended(waited_ms + 3));
    assert_eq!(taken.next.phase, RelayPhase::Completed);
    match taken.action {
        RelayAction::Complete { result } => {
            assert_eq!(
                result.messages,
                vec![sent("a", "t1"), sent("b", "t2"), received("a", "t3"), received("b", "t4")]
            );
            assert_eq!(result.status, "completed");
            assert!(result.duration_ms >= 1200);
            assert_eq!(result.duration_ms, 1203);
        }
        other => panic!("expected a result, got {:?}", other),
    }
}

#[test]
fn an_empty_script_goes_straight_to_listening() {
    let settings = Settings::default();
    let begun = begin(request("ws://echo", &[], None), &settings);
    let taken = step(begun.next, RelayEvent::Connected);
    assert_eq!(taken.action, RelayAction::Listen { window_secs: 5 });
    let taken = step(taken.next, RelayEvent::ListenEnded { cause: ListenEnd::Closed, elapsed_ms: 12 });
    assert_eq!(
        taken.action,
        RelayAction::Complete {
            result: WebSocketResponse {
                messages: Vec::new(),
                status: "completed".to_string(),
                duration_ms: 12,
            },
        }
    );
}

#[test]
fn a_failed_send_ends_the_sending_but_not_the_session() {
    let settings = Settings::default();
    let begun = begin(request("ws://echo", &["one", "two", "three"], Some(2)), &settings);
    let taken = step(begun.next, RelayEvent::Connected);
    let taken = step(taken.next, at("t1"));
    let taken = step(taken.next, RelayEvent::PauseElapsed);
    assert_eq!(taken.action, RelayAction::Send { text: "two".to_string() });

    let taken = step(taken.next, RelayEvent::SendFailed);
    assert_eq!(taken.action, RelayAction::Listen { window_secs: 2 });
    assert_eq!(taken.next.phase, RelayPhase::Listening);
    assert_eq!(taken.next.sent, 1);

    let taken = step(taken.next, text("one", "t2"));
    let taken = step(taken.next, RelayEvent::ListenEnded { cause: ListenEnd::Broken, elapsed_ms: 150 });
    assert_eq!(
        taken.action,
        RelayAction::Complete {
            result: WebSocketResponse {
                messages: vec![sent("one", "t1"), received("one", "t2")],
                status: "completed".to_string(),
                duration_ms: 150,
            },
        }
    );
}

#[test]
fn a_failed_first_send_leaves_only_what_is_heard() {
    let settings = Settings::default();
    let begun = begin(request("ws://echo", &["one"], None), &settings);
    let taken = step(begun.next, RelayEvent::Connected);
    let taken = step(taken.next, RelayEvent::SendFailed);
    let taken = step(taken.next, text("hello", "t1"));
    let taken = step(taken.next, ended(5000));
    match taken.action {
        RelayAction::Complete { result } => {
            assert_eq!(result.messages, vec![received("hello", "t1")]);
            assert_eq!(result.status, "completed");
        }
        other => panic!("expected a result, got {:?}", other),
    }
}

#[test]
fn only_text_frames_enter_the_transcript() {
    let settings = Settings::default();
    let begun = begin(request("ws://echo", &[], None), &settings);
    let taken = step(begun.next, RelayEvent::Connected);
    let taken = step(
        taken.next,
        RelayEvent::FrameArrived { frame: Frame::Other, timestamp: "t1".to_string() },
    );
    assert_eq!(taken.action, RelayAction::KeepListening);
    assert_eq!(taken.next.transcript, Vec::new());
    let taken = step(taken.next, text("", "t2"));
    assert_eq!(taken.next.transcript, vec![received("", "t2")]);
}

#[test]
fn every_way_listening_ends_completes_the_session() {
    for cause in [ListenEnd::Closed, ListenEnd::Broken, ListenEnd::Expired] {
        let settings = Settings::default();
        let begun = begin(request("ws://echo", &[], None), &settings);
        let taken = step(begun.next, RelayEvent::Connected);
        let taken = step(taken.next, RelayEvent::ListenEnded { cause, elapsed_ms: 1 });
        assert_eq!(taken.next.phase, RelayPhase::Completed);
        match taken.action {
            RelayAction::Complete { result } => assert_eq!(result.status, "completed"),
            other => panic!("expected a result, got {:?}", other),
        }
    }
}

#[test]
fn relay_events_that_do_not_belong_are_ignored() {
    let settings = Settings::default();
    let begun = begin(request("ws://echo", &["a"], None), &settings);
    let taken = step(begun.next, at("early"));
    assert_eq!(taken.action, RelayAction::Ignore);
    assert_eq!(taken.next.phase, RelayPhase::Connecting);
    assert_eq!(taken.next.transcript, Vec::new());

    let taken = step(taken.next, RelayEvent::Connected);
    let taken = step(taken.next, text("too early", "t"));
    assert_eq!(taken.action, RelayAction::Ignore);
    assert_eq!(taken.next.phase, RelayPhase::Sending);
    let taken = step(taken.next, RelayEvent::PauseElapsed);
    assert_eq!(taken.action, RelayAction::Ignore);

    let taken = step(taken.next, at("t1"));
    let taken = step(taken.next, at("twice"));
    assert_eq!(taken.action, RelayAction::Ignore);
    assert_eq!(taken.next.transcript, vec![sent("a", "t1")]);

    let taken = step(taken.next, RelayEvent::PauseElapsed);
    let taken = step(taken.next, ended(1));
    let taken = step(taken.next, text("late", "t"));
    assert_eq!(taken.action, RelayAction::Ignore);
    assert_eq!(taken.next.phase, RelayPhase::Completed);
}

#[test]
fn a_session_out_of_step_still_does_not_panic() {
    let odd = RelaySession {
        phase: RelayPhase::Sending,
        messages: vec!["a".to_string()],
        sent: 4,
        transcript: Vec::new(),
        window_secs: 3,
        pause_ms: 100,
    };
    let taken = step(odd, at("t"));
    assert_eq!(taken.action, RelayAction::Listen { window_secs: 3 });
}

#[test]
fn sent_entries_always_come_first() {
    let settings = Settings::default();
    let script = ["1", "2", "3", "4"];
    for fail_at in 0..=script.len() {
        let begun = begin(request("ws://echo", &script, None), &settings);
        let mut taken = step(begun.next, RelayEvent::Connected);
        let mut went_out = 0;
        while let RelayAction::Send { .. } = taken.action {
            if went_out == fail_at {
                taken = step(taken.next, RelayEvent::SendFailed);
                break;
            }
            taken = step(taken.next, at("s"));
            went_out += 1;
            taken = step(taken.next, RelayEvent::PauseElapsed);
        }
        assert_eq!(taken.action, RelayAction::Listen { window_secs: 5 });
        taken = step(taken.next, text("x", "r"));
        taken = step(taken.next, text("y", "r"));
        taken = step(taken.next, ended(1));
        match taken.action {
            RelayAction::Complete { result } => {
                assert_eq!(result.messages.len(), went_out + 2);
                for (index, entry) in result.messages.iter().enumerate() {
                    if index < went_out {
                        assert_eq!(entry.direction, Direction::Sent);
                        assert_eq!(entry.content, script[index]);
                    } else {
                        assert_eq!(entry.direction, Direction::Received);
                    }
                }
            }
            other => panic!("expected a result, got {:?}", other),
        }
    }
}
