use rddm_realtime::errors::WebSocketError;
use rddm_realtime::frames::{error_frame, push_json_escaped};
use rddm_realtime::models::{HistoryQuery, UpdateProject};
use rddm_realtime::pump::{
    on_inbound, on_outbound, ConnectionPump, InboundAction, InboundFrame, OutboundAction,
    OutboundEvent, Phase, PumpAction, PumpEvent, PumpTask, SEND_TIMEOUT_SECS,
};

#[test]
fn malformed_frame_gets_one_error_reply_and_connection_reads_on() {
    let first = on_inbound(InboundFrame::Malformed("expected value at line 1 column 1".to_string()));
    match first {
        InboundAction::ReplyText(t) => assert_eq!(
            t,
            "{\"error\": \"Invalid message format: expected value at line 1 column 1\"}"
        ),
        _ => panic!("a malformed frame is answered with an error frame"),
    }
    let mut pump = ConnectionPump::new();
    pump.step(PumpEvent::TasksSpawned);
    assert_eq!(pump.phase, Phase::Established);
    let second = on_inbound(InboundFrame::Parsed(rddm_realtime::envelope::WebSocketMessage::ElementDelete {
        id: "e1".to_string(),
        project_id: "p".to_string(),
        timestamp: "t".to_string(),
        user_id: "u".to_string(),
    }));
    assert!(matches!(second, InboundAction::Publish(_)));
    assert_eq!(pump.phase, Phase::Established);
}

#[test]
fn error_frame_escapes_quotes_backslashes_and_controls() {
    assert_eq!(
        error_frame("unknown variant `X`, \"a\\b\"\n\u{1}"),
        "{\"error\": \"Invalid message format: unknown variant `X`, \\\"a\\\\b\\\"\\n\\u0001\"}"
    );
    let mut out = String::from("<");
    push_json_escaped(&mut out, "é\t\u{1f}");
    assert_eq!(out, "<é\\t\\u001f");
}

#[test]
fn ping_is_answered_with_same_bytes_and_close_stops() {
    match on_inbound(InboundFrame::Ping(vec![1, 2, 3])) {
        InboundAction::ReplyPong(b) => assert_eq!(b, vec![1, 2, 3]),
        _ => panic!("ping gets a pong"),
    }
    assert!(matches!(on_inbound(InboundFrame::Close), InboundAction::Stop));
    assert!(matches!(on_inbound(InboundFrame::ReadFailed), InboundAction::Stop));
    assert!(matches!(on_inbound(InboundFrame::Pong), InboundAction::Ignore));
    assert!(matches!(on_inbound(InboundFrame::Binary), InboundAction::Ignore));
}

#[test]
fn outbound_rules() {
    match on_outbound(OutboundEvent::Serialized("{}".to_string())) {
        OutboundAction::Write(t) => assert_eq!(t, "{}"),
        _ => panic!("serialized text is written"),
    }
    assert!(matches!(on_outbound(OutboundEvent::SerializeFailed), OutboundAction::Continue));
    assert!(matches!(on_outbound(OutboundEvent::Lagged(3)), OutboundAction::Continue));
    assert!(matches!(on_outbound(OutboundEvent::Written), OutboundAction::Continue));
    assert!(matches!(on_outbound(OutboundEvent::ChannelClosed), OutboundAction::Stop));
    assert!(matches!(on_outbound(OutboundEvent::WriteFailed), OutboundAction::Stop));
    assert!(matches!(on_outbound(OutboundEvent::TimedOut), OutboundAction::Stop));
    assert_eq!(SEND_TIMEOUT_SECS, 5);
}

#[test]
fn pump_tears_down_when_either_task_ends() {
    for (ended, cancelled) in [
        (PumpTask::Inbound, PumpTask::Outbound),
        (PumpTask::Outbound, PumpTask::Inbound),
    ] {
        let mut pump = ConnectionPump::new();
        assert_eq!(pump.phase, Phase::Connecting);
        assert_eq!(pump.step(PumpEvent::AbortSent), PumpAction::Nothing);
        assert_eq!(pump.phase, Phase::Connecting);
        assert_eq!(pump.step(PumpEvent::TasksSpawned), PumpAction::Nothing);
        assert_eq!(pump.step(PumpEvent::TaskEnded(ended)), PumpAction::Abort(cancelled));
        assert_eq!(pump.phase, Phase::Draining);
        assert_eq!(pump.step(PumpEvent::TaskEnded(cancelled)), PumpAction::Nothing);
        assert_eq!(pump.step(PumpEvent::AbortSent), PumpAction::Release);
        assert_eq!(pump.phase, Phase::Terminated);
        assert_eq!(pump.step(PumpEvent::TasksSpawned), PumpAction::Nothing);
        assert_eq!(pump.phase, Phase::Terminated);
    }
}

#[test]
fn error_messages() {
    assert_eq!(WebSocketError::ParseError("bad".to_string()).message(), "Failed to parse message: bad");
    assert_eq!(WebSocketError::SendError("gone".to_string()).message(), "Failed to send message: gone");
    assert_eq!(WebSocketError::Timeout.message(), "Connection timeout");
    assert_eq!(WebSocketError::Closed.message(), "Connection closed");
}

#[test]
fn history_limit_defaults_to_one_hundred() {
    assert_eq!(HistoryQuery { element_id: None, limit: None }.effective_limit(), 100);
    assert_eq!(HistoryQuery { element_id: Some("e".to_string()), limit: Some(7) }.effective_limit(), 7);
}

#[test]
fn project_update_replaces_present_fields_only() {
    let u = UpdateProject { name: Some("new".to_string()), description: None };
    assert_eq!(u.apply("old".to_string(), Some("d".to_string())), ("new".to_string(), Some("d".to_string())));
    let u = UpdateProject { name: None, description: Some("x".to_string()) };
    assert_eq!(u.apply("old".to_string(), None), ("old".to_string(), Some("x".to_string())));
}
