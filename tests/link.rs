use sekshibot::chain::ApiMessage;
use sekshibot::link::{
    encode_outbound, is_heartbeat, LinkState, PollAction, Polled, ReadAction, SocketRead,
};

#[test]
fn chat_frame_is_escaped_json() {
    let frame = encode_outbound(&ApiMessage::SendChat("say \"hi\"\n".to_string()));
    assert_eq!(frame, "{\"command\":\"sendChat\",\"data\":\"say \\\"hi\\\"\\n\"}");
}

#[test]
fn logout_frame() {
    assert_eq!(encode_outbound(&ApiMessage::Exit), "{\"command\":\"logout\"}");
}

#[test]
fn heartbeat_is_recognised() {
    assert!(is_heartbeat("-"));
    assert!(!is_heartbeat("--"));
    assert!(!is_heartbeat(""));
}

#[test]
fn reads_while_connected() {
    let s = LinkState::Connected;
    assert_eq!(s.on_read(SocketRead::Text("-".to_string())), (s, ReadAction::ReadMore));
    assert_eq!(
        s.on_read(SocketRead::Text("{}".to_string())),
        (s, ReadAction::Decode("{}".to_string()))
    );
    assert_eq!(s.on_read(SocketRead::OtherFrame), (s, ReadAction::ReadMore));
    assert_eq!(s.on_read(SocketRead::WouldBlock), (s, ReadAction::Poll));
    assert_eq!(s.on_read(SocketRead::Close), (s, ReadAction::Poll));
    assert_eq!(s.on_read(SocketRead::PeerClosed), (LinkState::Closed, ReadAction::Stop));
}

#[test]
fn polls_while_connected() {
    let s = LinkState::Connected;
    assert_eq!(s.on_poll(Polled::Timeout), (s, PollAction::ReadAgain));
    assert_eq!(
        s.on_poll(Polled::Message(ApiMessage::SendChat("x".to_string()))),
        (s, PollAction::Write("{\"command\":\"sendChat\",\"data\":\"x\"}".to_string()))
    );
    let logout = PollAction::LogoutAndClose("{\"command\":\"logout\"}".to_string());
    assert_eq!(s.on_poll(Polled::Message(ApiMessage::Exit)), (LinkState::Draining, logout.clone()));
    assert_eq!(s.on_poll(Polled::Disconnected), (LinkState::Draining, logout));
}

#[test]
fn shutdown_drains_then_closes() {
    let (s, frame) = LinkState::Connected.on_shutdown();
    assert_eq!(s, LinkState::Draining);
    assert_eq!(frame.as_deref(), Some("{\"command\":\"logout\"}"));
    assert!(s.is_open());
    assert_eq!(s.on_shutdown(), (LinkState::Draining, None));
    let closed = s.on_drained();
    assert_eq!(closed, LinkState::Closed);
    assert!(!closed.is_open());
    assert_eq!(LinkState::Connected.on_drained(), LinkState::Connected);
}

#[test]
fn chat_frame_escapes_control_characters() {
    let frame = encode_outbound(&ApiMessage::SendChat("\u{1}\u{1f}\u{8}\u{c}\r\t/\\é".to_string()));
    assert_eq!(
        frame,
        "{\"command\":\"sendChat\",\"data\":\"\\u0001\\u001f\\b\\f\\r\\t/\\\\é\"}"
    );
}
