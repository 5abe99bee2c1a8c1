use city_chat_bot::session::{
    CloseReason, Heartbeat, WsAction, WsChatSession, WsMessage, CLIENT_TIMEOUT_NANOS,
    HEARTBEAT_INTERVAL_NANOS,
};

const SECOND: u128 = 1_000_000_000;

#[test]
fn intervals() {
    assert_eq!(HEARTBEAT_INTERVAL_NANOS, 5 * SECOND);
    assert_eq!(CLIENT_TIMEOUT_NANOS, 10 * SECOND);
}

#[test]
fn silent_client_is_disconnected() {
    let s = WsChatSession::new(3 * SECOND);
    assert_eq!(s.heartbeat(0), Heartbeat::Ping);
    assert_eq!(s.heartbeat(8 * SECOND), Heartbeat::Ping);
    assert_eq!(s.heartbeat(13 * SECOND), Heartbeat::Ping);
    assert_eq!(s.heartbeat(13 * SECOND + 1), Heartbeat::Disconnect);
    assert_eq!(s.heartbeat(18 * SECOND), Heartbeat::Disconnect);
    assert_eq!(s.heartbeat(u128::MAX), Heartbeat::Disconnect);
}

#[test]
fn answering_client_stays() {
    let mut s = WsChatSession::new(0);
    for k in 1..1000u128 {
        assert_eq!(s.heartbeat(k * HEARTBEAT_INTERVAL_NANOS), Heartbeat::Ping);
        s.handle(WsMessage::Pong, k * HEARTBEAT_INTERVAL_NANOS + SECOND);
    }
}

#[test]
fn what_is_done_about_messages() {
    let mut s = WsChatSession::new(0);
    assert_eq!(s.handle(WsMessage::Ping(vec![1, 2]), 1), WsAction::Pong(vec![1, 2]));
    assert_eq!(s.hb, 1);
    assert_eq!(s.handle(WsMessage::Pong, 2), WsAction::Nothing);
    assert_eq!(s.hb, 2);
    assert_eq!(
        s.handle(WsMessage::Text("hi".to_string()), 3),
        WsAction::Respond("hi".to_string())
    );
    assert_eq!(s.hb, 3);
    assert_eq!(s.handle(WsMessage::Binary(vec![7]), 4), WsAction::Binary(vec![7]));
    assert_eq!(s.hb, 3);
    let reason = || Some(CloseReason { code: 1000, description: Some("bye".to_string()) });
    assert_eq!(s.handle(WsMessage::Close(reason()), 5), WsAction::Close(reason()));
    assert_eq!(s.handle(WsMessage::Close(None), 5), WsAction::Close(None));
    assert_eq!(s.handle(WsMessage::Other, 6), WsAction::Stop);
    assert_eq!(s.hb, 3);
}

#[test]
fn binary_messages_are_no_sign_of_life() {
    let mut s = WsChatSession::new(0);
    s.handle(WsMessage::Binary(vec![]), 9 * SECOND);
    assert_eq!(s.heartbeat(11 * SECOND), Heartbeat::Disconnect);
    s.handle(WsMessage::Text(String::new()), 11 * SECOND);
    assert_eq!(s.heartbeat(11 * SECOND), Heartbeat::Ping);
}
