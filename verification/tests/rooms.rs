use attendance_core::ws::Frame;
use attendance_core::ws::SessionAction;
use attendance_core::ws::SessionIds;
use attendance_core::ws::SessionState;
use attendance_core::ws::WsSession;
use attendance_core::ws::CLIENT_TIMEOUT;
use attendance_core::ws::HEARTBEAT_INTERVAL;
use attendance_core::ws_server::attendance_update_message;
use attendance_core::ws_server::AttendanceServer;
use attendance_core::ws_server::AttendanceUpdate;
use attendance_core::ws_server::Connect;
use attendance_core::ws_server::Disconnect;
use attendance_core::ws_server::ServerMessage;
use attendance_core::ws_server::ServerReply;
use attendance_core::ws_server::WsMessage;

const C1: u128 = 1;

const C2: u128 = 2;

fn recipients(server: &AttendanceServer, course_id: u128) -> Vec<usize> {
    let mut sessions: Vec<usize> =
        server.send_message(course_id, "x").iter().map(|out| out.session_id).collect();
    sessions.sort();
    sessions
}

#[test]
fn a_broadcast_reaches_the_room_and_nobody_else() {
    let mut server = AttendanceServer::new();
    server.connect(Connect { course_id: C1, session_id: 1 });
    server.connect(Connect { course_id: C1, session_id: 2 });
    server.connect(Connect { course_id: C2, session_id: 3 });
    server.connect(Connect { course_id: C1, session_id: 4 });
    let out = server.send_message(C1, "hello");
    assert_eq!(out.len(), 3);
    let mut sessions = out.iter().map(|o| o.session_id).collect::<Vec<_>>();
    sessions.sort();
    assert_eq!(sessions, vec![1, 2, 4]);
    assert!(out.iter().all(|o| o.message.0 == "hello"));
    assert!(out.iter().all(|o| o.session_id != 3));
    assert_eq!(recipients(&server, C2), vec![3]);
}

#[test]
fn a_broadcast_to_a_course_without_room_reaches_nobody() {
    let mut server = AttendanceServer::new();
    assert_eq!(server.send_message(C1, "hello").len(), 0);
    server.connect(Connect { course_id: C2, session_id: 3 });
    assert_eq!(server.send_message(C1, "hello").len(), 0);
}

#[test]
fn joining_makes_the_room_and_leaving_removes_it() {
    let mut server = AttendanceServer::new();
    assert_eq!(server.room_count(), 0);
    server.connect(Connect { course_id: C1, session_id: 1 });
    assert_eq!(server.room_count(), 1);
    assert_eq!(server.room_size(C1), 1);
    server.connect(Connect { course_id: C1, session_id: 2 });
    assert_eq!(server.room_count(), 1);
    assert_eq!(server.room_size(C1), 2);
    server.disconnect(Disconnect { session_id: 1, course_id: C1 });
    assert_eq!(server.room_count(), 1);
    assert_eq!(recipients(&server, C1), vec![2]);
    server.disconnect(Disconnect { session_id: 2, course_id: C1 });
    assert_eq!(server.room_count(), 0);
    assert_eq!(server.room_size(C1), 0);
    assert!(!server.is_member(C1, 2));
}

#[test]
fn joining_twice_is_joining_once() {
    let mut server = AttendanceServer::new();
    server.connect(Connect { course_id: C1, session_id: 1 });
    server.connect(Connect { course_id: C1, session_id: 1 });
    assert_eq!(recipients(&server, C1), vec![1]);
    server.disconnect(Disconnect { session_id: 1, course_id: C1 });
    assert_eq!(server.room_count(), 0);
}

#[test]
fn leaving_a_room_one_is_not_in_changes_nothing() {
    let mut server = AttendanceServer::new();
    server.connect(Connect { course_id: C1, session_id: 1 });
    server.disconnect(Disconnect { session_id: 9, course_id: C1 });
    server.disconnect(Disconnect { session_id: 1, course_id: C2 });
    assert_eq!(recipients(&server, C1), vec![1]);
    assert_eq!(server.room_count(), 1);
}

#[test]
fn rooms_keep_apart() {
    let mut server = AttendanceServer::new();
    server.connect(Connect { course_id: C1, session_id: 1 });
    server.connect(Connect { course_id: C2, session_id: 1 });
    server.connect(Connect { course_id: C2, session_id: 2 });
    server.disconnect(Disconnect { session_id: 1, course_id: C1 });
    assert_eq!(server.room_count(), 1);
    assert_eq!(recipients(&server, C2), vec![1, 2]);
    assert!(server.is_member(C2, 1));
    assert!(!server.is_member(C1, 1));
}

#[test]
fn the_update_is_a_json_object_with_type_and_count() {
    assert_eq!(
        attendance_update_message(3).0,
        "{\"presentCount\":3,\"type\":\"attendance_update\"}"
    );
    assert_eq!(
        attendance_update_message(0).0,
        "{\"presentCount\":0,\"type\":\"attendance_update\"}"
    );
    let parsed: serde_json::Value =
        serde_json::from_str(&attendance_update_message(41).0).unwrap();
    assert_eq!(parsed["type"], "attendance_update");
    assert_eq!(parsed["presentCount"], 41);
}

#[test]
fn an_attendance_update_goes_to_every_dashboard_of_the_course() {
    let mut server = AttendanceServer::new();
    server.connect(Connect { course_id: C1, session_id: 1 });
    server.connect(Connect { course_id: C1, session_id: 2 });
    server.connect(Connect { course_id: C2, session_id: 3 });
    let out = server.attendance_update(AttendanceUpdate { course_id: C1, present_count: 12 });
    assert_eq!(out.len(), 2);
    for delivery in out.iter() {
        assert_eq!(delivery.message.0, "{\"presentCount\":12,\"type\":\"attendance_update\"}");
    }
}

#[test]
fn a_new_session_joins_and_gets_the_count_first() {
    let mut session = WsSession::new(5, C1, 1_000);
    assert_eq!(session.state, SessionState::Connecting);
    let request = session.started();
    assert_eq!(request.course_id, C1);
    assert_eq!(request.session_id, 5);
    match session.connected(Some(7)) {
        SessionAction::Text(text) => {
            assert_eq!(text, "{\"presentCount\":7,\"type\":\"attendance_update\"}")
        },
        _ => panic!("the first update must go out"),
    }
    assert_eq!(session.state, SessionState::Active);
    assert!(matches!(session.connected(Some(9)), SessionAction::Idle));
}

#[test]
fn a_session_stops_when_the_registry_is_gone() {
    let mut session = WsSession::new(5, C1, 1_000);
    assert!(matches!(session.connected(None), SessionAction::Stop));
    assert_eq!(session.state, SessionState::Disconnected);
}

#[test]
fn a_silent_client_is_evicted_and_no_longer_reached() {
    let mut server = AttendanceServer::new();
    let mut quiet = WsSession::new(1, C1, 0);
    let mut lively = WsSession::new(2, C1, 0);
    server.connect(quiet.started());
    server.connect(lively.started());
    quiet.connected(Some(0));
    lively.connected(Some(0));
    // The quiet client answers once, 100 ms after its first ping, and never again.
    let last_sign_of_life = HEARTBEAT_INTERVAL + 100;
    let mut now = 0;
    let mut evicted_at = None;
    while now <= 60_000 && evicted_at.is_none() {
        now = quiet.next_check(now);
        match lively.heartbeat(now) {
            SessionAction::Ping => {
                lively.handle(Frame::Pong(Vec::new()), now);
            },
            _ => panic!("a client that answers stays"),
        }
        match quiet.heartbeat(now) {
            SessionAction::Ping => {
                if now == HEARTBEAT_INTERVAL {
                    quiet.handle(Frame::Pong(Vec::new()), last_sign_of_life);
                }
            },
            SessionAction::Leave(notice) => {
                server.disconnect(notice);
                evicted_at = Some(now);
            },
            _ => panic!("a joined session is pinged or evicted"),
        }
    }
    assert_eq!(evicted_at, Some(last_sign_of_life + CLIENT_TIMEOUT));
    assert_eq!(quiet.state, SessionState::Disconnected);
    assert_eq!(lively.state, SessionState::Active);
    assert_eq!(recipients(&server, C1), vec![2]);
    assert!(matches!(quiet.heartbeat(now + HEARTBEAT_INTERVAL), SessionAction::Idle));
    assert!(matches!(quiet.deliver(WsMessage("late".to_string())), SessionAction::Idle));
}

#[test]
fn a_client_is_gone_when_the_timeout_runs_out() {
    let mut session = WsSession::new(1, C1, 0);
    session.connected(Some(0));
    assert!(!session.is_timed_out(CLIENT_TIMEOUT - 1));
    assert!(session.is_timed_out(CLIENT_TIMEOUT));
    assert!(session.is_timed_out(CLIENT_TIMEOUT + 1));
    assert!(matches!(session.heartbeat(CLIENT_TIMEOUT - 1), SessionAction::Ping));
    assert_eq!(session.state, SessionState::Idle);
    match session.heartbeat(CLIENT_TIMEOUT) {
        SessionAction::Leave(notice) => {
            assert_eq!(notice.session_id, 1);
            assert_eq!(notice.course_id, C1);
        },
        _ => panic!("a client that was silent for the whole timeout must leave"),
    }
    assert_eq!(session.state, SessionState::Disconnected);
    let mut far = WsSession::new(1, C1, i64::MIN);
    far.connected(Some(0));
    assert!(far.is_timed_out(i64::MAX));
}

#[test]
fn the_next_check_comes_after_one_interval_or_at_the_deadline() {
    let mut session = WsSession::new(1, C1, 0);
    assert_eq!(session.next_check(0), HEARTBEAT_INTERVAL);
    assert_eq!(session.next_check(7_000), 7_000 + HEARTBEAT_INTERVAL);
    session.connected(Some(0));
    assert_eq!(session.next_check(0), 5_000);
    assert_eq!(session.next_check(5_000), 10_000);
    assert_eq!(session.next_check(4_999), 9_999);
    assert_eq!(session.next_check(5_001), 10_000);
    assert_eq!(session.next_check(7_000), 10_000);
    assert_eq!(session.next_check(12_000), 10_000);
    session.handle(Frame::Pong(Vec::new()), 7_000);
    assert_eq!(session.next_check(7_000), 12_000);
    assert_eq!(session.next_check(13_000), 17_000);
    let late = WsSession::new(1, C1, i64::MAX);
    assert_eq!(late.next_check(i64::MAX), i64::MAX);
    let mut old = WsSession::new(1, C1, i64::MIN);
    old.connected(Some(0));
    assert_eq!(old.next_check(i64::MIN), i64::MIN + HEARTBEAT_INTERVAL);
    assert_eq!(old.next_check(0), i64::MIN + CLIENT_TIMEOUT);
    let mut gone = WsSession::new(1, C1, 0);
    gone.connected(None);
    assert_eq!(gone.next_check(20_000), 25_000);
}

#[test]
fn checks_that_follow_each_other_reach_the_deadline() {
    for first in [0i64, 1, 4_999, 5_000, 9_999, 10_000] {
        let mut session = WsSession::new(1, C1, 0);
        session.connected(Some(0));
        let mut now = first;
        let mut checks = 0;
        loop {
            match session.heartbeat(now) {
                SessionAction::Ping => {
                    assert!(now < CLIENT_TIMEOUT);
                    now = session.next_check(now);
                    checks += 1;
                },
                SessionAction::Leave(_) => break,
                _ => panic!("a joined session is pinged or evicted"),
            }
        }
        assert_eq!(now, CLIENT_TIMEOUT);
        assert!(checks <= 2);
    }
}

#[test]
fn the_registry_takes_messages() {
    let mut server = AttendanceServer::new();
    match server.handle(ServerMessage::Connect(Connect { course_id: C1, session_id: 1 })) {
        ServerReply::Joined(membership) => {
            assert_eq!(membership.course_id, C1);
            assert_eq!(membership.session_id, 1);
        },
        _ => panic!("a connect is answered with the membership"),
    }
    server.handle(ServerMessage::Connect(Connect { course_id: C1, session_id: 2 }));
    server.handle(ServerMessage::Connect(Connect { course_id: C2, session_id: 3 }));
    let update = AttendanceUpdate { course_id: C1, present_count: 5 };
    match server.handle(ServerMessage::AttendanceUpdate(update)) {
        ServerReply::Deliver(out) => {
            let mut sessions = out.iter().map(|o| o.session_id).collect::<Vec<_>>();
            sessions.sort();
            assert_eq!(sessions, vec![1, 2]);
            assert!(out.iter().all(|o| o.message.0
                == "{\"presentCount\":5,\"type\":\"attendance_update\"}"));
        },
        _ => panic!("an update is answered with the deliveries"),
    }
    let notice = Disconnect { session_id: 1, course_id: C1 };
    assert!(matches!(server.handle(ServerMessage::Disconnect(notice)), ServerReply::Left));
    assert_eq!(recipients(&server, C1), vec![2]);
    assert_eq!(recipients(&server, C2), vec![3]);
}

#[test]
fn joining_hands_out_the_membership_with_which_to_leave() {
    let mut server = AttendanceServer::new();
    let first = server.connect(Connect { course_id: C1, session_id: 1 });
    let second = server.connect(Connect { course_id: C1, session_id: 2 });
    let again = server.connect(Connect { course_id: C1, session_id: 2 });
    assert_eq!((first.course_id, first.session_id), (C1, 1));
    assert_eq!((again.course_id, again.session_id), (C1, 2));
    server.disconnect(second);
    assert_eq!(recipients(&server, C1), vec![1]);
    server.disconnect(first);
    assert_eq!(server.room_count(), 0);
}

#[test]
fn frames_are_signs_of_life_or_endings() {
    let mut session = WsSession::new(1, C1, 0);
    session.connected(Some(0));
    session.heartbeat(5_000);
    assert_eq!(session.state, SessionState::Idle);
    match session.handle(Frame::Ping(vec![1, 2, 3]), 6_000) {
        SessionAction::Pong(payload) => assert_eq!(payload, vec![1, 2, 3]),
        _ => panic!("a ping is answered with a pong"),
    }
    assert_eq!(session.hb, 6_000);
    assert_eq!(session.state, SessionState::Active);
    assert!(matches!(session.handle(Frame::Text("hi".to_string()), 7_000), SessionAction::Idle));
    assert!(matches!(session.handle(Frame::Binary(vec![0]), 7_000), SessionAction::Idle));
    assert!(matches!(session.handle(Frame::Continuation, 7_000), SessionAction::Idle));
    assert!(matches!(session.handle(Frame::Nop, 7_000), SessionAction::Idle));
    assert_eq!(session.hb, 6_000);
    assert!(matches!(session.handle(Frame::Pong(Vec::new()), 8_000), SessionAction::Idle));
    assert_eq!(session.hb, 8_000);
    assert!(matches!(session.handle(Frame::Close(None), 9_000), SessionAction::Close(None)));
    assert_eq!(session.state, SessionState::Disconnected);
    assert!(matches!(session.handle(Frame::Ping(Vec::new()), 9_500), SessionAction::Idle));
    assert_eq!(session.hb, 8_000);
}

#[test]
fn a_protocol_error_stops_the_session() {
    let mut session = WsSession::new(1, C1, 0);
    session.connected(Some(0));
    assert!(matches!(session.handle(Frame::ProtocolError, 10), SessionAction::Stop));
    assert_eq!(session.state, SessionState::Disconnected);
    let notice = session.stopping();
    assert_eq!(notice.session_id, 1);
    assert_eq!(notice.course_id, C1);
}

#[test]
fn a_joined_session_hands_broadcasts_on() {
    let mut session = WsSession::new(1, C1, 0);
    assert!(matches!(session.deliver(WsMessage("early".to_string())), SessionAction::Idle));
    session.connected(Some(0));
    match session.deliver(WsMessage("now".to_string())) {
        SessionAction::Text(text) => assert_eq!(text, "now"),
        _ => panic!("a joined session sends the text"),
    }
}

#[test]
fn session_numbers_count_up_from_one() {
    let mut ids = SessionIds::new();
    assert_eq!(ids.next_id(), 1);
    assert_eq!(ids.next_id(), 2);
    assert_eq!(ids.next_id(), 3);
    let mut other = SessionIds::new();
    assert_eq!(other.next_id(), 1);
}
