use quiver::auth::ConnectionGuard;
use quiver::codec::{encode_device_info, Verdict};
use quiver::server::{
    CloseReason, ServerAction, ServerEvent, ServerPhase, ServerSession, ServerStep,
    IDLE_TIMEOUT_SECS, KEEP_ALIVE_SECS,
};
use quiver::types::{AccountInformation, DeviceInfo};
use uuid::Uuid;

#[derive(Debug, PartialEq)]
struct Guard(u32);

impl ConnectionGuard for Guard {}

fn account(n: u128) -> AccountInformation {
    AccountInformation { user_uuid: Uuid::from_u128(n) }
}

fn small_device() -> DeviceInfo {
    DeviceInfo { os: "Linux".to_string(), cpu_model: "Zen4".to_string(), ram_capacity_gb: 64 }
}

fn authenticated_session(guard: u32) -> ServerSession<Guard> {
    let mut s = ServerSession::<Guard>::new();
    assert!(matches!(s.on_event(ServerEvent::StreamOpened), ServerAction::Read { limit: 50 }));
    assert!(matches!(
        s.on_event(ServerEvent::Received(b"secret".to_vec())),
        ServerAction::Authenticate { .. }
    ));
    assert!(matches!(
        s.on_event(ServerEvent::AuthAccepted(account(7), Guard(guard))),
        ServerAction::Reply { verdict: Verdict::Authenticated }
    ));
    s
}

fn active_session(guard: u32) -> ServerSession<Guard> {
    let mut s = authenticated_session(guard);
    assert!(matches!(s.on_event(ServerEvent::Sent), ServerAction::AcceptStream));
    assert!(matches!(s.on_event(ServerEvent::StreamOpened), ServerAction::Read { limit: 50 }));
    let payload = encode_device_info(&small_device()).unwrap();
    assert!(matches!(
        s.on_event(ServerEvent::Received(payload)),
        ServerAction::RecordDevice { .. }
    ));
    assert!(matches!(
        s.on_event(ServerEvent::DeviceAccepted),
        ServerAction::Reply { verdict: Verdict::Accepted }
    ));
    assert!(matches!(s.on_event(ServerEvent::Sent), ServerAction::StartWork { .. }));
    s
}

#[test]
fn a_new_session_awaits_authentication() {
    let (started, first) = ServerSession::<Guard>::start();
    assert!(matches!(first, ServerAction::AcceptStream));
    assert_eq!(started.step(), ServerStep::AuthAccept);
    let s = ServerSession::<Guard>::new();
    assert_eq!(s.step(), ServerStep::AuthAccept);
    assert_eq!(s.phase(), ServerPhase::AwaitingAuth);
    assert!(!s.holds_guard());
}

#[test]
fn accepted_handshake_reaches_active() {
    let mut s = ServerSession::<Guard>::new();
    assert!(matches!(s.on_event(ServerEvent::StreamOpened), ServerAction::Read { limit: 50 }));
    assert_eq!(s.phase(), ServerPhase::AwaitingAuth);
    match s.on_event(ServerEvent::Received(b"nock_1234567890abcdef".to_vec())) {
        ServerAction::Authenticate { credential } => assert_eq!(credential, "nock_1234567890abcdef"),
        _ => panic!("expected the credential to go to the authenticator"),
    }
    assert!(!s.holds_guard());
    assert!(matches!(
        s.on_event(ServerEvent::AuthAccepted(account(1), Guard(11))),
        ServerAction::Reply { verdict: Verdict::Authenticated }
    ));
    assert!(s.holds_guard());
    assert_eq!(s.phase(), ServerPhase::AwaitingAuth);
    assert!(matches!(s.on_event(ServerEvent::Sent), ServerAction::AcceptStream));
    assert_eq!(s.phase(), ServerPhase::AwaitingDeviceInfo);
    assert!(matches!(s.on_event(ServerEvent::StreamOpened), ServerAction::Read { limit: 50 }));
    let payload = encode_device_info(&small_device()).unwrap();
    match s.on_event(ServerEvent::Received(payload)) {
        ServerAction::RecordDevice { device, credential } => {
            assert_eq!(device.os, "Linux");
            assert_eq!(device.cpu_model, "Zen4");
            assert_eq!(device.ram_capacity_gb, 64);
            assert_eq!(credential, "nock_1234567890abcdef");
        },
        _ => panic!("expected the descriptor to go to the registry"),
    }
    assert!(matches!(
        s.on_event(ServerEvent::DeviceAccepted),
        ServerAction::Reply { verdict: Verdict::Accepted }
    ));
    assert_eq!(s.phase(), ServerPhase::AwaitingDeviceInfo);
    match s.on_event(ServerEvent::Sent) {
        ServerAction::StartWork { account: Some(a) } => {
            assert_eq!(a.user_uuid, Uuid::from_u128(1))
        },
        _ => panic!("expected work to start"),
    }
    assert_eq!(s.phase(), ServerPhase::Active);
    assert_eq!(s.step(), ServerStep::Working);
    assert!(s.holds_guard());
}

#[test]
fn invalid_credential_is_rejected_without_device_exchange() {
    let mut s = ServerSession::<Guard>::new();
    s.on_event(ServerEvent::StreamOpened);
    assert!(matches!(
        s.on_event(ServerEvent::Received(b"wrong".to_vec())),
        ServerAction::Authenticate { .. }
    ));
    assert!(matches!(
        s.on_event(ServerEvent::AuthRejected),
        ServerAction::Reply { verdict: Verdict::Rejected }
    ));
    assert!(!s.holds_guard());
    match s.on_event(ServerEvent::Sent) {
        ServerAction::Close { reason, release, stray } => {
            assert_eq!(reason, CloseReason::AuthenticationFailed);
            assert_eq!(release, None);
            assert_eq!(stray, None);
        },
        _ => panic!("expected the session to close"),
    }
    assert_eq!(s.phase(), ServerPhase::Closed);
    assert!(matches!(s.on_event(ServerEvent::StreamOpened), ServerAction::Nothing));
    assert!(matches!(s.on_event(ServerEvent::Received(vec![1])), ServerAction::Nothing));
    assert!(matches!(s.on_event(ServerEvent::DeviceAccepted), ServerAction::Nothing));
    assert!(matches!(s.on_event(ServerEvent::Sent), ServerAction::Nothing));
    assert_eq!(s.phase(), ServerPhase::Closed);
    assert!(!s.holds_guard());
}

#[test]
fn rejection_is_the_same_on_every_connection() {
    for _ in 0..2 {
        let mut s = ServerSession::<Guard>::new();
        s.on_event(ServerEvent::StreamOpened);
        s.on_event(ServerEvent::Received(b"wrong".to_vec()));
        assert!(matches!(
            s.on_event(ServerEvent::AuthRejected),
            ServerAction::Reply { verdict: Verdict::Rejected }
        ));
        assert!(!s.holds_guard());
        assert!(matches!(
            s.on_event(ServerEvent::Sent),
            ServerAction::Close { reason: CloseReason::AuthenticationFailed, release: None, stray: None }
        ));
    }
}

#[test]
fn peer_leaving_before_auth_closes_the_session() {
    let mut s = ServerSession::<Guard>::new();
    assert!(matches!(
        s.on_event(ServerEvent::StreamFailed),
        ServerAction::Close { reason: CloseReason::ClosedBeforeAuth, release: None, stray: None }
    ));
    assert_eq!(s.step(), ServerStep::Closed);
}

#[test]
fn credential_that_is_not_utf8_closes_the_session() {
    let mut s = ServerSession::<Guard>::new();
    s.on_event(ServerEvent::StreamOpened);
    assert!(matches!(
        s.on_event(ServerEvent::Received(vec![0xff, 0xfe])),
        ServerAction::Close { reason: CloseReason::InvalidCredential, release: None, stray: None }
    ));
}

#[test]
fn credential_over_the_limit_closes_the_session() {
    let mut s = ServerSession::<Guard>::new();
    s.on_event(ServerEvent::StreamOpened);
    assert!(matches!(
        s.on_event(ServerEvent::Received(vec![b'a'; 51])),
        ServerAction::Close { reason: CloseReason::ReadFailed, .. }
    ));
    let mut s = ServerSession::<Guard>::new();
    s.on_event(ServerEvent::StreamOpened);
    assert!(matches!(
        s.on_event(ServerEvent::Received(vec![b'a'; 50])),
        ServerAction::Authenticate { .. }
    ));
}

#[test]
fn failed_read_closes_the_session() {
    let mut s = ServerSession::<Guard>::new();
    s.on_event(ServerEvent::StreamOpened);
    assert!(matches!(
        s.on_event(ServerEvent::ReceiveFailed),
        ServerAction::Close { reason: CloseReason::ReadFailed, release: None, stray: None }
    ));
}

#[test]
fn failure_to_confirm_releases_the_guard() {
    let mut s = authenticated_session(5);
    match s.on_event(ServerEvent::SendFailed) {
        ServerAction::Close { reason, release, stray } => {
            assert_eq!(reason, CloseReason::WriteFailed);
            assert_eq!(release, Some(Guard(5)));
            assert_eq!(stray, None);
        },
        _ => panic!("expected the session to close"),
    }
    assert!(!s.holds_guard());
}

#[test]
fn peer_leaving_before_device_info_releases_the_guard() {
    let mut s = authenticated_session(6);
    s.on_event(ServerEvent::Sent);
    assert!(matches!(
        s.on_event(ServerEvent::StreamFailed),
        ServerAction::Close {
            reason: CloseReason::ClosedBeforeDeviceInfo,
            release: Some(Guard(6)),
            stray: None
        }
    ));
}

#[test]
fn malformed_device_info_releases_the_guard() {
    let mut s = authenticated_session(8);
    s.on_event(ServerEvent::Sent);
    s.on_event(ServerEvent::StreamOpened);
    assert!(matches!(
        s.on_event(ServerEvent::Received(vec![1, 2, 3])),
        ServerAction::Close {
            reason: CloseReason::MalformedDeviceInfo,
            release: Some(Guard(8)),
            stray: None
        }
    ));
}

#[test]
fn rejected_device_info_releases_the_guard() {
    let mut s = authenticated_session(9);
    s.on_event(ServerEvent::Sent);
    s.on_event(ServerEvent::StreamOpened);
    s.on_event(ServerEvent::Received(encode_device_info(&small_device()).unwrap()));
    assert!(matches!(
        s.on_event(ServerEvent::DeviceRejected),
        ServerAction::Reply { verdict: Verdict::Rejected }
    ));
    assert!(s.holds_guard());
    assert!(matches!(
        s.on_event(ServerEvent::Sent),
        ServerAction::Close {
            reason: CloseReason::DeviceInfoRejected,
            release: Some(Guard(9)),
            stray: None
        }
    ));
    assert!(!s.holds_guard());
}

#[test]
fn end_of_connection_releases_the_guard_once() {
    let mut s = active_session(3);
    assert!(matches!(
        s.on_event(ServerEvent::ConnectionLost),
        ServerAction::Close {
            reason: CloseReason::ConnectionEnded,
            release: Some(Guard(3)),
            stray: None
        }
    ));
    assert!(matches!(s.on_event(ServerEvent::ConnectionLost), ServerAction::Nothing));
    assert!(!s.holds_guard());
}

#[test]
fn out_of_order_event_closes_the_session() {
    let mut s = ServerSession::<Guard>::new();
    assert!(matches!(
        s.on_event(ServerEvent::Received(b"key".to_vec())),
        ServerAction::Close { reason: CloseReason::OutOfOrder, release: None, stray: None }
    ));
    let mut s = active_session(4);
    assert!(matches!(
        s.on_event(ServerEvent::StreamOpened),
        ServerAction::Close { reason: CloseReason::OutOfOrder, release: Some(Guard(4)), stray: None }
    ));
}

#[test]
fn a_guard_that_arrives_unasked_is_handed_back() {
    let mut s = ServerSession::<Guard>::new();
    assert!(matches!(
        s.on_event(ServerEvent::AuthAccepted(account(1), Guard(1))),
        ServerAction::Close { reason: CloseReason::OutOfOrder, release: None, stray: Some(Guard(1)) }
    ));
    assert!(matches!(
        s.on_event(ServerEvent::AuthAccepted(account(2), Guard(2))),
        ServerAction::Close { reason: CloseReason::OutOfOrder, release: None, stray: Some(Guard(2)) }
    ));
    let mut s = active_session(10);
    assert!(matches!(
        s.on_event(ServerEvent::AuthAccepted(account(3), Guard(30))),
        ServerAction::Close {
            reason: CloseReason::OutOfOrder,
            release: Some(Guard(10)),
            stray: Some(Guard(30))
        }
    ));
}

#[test]
fn keep_alive_is_shorter_than_the_idle_timeout() {
    assert_eq!(KEEP_ALIVE_SECS, 2);
    assert_eq!(IDLE_TIMEOUT_SECS, 5);
    assert!(KEEP_ALIVE_SECS < IDLE_TIMEOUT_SECS);
}
