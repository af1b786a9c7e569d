use socks_proxy::error::MyError;
use socks_proxy::handler::{Action, ConnectError, Event, Handler, Next, Phase};
use socks_proxy::parse::{socks5_auth_request, socks5_connection_request, socks_init, Parsed};
use socks_proxy::server::{choose_method, Args, Message, Server, Session, User};
use socks_proxy::socks::{
    Address, Destination, IpAddress, SOCKS5AuthMethod, SOCKS5AuthRequest, SOCKS5AuthReply,
    SOCKS5ConnectReply, SocketAddress,
};
use socks_proxy::wire::{encode_reply, Reply};

fn v4(a: u8, b: u8, c: u8, d: u8, port: u16) -> SocketAddress {
    SocketAddress { ip: IpAddress::V4([a, b, c, d]), port }
}

fn dest(a: u8, b: u8, c: u8, d: u8, port: u16) -> Destination {
    Destination { addr: Address::IP(IpAddress::V4([a, b, c, d])), port }
}

fn session(client_port: u16, d: Destination) -> Session {
    Session::new(
        v4(10, 0, 0, 9, client_port),
        v4(10, 0, 0, 1, 1080),
        v4(192, 168, 7, 3, 50000),
        v4(1, 2, 3, 4, 22),
        d,
    )
}

fn args(auth: bool, users: Option<Vec<User>>) -> Args {
    Args { ip: IpAddress::V4([0, 0, 0, 0]), port: 8080, socks4: true, socks5: true, auth, users }
}

fn alice() -> User {
    User { user: "alice".to_string(), pass: "secret".to_string() }
}

fn sent(a: &Action) -> Vec<u8> {
    match &a.reply {
        Some(r) => encode_reply(r).to_vec(),
        None => Vec::new(),
    }
}

fn parsed<T: std::fmt::Debug>(p: Parsed<T>) -> T {
    match p {
        Parsed::Done(t) => t,
        other => panic!("expected a frame, got {:?}", other),
    }
}

#[test]
fn user_from_str_splits_at_colon() {
    let u = User::from_str("alice:secret").unwrap();
    assert_eq!(u, alice());
    let empty = User::from_str(":").unwrap();
    assert_eq!(empty.user, "");
    assert_eq!(empty.pass, "");
    assert_eq!(User::from_str("alice").unwrap_err(), MyError::Parse);
    assert_eq!(User::from_str("a:b:c").unwrap_err(), MyError::Parse);
}

#[test]
fn coordinator_tracks_sessions() {
    let mut server = Server::new(args(false, None));
    assert!(server.active().is_empty());
    let a = session(40001, dest(1, 2, 3, 4, 22));
    let b = session(40002, dest(5, 6, 7, 8, 80));
    assert!(server.handle(Message::SessionStart(a.clone())).is_none());
    assert!(server.handle(Message::SessionStart(b.clone())).is_none());
    assert_eq!(server.active().len(), 2);

    match server.handle(Message::Request(dest(1, 2, 3, 4, 22))) {
        Some(Message::Reply(d, Some(found))) => {
            assert_eq!(d, dest(1, 2, 3, 4, 22));
            assert_eq!(found, a);
        }
        other => panic!("unexpected {:?}", other),
    }
    match server.handle(Message::Request(dest(9, 9, 9, 9, 22))) {
        Some(Message::Reply(_, None)) => {}
        other => panic!("unexpected {:?}", other),
    }

    assert!(server.handle(Message::SessionEnd(a.clone())).is_none());
    assert_eq!(server.active(), &[b.clone()][..]);
    // a second end for the same session changes nothing
    assert!(server.handle(Message::SessionEnd(a)).is_none());
    assert_eq!(server.active().len(), 1);
    assert!(server.handle(Message::SessionEnd(b)).is_none());
    assert!(server.active().is_empty());
}

#[test]
fn coordinator_ends_first_equal_by_swap() {
    let mut server = Server::new(args(false, None));
    let a = session(1, dest(1, 1, 1, 1, 1));
    let b = session(2, dest(2, 2, 2, 2, 2));
    let c = session(3, dest(3, 3, 3, 3, 3));
    server.handle(Message::SessionStart(a.clone()));
    server.handle(Message::SessionStart(b));
    server.handle(Message::SessionStart(c.clone()));
    server.handle(Message::SessionEnd(a));
    assert_eq!(server.active()[0], c);
    assert_eq!(server.active().len(), 2);
}

#[test]
fn coordinator_ignores_replies() {
    let mut server = Server::new(args(false, None));
    assert!(server.handle(Message::AuthReply(alice(), true)).is_none());
    assert!(server.handle(Message::Reply(dest(1, 1, 1, 1, 1), None)).is_none());
    assert!(server.handle(Message::AuthMethodReply(vec![], None)).is_none());
}

#[test]
fn method_choice_follows_policy() {
    let both = vec![SOCKS5AuthMethod::NoAuth, SOCKS5AuthMethod::UserPass];
    assert_eq!(choose_method(&both, false), Some(SOCKS5AuthMethod::NoAuth));
    assert_eq!(choose_method(&both, true), Some(SOCKS5AuthMethod::UserPass));
    assert_eq!(choose_method(&vec![SOCKS5AuthMethod::NoAuth], true), None);
    assert_eq!(choose_method(&vec![SOCKS5AuthMethod::UserPass], false), None);
    assert_eq!(choose_method(&vec![], false), None);
}

#[test]
fn gssapi_only_greeting_gets_no_method() {
    let init = match parsed(socks_init(&[0x05, 0x01, 0x01])) {
        socks_proxy::socks::SOCKSInit::V5(i) => i,
        _ => panic!("expected a SOCKS5 greeting"),
    };
    let mut server = Server::new(args(false, None));
    let (mut h, _) = Handler::new(true, true);
    let a = h.step(Event::Init(socks_proxy::socks::SOCKSInit::V5(init)));
    let chosen = match server.handle(a.publish.unwrap()) {
        Some(Message::AuthMethodReply(_, m)) => m,
        other => panic!("unexpected {:?}", other),
    };
    assert_eq!(chosen, None);
    let a = h.step(Event::MethodChosen(chosen));
    assert_eq!(sent(&a), vec![0x05, 0xFF]);
    assert!(matches!(a.next, Next::Close));
}

#[test]
fn unknown_version_closes_without_reply() {
    assert!(matches!(socks_init(&[0x03]), Parsed::Invalid));
    let (mut h, first) = Handler::new(true, true);
    assert!(matches!(first.next, Next::ReadInit { timeout_secs: 5 }));
    let a = h.step(Event::Failed(MyError::Parse));
    assert!(a.reply.is_none());
    assert!(a.publish.is_none());
    assert!(matches!(a.next, Next::Close));
}

#[test]
fn greeting_timeout_closes_without_reply() {
    let (mut h, _) = Handler::new(true, true);
    let a = h.step(Event::Failed(MyError::Timeout));
    assert!(a.reply.is_none());
    assert!(matches!(a.next, Next::Close));
    assert!(matches!(h.phase, Phase::Closed));
}

#[test]
fn disabled_version_closes_silently() {
    let (mut h, _) = Handler::new(false, true);
    let init = parsed(socks_init(&[0x04, 0x01, 0x1F, 0x90, 0x7F, 0x00, 0x00, 0x01, 0x00]));
    let a = h.step(Event::Init(init));
    assert!(a.reply.is_none());
    assert!(matches!(a.next, Next::Close));
}

#[test]
fn v4_connect_success() {
    let (mut h, _) = Handler::new(true, false);
    let init = parsed(socks_init(&[0x04, 0x01, 0x1F, 0x90, 0x7F, 0x00, 0x00, 0x01, 0x00]));
    let a = h.step(Event::Init(init));
    match a.next {
        Next::Connect { dest: d, timeout_secs } => {
            assert_eq!(d, dest(127, 0, 0, 1, 8080));
            assert_eq!(timeout_secs, 120);
        }
        other => panic!("unexpected {:?}", other),
    }
    let a = h.step(Event::Connected {
        client_peer: v4(127, 0, 0, 1, 5000),
        client_local: v4(127, 0, 0, 1, 1080),
        remote_local: v4(127, 0, 0, 1, 5001),
        remote_peer: v4(127, 0, 0, 1, 8080),
    });
    assert_eq!(sent(&a), vec![0x00, 0x5A, 0x00, 0x00, 0x00, 0x00, 0x00, 0x00]);
    assert!(matches!(a.next, Next::Relay));
    let a = h.step(Event::RelayEnded);
    assert!(a.publish.is_none());
    assert!(matches!(a.next, Next::Close));
}

#[test]
fn v4_connect_failure_is_rejected() {
    let (mut h, _) = Handler::new(true, false);
    let init = parsed(socks_init(&[0x04, 0x01, 0x1F, 0x90, 0x7F, 0x00, 0x00, 0x01, 0x00]));
    h.step(Event::Init(init));
    let a = h.step(Event::ConnectFailed(ConnectError::TimedOut));
    assert_eq!(sent(&a), vec![0x00, 0x5B, 0, 0, 0, 0, 0, 0]);
    assert!(matches!(a.next, Next::Close));
}

#[test]
fn v4a_connect_resolves_the_name() {
    let bytes = [
        0x04, 0x01, 0x00, 0x50, 0x00, 0x00, 0x00, 0x01, 0x75, 0x73, 0x65, 0x72, 0x00, 0x65, 0x78,
        0x61, 0x6D, 0x70, 0x6C, 0x65, 0x2E, 0x63, 0x6F, 0x6D, 0x00,
    ];
    let (mut h, _) = Handler::new(true, true);
    let a = h.step(Event::Init(parsed(socks_init(&bytes))));
    match a.next {
        Next::Connect { dest: d, .. } => {
            assert_eq!(d, Destination { addr: Address::Name("example.com".to_string()), port: 80 })
        }
        other => panic!("unexpected {:?}", other),
    }
}

#[test]
fn v4_bind_without_session_is_rejected() {
    let mut server = Server::new(args(false, None));
    let (mut h, _) = Handler::new(true, true);
    let init = parsed(socks_init(&[0x04, 0x02, 0x00, 0x16, 0x01, 0x02, 0x03, 0x04, 0x00]));
    let a = h.step(Event::Init(init));
    let found = match server.handle(a.publish.unwrap()) {
        Some(Message::Reply(_, s)) => s,
        other => panic!("unexpected {:?}", other),
    };
    let a = h.step(Event::Found(found));
    assert_eq!(sent(&a), vec![0x00, 0x5B, 0, 0, 0, 0, 0, 0]);
}

#[test]
fn v4_bind_rendezvous() {
    let mut server = Server::new(args(false, None));
    server.handle(Message::SessionStart(session(40001, dest(1, 2, 3, 4, 22))));
    let (mut h, _) = Handler::new(true, true);
    let init = parsed(socks_init(&[0x04, 0x02, 0x00, 0x16, 0x01, 0x02, 0x03, 0x04, 0x00]));
    let a = h.step(Event::Init(init));
    let found = match server.handle(a.publish.unwrap()) {
        Some(Message::Reply(_, s)) => s,
        other => panic!("unexpected {:?}", other),
    };
    let a = h.step(Event::Found(found));
    assert!(matches!(a.next, Next::Listen(IpAddress::V4([192, 168, 7, 3]))));
    let a = h.step(Event::Listening(v4(192, 168, 7, 3, 0x2233)));
    assert_eq!(sent(&a), vec![0x00, 0x5A, 0x22, 0x33, 192, 168, 7, 3]);
    let a = h.step(Event::Accepted(v4(1, 2, 3, 4, 0x0400)));
    assert_eq!(sent(&a), vec![0x00, 0x5A, 0x04, 0x00, 1, 2, 3, 4]);
    assert!(matches!(a.next, Next::Relay));
}

#[test]
fn v5_noauth_connect_ipv4() {
    let mut server = Server::new(args(false, None));
    let (mut h, _) = Handler::new(false, true);
    let a = h.step(Event::Init(parsed(socks_init(&[0x05, 0x01, 0x00]))));
    let chosen = match server.handle(a.publish.unwrap()) {
        Some(Message::AuthMethodReply(_, m)) => m,
        other => panic!("unexpected {:?}", other),
    };
    let a = h.step(Event::MethodChosen(chosen));
    assert_eq!(sent(&a), vec![0x05, 0x00]);
    assert!(matches!(a.next, Next::ReadRequest { timeout_secs: 120 }));
    let req = parsed(socks5_connection_request(&[0x05, 0x01, 0x00, 0x01, 0x08, 0x08, 0x08, 0x08, 0x00, 0x35]));
    let a = h.step(Event::Request(req));
    assert!(matches!(a.next, Next::Connect { .. }));
    let a = h.step(Event::Connected {
        client_peer: v4(10, 0, 0, 9, 4444),
        client_local: v4(10, 0, 0, 1, 1080),
        remote_local: v4(10, 0, 0, 1, 0xC350),
        remote_peer: v4(8, 8, 8, 8, 53),
    });
    assert_eq!(sent(&a), vec![0x05, 0x00, 0x00, 0x01, 10, 0, 0, 1, 0xC3, 0x50]);
    let started = match &a.publish {
        Some(Message::SessionStart(s)) => s.clone(),
        other => panic!("unexpected {:?}", other),
    };
    assert_eq!(started.destination, dest(8, 8, 8, 8, 53));
    assert_eq!(started.server2remote, v4(10, 0, 0, 1, 0xC350));
    server.handle(a.publish.unwrap());
    assert_eq!(server.active().len(), 1);
    // the relay fails: the session still ends, once
    let a = h.step(Event::Failed(MyError::IO));
    match &a.publish {
        Some(Message::SessionEnd(s)) => assert_eq!(*s, started),
        other => panic!("unexpected {:?}", other),
    }
    server.handle(a.publish.unwrap());
    assert!(server.active().is_empty());
    let a = h.step(Event::RelayEnded);
    assert!(a.publish.is_none());
}

#[test]
fn v5_userpass_success() {
    let mut server = Server::new(args(true, Some(vec![alice()])));
    let (mut h, _) = Handler::new(false, true);
    let a = h.step(Event::Init(parsed(socks_init(&[0x05, 0x01, 0x02]))));
    let chosen = match server.handle(a.publish.unwrap()) {
        Some(Message::AuthMethodReply(_, m)) => m,
        other => panic!("unexpected {:?}", other),
    };
    let a = h.step(Event::MethodChosen(chosen));
    assert_eq!(sent(&a), vec![0x05, 0x02]);
    assert!(matches!(a.next, Next::ReadCredentials { timeout_secs: 120 }));
    let mut frame = vec![0x01, 0x05];
    frame.extend_from_slice(b"alice");
    frame.push(0x06);
    frame.extend_from_slice(b"secret");
    let a = h.step(Event::Credentials(parsed(socks5_auth_request(&frame))));
    let verdict = match server.handle(a.publish.unwrap()) {
        Some(Message::AuthReply(u, ok)) => {
            assert_eq!(u, alice());
            ok
        }
        other => panic!("unexpected {:?}", other),
    };
    let a = h.step(Event::Verdict(verdict));
    assert_eq!(sent(&a), vec![0x01, 0x00]);
    assert!(matches!(a.next, Next::ReadRequest { .. }));
}

#[test]
fn v5_userpass_wrong_password() {
    let mut server = Server::new(args(true, Some(vec![alice()])));
    let bad = User { user: "alice".to_string(), pass: "guess".to_string() };
    let verdict = match server.handle(Message::AuthRequest(bad)) {
        Some(Message::AuthReply(_, ok)) => ok,
        other => panic!("unexpected {:?}", other),
    };
    assert!(!verdict);
    let (mut h, _) = Handler::new(false, true);
    h.step(Event::Init(parsed(socks_init(&[0x05, 0x01, 0x02]))));
    h.step(Event::MethodChosen(Some(SOCKS5AuthMethod::UserPass)));
    let req = SOCKS5AuthRequest { ver: 1, id: b"alice".to_vec(), pw: b"guess".to_vec() };
    h.step(Event::Credentials(req));
    let a = h.step(Event::Verdict(verdict));
    assert_eq!(sent(&a), vec![0x01, 0xFF]);
    assert!(matches!(a.next, Next::Close));
}

#[test]
fn v5_credentials_not_utf8_fail() {
    let (mut h, _) = Handler::new(false, true);
    h.step(Event::Init(parsed(socks_init(&[0x05, 0x01, 0x02]))));
    h.step(Event::MethodChosen(Some(SOCKS5AuthMethod::UserPass)));
    let req = SOCKS5AuthRequest { ver: 1, id: vec![0xFF], pw: b"x".to_vec() };
    let a = h.step(Event::Credentials(req));
    assert!(a.publish.is_none());
    assert_eq!(sent(&a), vec![0x01, 0xFF]);
    assert!(matches!(a.next, Next::Close));
}

#[test]
fn v5_udp_associate_refused() {
    let (mut h, _) = Handler::new(false, true);
    h.step(Event::Init(parsed(socks_init(&[0x05, 0x01, 0x00]))));
    h.step(Event::MethodChosen(Some(SOCKS5AuthMethod::NoAuth)));
    let req = parsed(socks5_connection_request(&[0x05, 0x03, 0x00, 0x01, 0, 0, 0, 0, 0, 0]));
    let a = h.step(Event::Request(req));
    assert_eq!(sent(&a), vec![0x05, 0x07, 0x00, 0x01, 0x00, 0x00, 0x00, 0x00, 0x00, 0x00]);
    assert!(matches!(a.next, Next::Close));
}

fn v5_connect_failure(e: ConnectError) -> Vec<u8> {
    let (mut h, _) = Handler::new(false, true);
    h.step(Event::Init(parsed(socks_init(&[0x05, 0x01, 0x00]))));
    h.step(Event::MethodChosen(Some(SOCKS5AuthMethod::NoAuth)));
    let mut frame = vec![0x05, 0x01, 0x00, 0x03, 0x0B];
    frame.extend_from_slice(b"example.com");
    frame.extend_from_slice(&[0x00, 0x50]);
    h.step(Event::Request(parsed(socks5_connection_request(&frame))));
    let a = h.step(Event::ConnectFailed(e));
    assert!(a.publish.is_none());
    assert!(matches!(a.next, Next::Close));
    sent(&a)
}

#[test]
fn v5_connect_refused_reports_rep5() {
    assert_eq!(v5_connect_failure(ConnectError::ConnectionRefused), vec![5, 5, 0, 1, 0, 0, 0, 0, 0, 0]);
}

#[test]
fn v5_connect_failures_map_codes() {
    assert_eq!(v5_connect_failure(ConnectError::HostUnreachable)[1], 4);
    assert_eq!(v5_connect_failure(ConnectError::NetworkUnreachable)[1], 3);
    assert_eq!(v5_connect_failure(ConnectError::TimedOut)[1], 1);
    assert_eq!(v5_connect_failure(ConnectError::Other)[1], 1);
}

#[test]
fn v5_bind_rendezvous() {
    let mut server = Server::new(args(false, None));
    // handler A connects to 1.2.3.4:22
    let (mut a_h, _) = Handler::new(false, true);
    a_h.step(Event::Init(parsed(socks_init(&[0x05, 0x01, 0x00]))));
    a_h.step(Event::MethodChosen(Some(SOCKS5AuthMethod::NoAuth)));
    a_h.step(Event::Request(parsed(socks5_connection_request(&[5, 1, 0, 1, 1, 2, 3, 4, 0, 22]))));
    let a = a_h.step(Event::Connected {
        client_peer: v4(10, 0, 0, 9, 4444),
        client_local: v4(10, 0, 0, 1, 1080),
        remote_local: v4(192, 168, 7, 3, 50000),
        remote_peer: v4(1, 2, 3, 4, 22),
    });
    server.handle(a.publish.unwrap());
    // handler B binds for the same destination
    let (mut b_h, _) = Handler::new(false, true);
    b_h.step(Event::Init(parsed(socks_init(&[0x05, 0x01, 0x00]))));
    b_h.step(Event::MethodChosen(Some(SOCKS5AuthMethod::NoAuth)));
    let b = b_h.step(Event::Request(parsed(socks5_connection_request(&[5, 2, 0, 1, 1, 2, 3, 4, 0, 22]))));
    let found = match server.handle(b.publish.unwrap()) {
        Some(Message::Reply(_, s)) => s,
        other => panic!("unexpected {:?}", other),
    };
    let b = b_h.step(Event::Found(found));
    assert!(matches!(b.next, Next::Listen(IpAddress::V4([192, 168, 7, 3]))));
    let b = b_h.step(Event::Listening(v4(192, 168, 7, 3, 0x1F90)));
    assert_eq!(sent(&b), vec![5, 0, 0, 1, 192, 168, 7, 3, 0x1F, 0x90]);
    let b = b_h.step(Event::Accepted(v4(1, 2, 3, 4, 0x0401)));
    assert_eq!(sent(&b), vec![5, 0, 0, 1, 1, 2, 3, 4, 0x04, 0x01]);
    assert!(matches!(b.next, Next::Relay));
}

#[test]
fn v5_bind_without_session_fails() {
    let (mut h, _) = Handler::new(false, true);
    h.step(Event::Init(parsed(socks_init(&[0x05, 0x01, 0x00]))));
    h.step(Event::MethodChosen(Some(SOCKS5AuthMethod::NoAuth)));
    h.step(Event::Request(parsed(socks5_connection_request(&[5, 2, 0, 1, 1, 2, 3, 4, 0, 22]))));
    let a = h.step(Event::Found(None));
    assert_eq!(sent(&a), vec![5, 1, 0, 1, 0, 0, 0, 0, 0, 0]);
    let r = Reply::V5 { rep: SOCKS5ConnectReply::Failure, bound: None };
    assert_eq!(encode_reply(&r).to_vec(), sent(&a));
    let _ = SOCKS5AuthReply::Accepted;
}

#[test]
fn sessions_stay_distinguishable() {
    let mut server = Server::new(args(false, None));
    let d = dest(1, 2, 3, 4, 22);
    let a = session(40001, d.clone());
    let b = session(40002, d.clone());
    let c = session(40003, d);
    server.handle(Message::SessionStart(a.clone()));
    server.handle(Message::SessionStart(b));
    server.handle(Message::SessionEnd(a));
    server.handle(Message::SessionStart(c));
    let active = server.active();
    assert_eq!(active.len(), 2);
    for i in 0..active.len() {
        for j in i + 1..active.len() {
            let (x, y) = (&active[i], &active[j]);
            assert!(
                x.client2server != y.client2server
                    || x.server2client != y.server2client
                    || x.server2remote != y.server2remote
                    || x.remote2server != y.remote2server
            );
        }
    }
}
