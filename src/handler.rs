use vstd::prelude::*;
use vstd::utf8::{decode_utf8, valid_utf8};

use crate::error::MyError;
use crate::parse::utf8_string;
use crate::server::{Message, Session, User, UserView};
use crate::socks::{
    Destination, IpAddress, SOCKS4Cmd, SOCKS5AuthMethod, SOCKS5AuthReply, SOCKS5AuthRequest,
    SOCKS5Cmd, SOCKS5ConnectReply, SOCKS5ConnectRequest, SOCKSInit, SocketAddress,
};
use crate::wire::Reply;

verus! {

/// Seconds a client has to send its opening frame.
pub const GREETING_TIMEOUT_SECS: u64 = 5;

/// Seconds for every later frame and for every outbound connect.
pub const TIMEOUT_SECS: u64 = 120;

/// Why an outbound connect failed.
#[derive(Debug, Clone, Copy, PartialEq, Eq, Structural)]
pub enum ConnectError {
    ConnectionRefused,
    HostUnreachable,
    NetworkUnreachable,
    TimedOut,
    Other,
}

/// The REP code that tells a SOCKS5 client why its CONNECT failed.
pub open spec fn failure_reply(e: ConnectError) -> SOCKS5ConnectReply {
    match e {
        ConnectError::ConnectionRefused => SOCKS5ConnectReply::ConnectionRefused,
        ConnectError::HostUnreachable => SOCKS5ConnectReply::HostUnreachable,
        ConnectError::NetworkUnreachable => SOCKS5ConnectReply::NetworkUnreachable,
        _ => SOCKS5ConnectReply::Failure,
    }
}

fn connect_failure_reply(e: ConnectError) -> (r: SOCKS5ConnectReply)
    ensures
        r == failure_reply(e),
{
    match e {
        ConnectError::ConnectionRefused => SOCKS5ConnectReply::ConnectionRefused,
        ConnectError::HostUnreachable => SOCKS5ConnectReply::HostUnreachable,
        ConnectError::NetworkUnreachable => SOCKS5ConnectReply::NetworkUnreachable,
        _ => SOCKS5ConnectReply::Failure,
    }
}

/// What happened since the last step of a connection.
#[derive(Debug)]
pub enum Event {
    /// The opening frame arrived.
    Init(SOCKSInit),
    /// The coordinator picked a method for the greeting, or none.
    MethodChosen(Option<SOCKS5AuthMethod>),
    /// The sub-negotiation request arrived.
    Credentials(SOCKS5AuthRequest),
    /// The coordinator judged the credentials.
    Verdict(bool),
    /// The SOCKS5 request arrived.
    Request(SOCKS5ConnectRequest),
    /// The outbound connect succeeded: the client's address, the local end of
    /// the client's connection, the local end of the outbound connection and
    /// the remote peer.
    Connected {
        client_peer: SocketAddress,
        client_local: SocketAddress,
        remote_local: SocketAddress,
        remote_peer: SocketAddress,
    },
    /// The outbound connect failed.
    ConnectFailed(ConnectError),
    /// The coordinator's answer to a lookup.
    Found(Option<Session>),
    /// A listener is bound at this address.
    Listening(SocketAddress),
    /// No listener could be bound.
    ListenFailed,
    /// A peer connected to the listener from this address.
    Accepted(SocketAddress),
    /// Accepting on the listener failed.
    AcceptFailed,
    /// Both directions of the relay are closed.
    RelayEnded,
    /// A read, a write or a deadline failed, or a frame could not be parsed.
    Failed(MyError),
}

/// The work to do after a step, once its message is published and its reply
/// sent.
#[derive(Debug)]
pub enum Next {
    /// Read the opening frame.
    ReadInit { timeout_secs: u64 },
    /// Read the sub-negotiation request.
    ReadCredentials { timeout_secs: u64 },
    /// Read the SOCKS5 request.
    ReadRequest { timeout_secs: u64 },
    /// Connect to the destination.
    Connect { dest: Destination, timeout_secs: u64 },
    /// Wait for the coordinator's answer to the published message.
    AwaitCoordinator,
    /// Bind a listener on this address, port 0.
    Listen(IpAddress),
    /// Accept one connection on the listener.
    Accept,
    /// Relay bytes both ways until both sides close.
    Relay,
    /// Drop the connection.
    Close,
}

/// What a step asks of the code that owns the sockets: first publish the
/// message, then send the reply, then do `next`.
#[derive(Debug)]
pub struct Action {
    pub publish: Option<Message>,
    pub reply: Option<Reply>,
    pub next: Next,
}

/// Where a connection stands.
#[derive(Debug)]
pub enum Phase {
    Greeting,
    V4Connect,
    V4BindLookup,
    V4BindListen([u8; 4]),
    V4BindAccept,
    V5Method,
    V5Credentials,
    V5Verdict,
    V5Request,
    V5Connect(Destination),
    V5BindLookup,
    V5BindListen,
    V5BindAccept,
    /// Relaying; with the session registered for it, if any.
    Relay(Option<Session>),
    Closed,
}

/// The decisions of one client connection.
#[derive(Debug)]
pub struct Handler {
    pub socks4: bool,
    pub socks5: bool,
    pub phase: Phase,
}

/// The SOCKS4 rejection, with zeros for address and port.
pub open spec fn v4_rejected() -> Reply {
    Reply::V4 { granted: false, bound: None }
}

/// The SOCKS5 general failure, with 0.0.0.0:0.
pub open spec fn v5_failure() -> Reply {
    Reply::V5 { rep: SOCKS5ConnectReply::Failure, bound: None }
}

/// The step moves to `phase` and asks for `publish`, `reply`, `next`.
pub open spec fn goes(
    h2: Handler,
    a: Action,
    phase: Phase,
    publish: Option<Message>,
    reply: Option<Reply>,
    next: Next,
) -> bool {
    h2.phase == phase && a == (Action { publish, reply, next })
}

/// The step ends the connection after `publish` and `reply`.
pub open spec fn ends(h2: Handler, a: Action, publish: Option<Message>, reply: Option<Reply>) -> bool {
    goes(h2, a, Phase::Closed, publish, reply, Next::Close)
}

/// One step of a connection: from handler `h` on event `ev` to handler `h2`,
/// asking for action `a`.
pub open spec fn transition(h: Handler, ev: Event, h2: Handler, a: Action) -> bool {
    &&& h2.socks4 == h.socks4
    &&& h2.socks5 == h.socks5
    &&& match h.phase {
        Phase::Greeting => match ev {
            Event::Init(SOCKSInit::V4(init)) => if !h.socks4 {
                ends(h2, a, None, None)
            } else if init.cmd == SOCKS4Cmd::Connect {
                goes(
                    h2,
                    a,
                    Phase::V4Connect,
                    None,
                    None,
                    Next::Connect { dest: init.dest, timeout_secs: TIMEOUT_SECS },
                )
            } else {
                goes(
                    h2,
                    a,
                    Phase::V4BindLookup,
                    Some(Message::Request(init.dest)),
                    None,
                    Next::AwaitCoordinator,
                )
            },
            Event::Init(SOCKSInit::V5(init)) => if !h.socks5 {
                ends(h2, a, None, None)
            } else {
                goes(
                    h2,
                    a,
                    Phase::V5Method,
                    Some(Message::AuthMethodReq(init.auth_methods)),
                    None,
                    Next::AwaitCoordinator,
                )
            },
            _ => ends(h2, a, None, None),
        },
        Phase::V4Connect => match ev {
            Event::Connected { .. } => goes(
                h2,
                a,
                Phase::Relay(None),
                None,
                Some(Reply::V4 { granted: true, bound: None }),
                Next::Relay,
            ),
            Event::ConnectFailed(_) => ends(h2, a, None, Some(v4_rejected())),
            _ => ends(h2, a, None, None),
        },
        Phase::V4BindLookup => match ev {
            Event::Found(Some(s)) => match s.server2remote.ip {
                IpAddress::V4(o) => goes(
                    h2,
                    a,
                    Phase::V4BindListen(o),
                    None,
                    None,
                    Next::Listen(IpAddress::V4(o)),
                ),
                IpAddress::V6(_) => ends(h2, a, None, Some(v4_rejected())),
            },
            Event::Found(None) => ends(h2, a, None, Some(v4_rejected())),
            _ => ends(h2, a, None, None),
        },
        Phase::V4BindListen(o) => match ev {
            Event::Listening(sa) => goes(
                h2,
                a,
                Phase::V4BindAccept,
                None,
                Some(
                    Reply::V4 {
                        granted: true,
                        bound: Some(SocketAddress { ip: IpAddress::V4(o), port: sa.port }),
                    },
                ),
                Next::Accept,
            ),
            Event::ListenFailed => ends(h2, a, None, Some(v4_rejected())),
            _ => ends(h2, a, None, None),
        },
        Phase::V4BindAccept => match ev {
            Event::Accepted(peer) => goes(
                h2,
                a,
                Phase::Relay(None),
                None,
                Some(Reply::V4 { granted: true, bound: Some(peer) }),
                Next::Relay,
            ),
            Event::AcceptFailed => ends(h2, a, None, Some(v4_rejected())),
            _ => ends(h2, a, None, None),
        },
        Phase::V5Method => match ev {
            Event::MethodChosen(Some(SOCKS5AuthMethod::NoAuth)) => goes(
                h2,
                a,
                Phase::V5Request,
                None,
                Some(Reply::Method(SOCKS5AuthReply::Accepted)),
                Next::ReadRequest { timeout_secs: TIMEOUT_SECS },
            ),
            Event::MethodChosen(Some(SOCKS5AuthMethod::UserPass)) => goes(
                h2,
                a,
                Phase::V5Credentials,
                None,
                Some(Reply::Method(SOCKS5AuthReply::UserPass)),
                Next::ReadCredentials { timeout_secs: TIMEOUT_SECS },
            ),
            Event::MethodChosen(None) => ends(
                h2,
                a,
                None,
                Some(Reply::Method(SOCKS5AuthReply::Denied)),
            ),
            _ => ends(h2, a, None, None),
        },
        Phase::V5Credentials => match ev {
            Event::Credentials(req) => if valid_utf8(req.id@) && valid_utf8(req.pw@) {
                &&& h2.phase == Phase::V5Verdict
                &&& a.reply is None
                &&& a.next == Next::AwaitCoordinator
                &&& a.publish matches Some(Message::AuthRequest(u))
                &&& u@ == (UserView { user: decode_utf8(req.id@), pass: decode_utf8(req.pw@) })
            } else {
                ends(h2, a, None, Some(Reply::AuthStatus(false)))
            },
            _ => ends(h2, a, None, None),
        },
        Phase::V5Verdict => match ev {
            Event::Verdict(true) => goes(
                h2,
                a,
                Phase::V5Request,
                None,
                Some(Reply::AuthStatus(true)),
                Next::ReadRequest { timeout_secs: TIMEOUT_SECS },
            ),
            Event::Verdict(false) => ends(h2, a, None, Some(Reply::AuthStatus(false))),
            _ => ends(h2, a, None, None),
        },
        Phase::V5Request => match ev {
            Event::Request(req) => match req.cmd {
                SOCKS5Cmd::Connect => {
                    &&& h2.phase == Phase::V5Connect(req.dest)
                    &&& a == (Action {
                        publish: None,
                        reply: None,
                        next: Next::Connect { dest: req.dest, timeout_secs: TIMEOUT_SECS },
                    })
                },
                SOCKS5Cmd::Bind => goes(
                    h2,
                    a,
                    Phase::V5BindLookup,
                    Some(Message::Request(req.dest)),
                    None,
                    Next::AwaitCoordinator,
                ),
                SOCKS5Cmd::Udp => ends(
                    h2,
                    a,
                    None,
                    Some(Reply::V5 { rep: SOCKS5ConnectReply::CommandNotSupported, bound: None }),
                ),
            },
            _ => ends(h2, a, None, None),
        },
        Phase::V5Connect(dest) => match ev {
            Event::Connected { client_peer, client_local, remote_local, remote_peer } => {
                let s = Session {
                    client2server: client_peer,
                    server2client: client_local,
                    server2remote: remote_local,
                    remote2server: remote_peer,
                    destination: dest,
                };
                goes(
                    h2,
                    a,
                    Phase::Relay(Some(s)),
                    Some(Message::SessionStart(s)),
                    Some(
                        Reply::V5 { rep: SOCKS5ConnectReply::Accepted, bound: Some(remote_local) },
                    ),
                    Next::Relay,
                )
            },
            Event::ConnectFailed(e) => ends(
                h2,
                a,
                None,
                Some(Reply::V5 { rep: failure_reply(e), bound: None }),
            ),
            _ => ends(h2, a, None, None),
        },
        Phase::V5BindLookup => match ev {
            Event::Found(Some(s)) => goes(
                h2,
                a,
                Phase::V5BindListen,
                None,
                None,
                Next::Listen(s.server2remote.ip),
            ),
            Event::Found(None) => ends(h2, a, None, Some(v5_failure())),
            _ => ends(h2, a, None, None),
        },
        Phase::V5BindListen => match ev {
            Event::Listening(sa) => goes(
                h2,
                a,
                Phase::V5BindAccept,
                None,
                Some(Reply::V5 { rep: SOCKS5ConnectReply::Accepted, bound: Some(sa) }),
                Next::Accept,
            ),
            Event::ListenFailed => ends(h2, a, None, Some(v5_failure())),
            _ => ends(h2, a, None, None),
        },
        Phase::V5BindAccept => match ev {
            Event::Accepted(peer) => goes(
                h2,
                a,
                Phase::Relay(None),
                None,
                Some(Reply::V5 { rep: SOCKS5ConnectReply::Accepted, bound: Some(peer) }),
                Next::Relay,
            ),
            Event::AcceptFailed => ends(h2, a, None, Some(v5_failure())),
            _ => ends(h2, a, None, None),
        },
        Phase::Relay(s) => match s {
            Some(s) => ends(h2, a, Some(Message::SessionEnd(s)), None),
            None => ends(h2, a, None, None),
        },
        Phase::Closed => ends(h2, a, None, None),
    }
}

/// A registered session ends exactly once. A step that publishes
/// `SessionStart(s)` enters the relay holding `s`, and only such a step
/// enters it. From a relay holding `s`, every event closes the connection and
/// publishes `SessionEnd(s)`; no other step publishes a `SessionEnd`. A
/// closed connection stays closed and publishes nothing.
pub proof fn lemma_session_end_once(h: Handler, ev: Event, h2: Handler, a: Action)
    requires
        transition(h, ev, h2, a),
    ensures
        a.publish matches Some(Message::SessionStart(s)) ==> h2.phase == Phase::Relay(Some(s)),
        h2.phase matches Phase::Relay(Some(s)) ==> a.publish == Some(Message::SessionStart(s)),
        h.phase matches Phase::Relay(Some(s)) ==> h2.phase == Phase::Closed && a.publish == Some(
            Message::SessionEnd(s),
        ),
        a.publish matches Some(Message::SessionEnd(s)) ==> h.phase == Phase::Relay(Some(s)),
        h.phase is Closed ==> h2.phase is Closed && a.publish is None,
{
}

/// `hs`, `evs` and `acts` are a run of one connection: step `k` takes
/// `hs[k]` on event `evs[k]` to `hs[k + 1]`, asking for `acts[k]`.
pub open spec fn is_run(hs: Seq<Handler>, evs: Seq<Event>, acts: Seq<Action>) -> bool {
    &&& hs.len() == evs.len() + 1
    &&& acts.len() == evs.len()
    &&& forall|k: int|
        0 <= k < evs.len() ==> transition(#[trigger] hs[k], evs[k], hs[k + 1], acts[k])
}

proof fn lemma_closed_stays(hs: Seq<Handler>, evs: Seq<Event>, acts: Seq<Action>, k: int)
    requires
        is_run(hs, evs, acts),
        0 <= k < hs.len(),
        hs[k].phase is Closed,
    ensures
        forall|m: int| k <= m < hs.len() ==> (#[trigger] hs[m]).phase is Closed,
        forall|m: int| k <= m < acts.len() ==> (#[trigger] acts[m]).publish is None,
    decreases hs.len() - k,
{
    if k < evs.len() {
        assert(transition(hs[k], evs[k], hs[k + 1], acts[k]));
        lemma_closed_stays(hs, evs, acts, k + 1);
    }
}

/// Over a whole connection, from its greeting until it is closed, a step
/// that publishes `SessionStart(s)` is followed by exactly one step that
/// publishes `SessionEnd(s)`, the very next one; no other step publishes a
/// `SessionStart` or a `SessionEnd`.
pub proof fn lemma_run_session_end_once(
    hs: Seq<Handler>,
    evs: Seq<Event>,
    acts: Seq<Action>,
    i: int,
)
    requires
        is_run(hs, evs, acts),
        hs[0].phase is Greeting,
        hs.last().phase is Closed,
        0 <= i < acts.len(),
        acts[i].publish matches Some(Message::SessionStart(_)),
    ensures
        i + 1 < acts.len(),
        acts[i].publish matches Some(Message::SessionStart(s)) && acts[i + 1].publish == Some(
            Message::SessionEnd(s),
        ),
        forall|j: int|
            0 <= j < acts.len() && j != i + 1 ==> !((#[trigger] acts[j]).publish matches Some(
                Message::SessionEnd(_),
            )),
        forall|j: int|
            0 <= j < acts.len() && j != i ==> !((#[trigger] acts[j]).publish matches Some(
                Message::SessionStart(_),
            )),
{
    let s = acts[i].publish->0->SessionStart_0;
    assert(transition(hs[i], evs[i], hs[i + 1], acts[i]));
    lemma_session_end_once(hs[i], evs[i], hs[i + 1], acts[i]);
    assert(hs[i + 1].phase == Phase::Relay(Some(s)));
    assert(i + 1 < acts.len());
    assert(transition(hs[i + 1], evs[i + 1], hs[i + 2], acts[i + 1]));
    lemma_session_end_once(hs[i + 1], evs[i + 1], hs[i + 2], acts[i + 1]);
    lemma_closed_stays(hs, evs, acts, i + 2);
    assert forall|j: int|
        0 <= j < acts.len() && j != i ==> !((#[trigger] acts[j]).publish matches Some(
            Message::SessionStart(_),
        )) by {
        if 0 <= j < acts.len() && j != i && acts[j].publish matches Some(Message::SessionStart(_)) {
            if j > i {
                assert(j == i + 1 || acts[j].publish is None);
            } else {
                assert(transition(hs[j], evs[j], hs[j + 1], acts[j]));
                lemma_session_end_once(hs[j], evs[j], hs[j + 1], acts[j]);
                assert(j + 1 < acts.len());
                assert(transition(hs[j + 1], evs[j + 1], hs[j + 2], acts[j + 1]));
                lemma_session_end_once(hs[j + 1], evs[j + 1], hs[j + 2], acts[j + 1]);
                lemma_closed_stays(hs, evs, acts, j + 2);
                assert(i == j + 1 || acts[i].publish is None);
            }
        }
    }
    assert forall|j: int|
        0 <= j < acts.len() && j != i + 1 ==> !((#[trigger] acts[j]).publish matches Some(
            Message::SessionEnd(_),
        )) by {
        if 0 <= j < acts.len() && j != i + 1 && acts[j].publish matches Some(Message::SessionEnd(_)) {
            assert(transition(hs[j], evs[j], hs[j + 1], acts[j]));
            lemma_session_end_once(hs[j], evs[j], hs[j + 1], acts[j]);
            assert(hs[j].phase is Relay);
            assert(j > 0);
            assert(transition(hs[j - 1], evs[j - 1], hs[j], acts[j - 1]));
            lemma_session_end_once(hs[j - 1], evs[j - 1], hs[j], acts[j - 1]);
            assert(acts[j - 1].publish matches Some(Message::SessionStart(_)));
            if j - 1 > i {
                assert(acts[j - 1].publish is None);
            } else if j - 1 < i {
                assert(j + 1 < acts.len());
                lemma_closed_stays(hs, evs, acts, j + 1);
                assert(acts[i].publish is None);
            }
        }
    }
}

impl Handler {
    /// A handler for a new connection, which first reads the opening frame
    /// within the greeting deadline.
    pub fn new(socks4: bool, socks5: bool) -> (r: (Handler, Action))
        ensures
            r.0 == (Handler { socks4, socks5, phase: Phase::Greeting }),
            r.1 == (Action {
                publish: None,
                reply: None,
                next: Next::ReadInit { timeout_secs: GREETING_TIMEOUT_SECS },
            }),
    {
        (
            Handler { socks4, socks5, phase: Phase::Greeting },
            Action {
                publish: None,
                reply: None,
                next: Next::ReadInit { timeout_secs: GREETING_TIMEOUT_SECS },
            },
        )
    }

    fn finish(&mut self, publish: Option<Message>, reply: Option<Reply>) -> (a: Action)
        ensures
            final(self).socks4 == old(self).socks4,
            final(self).socks5 == old(self).socks5,
            ends(*final(self), a, publish, reply),
    {
        self.phase = Phase::Closed;
        Action { publish, reply, next: Next::Close }
    }

    fn go(&mut self, phase: Phase, publish: Option<Message>, reply: Option<Reply>, next: Next) -> (a:
        Action)
        ensures
            final(self).socks4 == old(self).socks4,
            final(self).socks5 == old(self).socks5,
            goes(*final(self), a, phase, publish, reply, next),
    {
        self.phase = phase;
        Action { publish, reply, next }
    }

    /// Decides what a connection does on an event.
    pub fn step(&mut self, ev: Event) -> (a: Action)
        ensures
            transition(*old(self), ev, *final(self), a),
    {
        let mut phase = Phase::Closed;
        std::mem::swap(&mut self.phase, &mut phase);
        match phase {
            Phase::Greeting => match ev {
                Event::Init(SOCKSInit::V4(init)) => {
                    if !self.socks4 {
                        self.finish(None, None)
                    } else if init.cmd == SOCKS4Cmd::Connect {
                        self.go(
                            Phase::V4Connect,
                            None,
                            None,
                            Next::Connect { dest: init.dest, timeout_secs: TIMEOUT_SECS },
                        )
                    } else {
                        self.go(
                            Phase::V4BindLookup,
                            Some(Message::Request(init.dest)),
                            None,
                            Next::AwaitCoordinator,
                        )
                    }
                },
                Event::Init(SOCKSInit::V5(init)) => {
                    if !self.socks5 {
                        self.finish(None, None)
                    } else {
                        self.go(
                            Phase::V5Method,
                            Some(Message::AuthMethodReq(init.auth_methods)),
                            None,
                            Next::AwaitCoordinator,
                        )
                    }
                },
                _ => self.finish(None, None),
            },
            Phase::V4Connect => match ev {
                Event::Connected { .. } => self.go(
                    Phase::Relay(None),
                    None,
                    Some(Reply::V4 { granted: true, bound: None }),
                    Next::Relay,
                ),
                Event::ConnectFailed(_) => self.finish(
                    None,
                    Some(Reply::V4 { granted: false, bound: None }),
                ),
                _ => self.finish(None, None),
            },
            Phase::V4BindLookup => match ev {
                Event::Found(Some(s)) => match s.server2remote.ip {
                    IpAddress::V4(o) => self.go(
                        Phase::V4BindListen(o),
                        None,
                        None,
                        Next::Listen(IpAddress::V4(o)),
                    ),
                    IpAddress::V6(_) => self.finish(
                        None,
                        Some(Reply::V4 { granted: false, bound: None }),
                    ),
                },
                Event::Found(None) => self.finish(
                    None,
                    Some(Reply::V4 { granted: false, bound: None }),
                ),
                _ => self.finish(None, None),
            },
            Phase::V4BindListen(o) => match ev {
                Event::Listening(sa) => self.go(
                    Phase::V4BindAccept,
                    None,
                    Some(
                        Reply::V4 {
                            granted: true,
                            bound: Some(SocketAddress { ip: IpAddress::V4(o), port: sa.port }),
                        },
                    ),
                    Next::Accept,
                ),
                Event::ListenFailed => self.finish(
                    None,
                    Some(Reply::V4 { granted: false, bound: None }),
                ),
                _ => self.finish(None, None),
            },
            Phase::V4BindAccept => match ev {
                Event::Accepted(peer) => self.go(
                    Phase::Relay(None),
                    None,
                    Some(Reply::V4 { granted: true, bound: Some(peer) }),
                    Next::Relay,
                ),
                Event::AcceptFailed => self.finish(
                    None,
                    Some(Reply::V4 { granted: false, bound: None }),
                ),
                _ => self.finish(None, None),
            },
            Phase::V5Method => match ev {
                Event::MethodChosen(Some(SOCKS5AuthMethod::NoAuth)) => self.go(
                    Phase::V5Request,
                    None,
                    Some(Reply::Method(SOCKS5AuthReply::Accepted)),
                    Next::ReadRequest { timeout_secs: TIMEOUT_SECS },
                ),
                Event::MethodChosen(Some(SOCKS5AuthMethod::UserPass)) => self.go(
                    Phase::V5Credentials,
                    None,
                    Some(Reply::Method(SOCKS5AuthReply::UserPass)),
                    Next::ReadCredentials { timeout_secs: TIMEOUT_SECS },
                ),
                Event::MethodChosen(None) => self.finish(
                    None,
                    Some(Reply::Method(SOCKS5AuthReply::Denied)),
                ),
                _ => self.finish(None, None),
            },
            Phase::V5Credentials => match ev {
                Event::Credentials(req) => {
                    let SOCKS5AuthRequest { id, pw, .. } = req;
                    let user = utf8_string(id);
                    let pass = utf8_string(pw);
                    match (user, pass) {
                        (Some(user), Some(pass)) => self.go(
                            Phase::V5Verdict,
                            Some(Message::AuthRequest(User { user, pass })),
                            None,
                            Next::AwaitCoordinator,
                        ),
                        _ => self.finish(None, Some(Reply::AuthStatus(false))),
                    }
                },
                _ => self.finish(None, None),
            },
            Phase::V5Verdict => match ev {
                Event::Verdict(true) => self.go(
                    Phase::V5Request,
                    None,
                    Some(Reply::AuthStatus(true)),
                    Next::ReadRequest { timeout_secs: TIMEOUT_SECS },
                ),
                Event::Verdict(false) => self.finish(None, Some(Reply::AuthStatus(false))),
                _ => self.finish(None, None),
            },
            Phase::V5Request => match ev {
                Event::Request(req) => match req.cmd {
                    SOCKS5Cmd::Connect => {
                        let dest = req.dest.duplicate();
                        self.go(
                            Phase::V5Connect(req.dest),
                            None,
                            None,
                            Next::Connect { dest, timeout_secs: TIMEOUT_SECS },
                        )
                    },
                    SOCKS5Cmd::Bind => self.go(
                        Phase::V5BindLookup,
                        Some(Message::Request(req.dest)),
                        None,
                        Next::AwaitCoordinator,
                    ),
                    SOCKS5Cmd::Udp => self.finish(
                        None,
                        Some(
                            Reply::V5 {
                                rep: SOCKS5ConnectReply::CommandNotSupported,
                                bound: None,
                            },
                        ),
                    ),
                },
                _ => self.finish(None, None),
            },
            Phase::V5Connect(dest) => match ev {
                Event::Connected { client_peer, client_local, remote_local, remote_peer } => {
                    let s = Session::new(client_peer, client_local, remote_local, remote_peer, dest);
                    let registered = s.duplicate();
                    self.go(
                        Phase::Relay(Some(registered)),
                        Some(Message::SessionStart(s)),
                        Some(
                            Reply::V5 {
                                rep: SOCKS5ConnectReply::Accepted,
                                bound: Some(remote_local),
                            },
                        ),
                        Next::Relay,
                    )
                },
                Event::ConnectFailed(e) => self.finish(
                    None,
                    Some(Reply::V5 { rep: connect_failure_reply(e), bound: None }),
                ),
                _ => self.finish(None, None),
            },
            Phase::V5BindLookup => match ev {
                Event::Found(Some(s)) => self.go(
                    Phase::V5BindListen,
                    None,
                    None,
                    Next::Listen(s.server2remote.ip),
                ),
                Event::Found(None) => self.finish(
                    None,
                    Some(Reply::V5 { rep: SOCKS5ConnectReply::Failure, bound: None }),
                ),
                _ => self.finish(None, None),
            },
            Phase::V5BindListen => match ev {
                Event::Listening(sa) => self.go(
                    Phase::V5BindAccept,
                    None,
                    Some(Reply::V5 { rep: SOCKS5ConnectReply::Accepted, bound: Some(sa) }),
                    Next::Accept,
                ),
                Event::ListenFailed => self.finish(
                    None,
                    Some(Reply::V5 { rep: SOCKS5ConnectReply::Failure, bound: None }),
                ),
                _ => self.finish(None, None),
            },
            Phase::V5BindAccept => match ev {
                Event::Accepted(peer) => self.go(
                    Phase::Relay(None),
                    None,
                    Some(Reply::V5 { rep: SOCKS5ConnectReply::Accepted, bound: Some(peer) }),
                    Next::Relay,
                ),
                Event::AcceptFailed => self.finish(
                    None,
                    Some(Reply::V5 { rep: SOCKS5ConnectReply::Failure, bound: None }),
                ),
                _ => self.finish(None, None),
            },
            Phase::Relay(s) => match s {
                Some(s) => self.finish(Some(Message::SessionEnd(s)), None),
                None => self.finish(None, None),
            },
            Phase::Closed => self.finish(None, None),
        }
    }
}

} // verus!
