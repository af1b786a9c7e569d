use vstd::prelude::*;
use vstd::string::StringSliceAdditionalSpecFns;
use vstd::utf8::{decode_utf8, valid_utf8};

use crate::error::MyError;
use crate::parse::utf8_string;
use crate::socks::{Destination, DestinationView, IpAddress, SOCKS5AuthMethod, SocketAddress};

verus! {

/// A username and password that may authenticate.
#[derive(Debug, Clone)]
pub struct User {
    pub user: String,
    pub pass: String,
}

pub struct UserView {
    pub user: Seq<char>,
    pub pass: Seq<char>,
}

impl View for User {
    type V = UserView;

    open spec fn view(&self) -> UserView {
        UserView { user: self.user@, pass: self.pass@ }
    }
}

impl PartialEq for User {
    fn eq(&self, other: &User) -> (r: bool) {
        self.same_as(other)
    }
}

impl vstd::std_specs::cmp::PartialEqSpecImpl for User {
    open spec fn obeys_eq_spec() -> bool {
        true
    }

    open spec fn eq_spec(&self, other: &User) -> bool {
        self@ == other@
    }
}

/// The index of the first byte `v` in `s` at or after `from`, or the length
/// of `s` where there is none.
pub open spec fn first_byte(s: Seq<u8>, v: u8, from: int) -> int
    decreases s.len() - from,
{
    if from >= s.len() {
        s.len() as int
    } else if s[from] == v {
        from
    } else {
        first_byte(s, v, from + 1)
    }
}

/// How many times `v` occurs in `s`.
pub open spec fn count_byte(s: Seq<u8>, v: u8) -> nat
    decreases s.len(),
{
    if s.len() == 0 {
        0
    } else {
        count_byte(s.drop_last(), v) + if s.last() == v {
            1nat
        } else {
            0nat
        }
    }
}

/// The byte of the character ':'.
pub const COLON: u8 = 0x3A;

proof fn lemma_count_prefix(s: Seq<u8>, v: u8, k: int)
    requires
        0 <= k < s.len(),
    ensures
        count_byte(s.subrange(0, k + 1), v) == count_byte(s.subrange(0, k), v) + if s[k] == v {
            1nat
        } else {
            0nat
        },
{
    assert(s.subrange(0, k + 1).drop_last() =~= s.subrange(0, k));
}

proof fn lemma_first_byte_counted(s: Seq<u8>, v: u8, k: int)
    requires
        0 <= k <= s.len(),
        first_byte(s, v, 0) >= k,
    ensures
        count_byte(s.subrange(0, k), v) == 0,
        forall|j: int| 0 <= j < k ==> s[j] != v,
    decreases k,
{
    if k > 0 {
        lemma_first_byte_counted(s, v, k - 1);
        lemma_count_prefix(s, v, k - 1);
        lemma_first_byte_from(s, v, 0, k - 1);
    }
}

proof fn lemma_first_byte_from(s: Seq<u8>, v: u8, from: int, j: int)
    requires
        0 <= from <= j < s.len(),
        first_byte(s, v, from) > j,
    ensures
        s[j] != v,
    decreases j - from,
{
    if from < j {
        lemma_first_byte_from(s, v, from + 1, j);
    }
}

impl User {
    /// Reads `user:pass`. The text must hold exactly one ':'; the name is what
    /// stands before it, the password what stands after it.
    pub fn from_str(s: &str) -> (r: Result<User, MyError>)
        ensures
            r is Ok <==> count_byte(s.spec_bytes(), COLON) == 1,
            r matches Ok(u) ==> {
                let b = s.spec_bytes();
                let k = first_byte(b, COLON, 0);
                &&& u.user@ == decode_utf8(b.subrange(0, k))
                &&& u.pass@ == decode_utf8(b.subrange(k + 1, b.len() as int))
            },
            r matches Ok(u) ==> s@ == u.user@ + seq![':'] + u.pass@,
            r matches Err(e) ==> e == MyError::Parse,
    {
        let b = s.as_bytes();
        let n = b.len();
        let mut colons: usize = 0;
        let mut at: usize = n;
        let mut i: usize = 0;
        proof {
            lemma_first_byte_bound(b@, COLON, 0);
        }
        while i < n
            invariant
                n == b@.len(),
                b@ == s.spec_bytes(),
                i <= n,
                colons as nat == count_byte(b@.subrange(0, i as int), COLON),
                colons <= i,
                colons == 0 ==> at == n && first_byte(b@, COLON, 0) >= i,
                colons > 0 ==> at < i && at == first_byte(b@, COLON, 0) && b@[at as int] == COLON,
            decreases n - i,
        {
            proof {
                lemma_count_prefix(b@, COLON, i as int);
                if colons == 0 {
                    lemma_first_byte_counted(b@, COLON, i as int);
                    lemma_first_from_zero(b@, COLON, i as int);
                    lemma_first_byte_bound(b@, COLON, i + 1);
                }
            }
            if b[i] == COLON {
                if colons == 0 {
                    at = i;
                }
                colons = colons + 1;
            }
            i = i + 1;
        }
        assert(b@.subrange(0, n as int) =~= b@);
        if colons != 1 {
            return Err(MyError::Parse);
        }
        proof {
            lemma_first_byte_bound(b@, COLON, 0);
            assert(b@[at as int] == COLON);
            lemma_split_at_colon(s@, at as int);
            lemma_decode_at_colon(s@, at as int);
        }
        let user = utf8_string(vstd::slice::slice_to_vec(vstd::slice::slice_subrange(b, 0, at)));
        let pass = utf8_string(vstd::slice::slice_to_vec(vstd::slice::slice_subrange(b, at + 1, n)));
        match (user, pass) {
            (Some(user), Some(pass)) => Ok(User { user, pass }),
            _ => Err(MyError::Parse),
        }
    }

    /// A copy of the user, equal to it in every part.
    pub fn duplicate(&self) -> (r: User)
        ensures
            r == *self,
    {
        User { user: self.user.clone(), pass: self.pass.clone() }
    }

    /// Whether both name and password are the same characters.
    pub fn same_as(&self, other: &User) -> (r: bool)
        ensures
            r == (self@ == other@),
    {
        self.user.eq(&other.user) && self.pass.eq(&other.pass)
    }
}

proof fn lemma_first_byte_bound(s: Seq<u8>, v: u8, from: int)
    requires
        0 <= from <= s.len(),
    ensures
        from <= first_byte(s, v, from) <= s.len(),
    decreases s.len() - from,
{
    if from < s.len() {
        lemma_first_byte_bound(s, v, from + 1);
    }
}

/// Splitting valid UTF-8 around a ':' leaves valid UTF-8 on both sides.
proof fn lemma_split_at_colon(s: Seq<char>, at: int)
    requires
        0 <= at < vstd::utf8::encode_utf8(s).len(),
        vstd::utf8::encode_utf8(s)[at] == COLON,
    ensures
        valid_utf8(vstd::utf8::encode_utf8(s).subrange(0, at)),
        valid_utf8(
            vstd::utf8::encode_utf8(s).subrange(at + 1, vstd::utf8::encode_utf8(s).len() as int),
        ),
{
    let bs = vstd::utf8::encode_utf8(s);
    let n = bs.len() as int;
    vstd::utf8::encode_utf8_valid_utf8(s);
    vstd::utf8::is_char_boundary_iff_is_leading_byte(bs, at);
    vstd::utf8::valid_utf8_split(bs, at);
    let rest = bs.subrange(at, n);
    assert(rest[0] == COLON);
    assert(vstd::utf8::pop_first_scalar(rest) =~= bs.subrange(at + 1, n));
}

/// Decoding UTF-8 around a ':' gives the characters on each side of it.
proof fn lemma_decode_at_colon(s: Seq<char>, at: int)
    requires
        0 <= at < vstd::utf8::encode_utf8(s).len(),
        vstd::utf8::encode_utf8(s)[at] == COLON,
    ensures
        s == decode_utf8(vstd::utf8::encode_utf8(s).subrange(0, at)) + seq![':'] + decode_utf8(
            vstd::utf8::encode_utf8(s).subrange(at + 1, vstd::utf8::encode_utf8(s).len() as int),
        ),
{
    let bs = vstd::utf8::encode_utf8(s);
    let n = bs.len() as int;
    lemma_split_at_colon(s, at);
    vstd::utf8::encode_utf8_valid_utf8(s);
    vstd::utf8::encode_utf8_decode_utf8(s);
    vstd::utf8::is_char_boundary_iff_is_leading_byte(bs, at);
    vstd::utf8::decode_utf8_split(bs, at);
    let rest = bs.subrange(at, n);
    assert(rest[0] == COLON);
    assert(vstd::utf8::pop_first_scalar(rest) =~= bs.subrange(at + 1, n));
    assert((COLON & 0x7f) == 0x3a) by (bit_vector);
    assert(vstd::utf8::decode_first_scalar(rest) == 0x3a);
    assert((0x3au32 as char) == ':');
    assert(decode_utf8(rest) =~= seq![':'] + decode_utf8(bs.subrange(at + 1, n)));
    assert(s =~= decode_utf8(bs.subrange(0, at)) + seq![':'] + decode_utf8(bs.subrange(at + 1, n)));
}

proof fn lemma_first_from_zero(s: Seq<u8>, v: u8, i: int)
    requires
        0 <= i < s.len(),
        first_byte(s, v, 0) >= i,
        forall|j: int| 0 <= j < i ==> s[j] != v,
    ensures
        first_byte(s, v, 0) == first_byte(s, v, i),
    decreases i,
{
    if i > 0 {
        lemma_first_from_zero(s, v, i - 1);
    }
}

/// The settings that the server runs with.
#[derive(Debug)]
pub struct Args {
    /// Address to listen on.
    pub ip: IpAddress,
    /// Port to listen on.
    pub port: u16,
    /// Serve SOCKS4 and SOCKS4a.
    pub socks4: bool,
    /// Serve SOCKS5.
    pub socks5: bool,
    /// Ask SOCKS5 clients for a username and password.
    pub auth: bool,
    /// The accepted credentials.
    pub users: Option<Vec<User>>,
}

/// The record of one successful SOCKS5 CONNECT: the four ends of its two
/// connections and the destination that was asked for.
#[derive(Debug, Clone)]
pub struct Session {
    pub client2server: SocketAddress,
    pub server2client: SocketAddress,
    pub server2remote: SocketAddress,
    pub remote2server: SocketAddress,
    pub destination: Destination,
}

/// Two sessions are the same when their four addresses and the characters or
/// octets of their destinations agree.
pub open spec fn same_session(a: Session, b: Session) -> bool {
    &&& a.client2server == b.client2server
    &&& a.server2client == b.server2client
    &&& a.server2remote == b.server2remote
    &&& a.remote2server == b.remote2server
    &&& a.destination@ == b.destination@
}

impl Session {
    pub fn new(
        client2server: SocketAddress,
        server2client: SocketAddress,
        server2remote: SocketAddress,
        remote2server: SocketAddress,
        destination: Destination,
    ) -> (r: Session)
        ensures
            r == (Session {
                client2server,
                server2client,
                server2remote,
                remote2server,
                destination,
            }),
    {
        Session { client2server, server2client, server2remote, remote2server, destination }
    }

    /// A copy of the session, equal to it in every part.
    pub fn duplicate(&self) -> (r: Session)
        ensures
            r == *self,
    {
        Session {
            client2server: self.client2server,
            server2client: self.server2client,
            server2remote: self.server2remote,
            remote2server: self.remote2server,
            destination: self.destination.duplicate(),
        }
    }

    pub fn same_as(&self, other: &Session) -> (r: bool)
        ensures
            r == same_session(*self, *other),
    {
        self.client2server == other.client2server && self.server2client == other.server2client
            && self.server2remote == other.server2remote && self.remote2server
            == other.remote2server && self.destination.same_as(&other.destination)
    }
}

impl PartialEq for Session {
    fn eq(&self, other: &Session) -> (r: bool) {
        self.same_as(other)
    }
}

impl vstd::std_specs::cmp::PartialEqSpecImpl for Session {
    open spec fn obeys_eq_spec() -> bool {
        true
    }

    open spec fn eq_spec(&self, other: &Session) -> bool {
        same_session(*self, *other)
    }
}

/// What handlers and the coordinator tell each other.
#[derive(Debug, Clone)]
pub enum Message {
    /// A CONNECT succeeded and its relay begins.
    SessionStart(Session),
    /// The relay of a session is over.
    SessionEnd(Session),
    /// Which active session leads to this destination?
    Request(Destination),
    /// The answer to a `Request`.
    Reply(Destination, Option<Session>),
    /// Which of these methods shall the client use?
    AuthMethodReq(Vec<SOCKS5AuthMethod>),
    /// The answer to an `AuthMethodReq`.
    AuthMethodReply(Vec<SOCKS5AuthMethod>, Option<SOCKS5AuthMethod>),
    /// May these credentials pass?
    AuthRequest(User),
    /// The answer to an `AuthRequest`.
    AuthReply(User, bool),
}

/// The index of the first session in `s` that leads to `d`, or the length of
/// `s` where none does.
pub open spec fn first_session_to(s: Seq<Session>, d: DestinationView, from: int) -> int
    decreases s.len() - from,
{
    if from >= s.len() {
        s.len() as int
    } else if s[from].destination@ == d {
        from
    } else {
        first_session_to(s, d, from + 1)
    }
}

/// The index of the first session in `s` that is the same as `x`, or the
/// length of `s` where none is.
pub open spec fn first_same_session(s: Seq<Session>, x: Session, from: int) -> int
    decreases s.len() - from,
{
    if from >= s.len() {
        s.len() as int
    } else if same_session(s[from], x) {
        from
    } else {
        first_same_session(s, x, from + 1)
    }
}

/// The method picked for a greeting: no authentication where none is
/// required and the client offers it; username/password where it is
/// required and offered; else none.
pub open spec fn chosen_method(methods: Seq<SOCKS5AuthMethod>, require_auth: bool) -> Option<
    SOCKS5AuthMethod,
> {
    if !require_auth && methods.contains(SOCKS5AuthMethod::NoAuth) {
        Some(SOCKS5AuthMethod::NoAuth)
    } else if require_auth && methods.contains(SOCKS5AuthMethod::UserPass) {
        Some(SOCKS5AuthMethod::UserPass)
    } else {
        None
    }
}

/// Whether the configured users hold one with exactly these credentials.
pub open spec fn user_allowed(users: Option<Vec<User>>, u: UserView) -> bool {
    match users {
        Some(v) => users_contain(v@, u),
        None => false,
    }
}

/// Whether one of `users` has exactly these credentials.
pub open spec fn users_contain(users: Seq<User>, u: UserView) -> bool {
    exists|i: int| 0 <= i < users.len() && (#[trigger] users[i])@ == u
}

/// The sessions `s` after a `SessionEnd` for `x`: the first one that is the
/// same as `x` leaves, its place taken by the last.
pub open spec fn end_session(s: Seq<Session>, x: Session) -> Seq<Session> {
    let i = first_same_session(s, x, 0);
    if i < s.len() {
        s.update(i, s.last()).drop_last()
    } else {
        s
    }
}

/// The coordinator: the active sessions and the settings.
pub struct Server {
    active_sessions: Vec<Session>,
    args: Args,
}

/// What the coordinator does on one message: how its sessions change and
/// what it answers.
pub open spec fn handled(
    sessions: Seq<Session>,
    args: Args,
    msg: Message,
    after: Seq<Session>,
    r: Option<Message>,
) -> bool {
    match msg {
        Message::SessionStart(s) => after == sessions.push(s) && r is None,
        Message::SessionEnd(s) => after == end_session(sessions, s) && r is None,
        Message::Request(d) => {
            let i = first_session_to(sessions, d@, 0);
            &&& after == sessions
            &&& r == Some(
                Message::Reply(
                    d,
                    if i < sessions.len() {
                        Some(sessions[i])
                    } else {
                        None
                    },
                ),
            )
        },
        Message::AuthMethodReq(ms) => after == sessions && r == Some(
            Message::AuthMethodReply(ms, chosen_method(ms@, args.auth)),
        ),
        Message::AuthRequest(u) => after == sessions && r == Some(
            Message::AuthReply(u, user_allowed(args.users, u@)),
        ),
        _ => after == sessions && r is None,
    }
}

impl Server {
    /// The active sessions, in the order the coordinator keeps them.
    pub closed spec fn sessions(&self) -> Seq<Session> {
        self.active_sessions@
    }

    /// The settings the coordinator was made with.
    pub closed spec fn config(&self) -> Args {
        self.args
    }

    /// A coordinator with no active session.
    pub fn new(args: Args) -> (r: Server)
        ensures
            r.sessions() == Seq::<Session>::empty(),
            r.config() == args,
    {
        Server { active_sessions: Vec::new(), args }
    }

    /// The active sessions.
    pub fn active(&self) -> (r: &[Session])
        ensures
            r@ == self.sessions(),
    {
        self.active_sessions.as_slice()
    }

    fn find_session_to(&self, d: &Destination) -> (i: usize)
        ensures
            i == first_session_to(self.sessions(), d@, 0),
    {
        let s = &self.active_sessions;
        let mut i: usize = 0;
        while i < s.len()
            invariant
                i <= s@.len(),
                s@ == self.sessions(),
                first_session_to(s@, d@, 0) == first_session_to(s@, d@, i as int),
            decreases s@.len() - i,
        {
            if s[i].destination.same_as(d) {
                return i;
            }
            i = i + 1;
        }
        i
    }

    fn find_same_session(&self, x: &Session) -> (i: usize)
        ensures
            i == first_same_session(self.sessions(), *x, 0),
    {
        let s = &self.active_sessions;
        let mut i: usize = 0;
        while i < s.len()
            invariant
                i <= s@.len(),
                s@ == self.sessions(),
                first_same_session(s@, *x, 0) == first_same_session(s@, *x, i as int),
            decreases s@.len() - i,
        {
            if s[i].same_as(x) {
                return i;
            }
            i = i + 1;
        }
        i
    }

    fn user_known(&self, u: &User) -> (r: bool)
        ensures
            r == user_allowed(self.config().users, u@),
    {
        match &self.args.users {
            None => false,
            Some(v) => {
                let mut i: usize = 0;
                while i < v.len()
                    invariant
                        i <= v@.len(),
                        self.args.users == Some(*v),
                        forall|j: int| 0 <= j < i ==> (#[trigger] v@[j])@ != u@,
                    decreases v@.len() - i,
                {
                    if v[i].same_as(u) {
                        assert(v@[i as int]@ == u@);
                        assert(users_contain(v@, u@));
                        return true;
                    }
                    i = i + 1;
                }
                false
            },
        }
    }

    /// Acts on one message: keeps the session list, and answers requests.
    pub fn handle(&mut self, msg: Message) -> (r: Option<Message>)
        ensures
            handled(old(self).sessions(), old(self).config(), msg, final(self).sessions(), r),
            final(self).config() == old(self).config(),
    {
        match msg {
            Message::SessionStart(s) => {
                self.active_sessions.push(s);
                None
            },
            Message::SessionEnd(s) => {
                let i = self.find_same_session(&s);
                if i < self.active_sessions.len() {
                    self.active_sessions.swap_remove(i);
                }
                None
            },
            Message::Request(d) => {
                let i = self.find_session_to(&d);
                if i < self.active_sessions.len() {
                    let found = self.active_sessions[i].duplicate();
                    Some(Message::Reply(d, Some(found)))
                } else {
                    Some(Message::Reply(d, None))
                }
            },
            Message::AuthMethodReq(ms) => {
                let chosen = choose_method(&ms, self.args.auth);
                Some(Message::AuthMethodReply(ms, chosen))
            },
            Message::AuthRequest(u) => {
                let ok = self.user_known(&u);
                Some(Message::AuthReply(u, ok))
            },
            Message::Reply(..) | Message::AuthMethodReply(..) | Message::AuthReply(..) => None,
        }
    }
}

proof fn lemma_first_same_bound(s: Seq<Session>, x: Session, from: int)
    requires
        0 <= from <= s.len(),
    ensures
        from <= first_same_session(s, x, from) <= s.len(),
    decreases s.len() - from,
{
    if from < s.len() {
        lemma_first_same_bound(s, x, from + 1);
    }
}

/// Two sessions that differ in at least one of their four socket addresses.
pub open spec fn distinguishable(a: Session, b: Session) -> bool {
    ||| a.client2server != b.client2server
    ||| a.server2client != b.server2client
    ||| a.server2remote != b.server2remote
    ||| a.remote2server != b.remote2server
}

/// No two sessions of `s` agree in all four socket addresses.
pub open spec fn all_distinguishable(s: Seq<Session>) -> bool {
    forall|i: int, j: int|
        0 <= i < j < s.len() ==> distinguishable(#[trigger] s[i], #[trigger] s[j])
}

/// The active sessions never hold two that no socket address tells apart:
/// no message breaks this, so long as a session that starts differs in some
/// socket address from each active one.
pub proof fn lemma_sessions_distinguishable(
    sessions: Seq<Session>,
    args: Args,
    msg: Message,
    after: Seq<Session>,
    r: Option<Message>,
)
    requires
        handled(sessions, args, msg, after, r),
        all_distinguishable(sessions),
        msg matches Message::SessionStart(s) ==> forall|i: int|
            0 <= i < sessions.len() ==> distinguishable(#[trigger] sessions[i], s),
    ensures
        all_distinguishable(after),
{
    match msg {
        Message::SessionStart(s) => {
            assert forall|i: int, j: int| 0 <= i < j < after.len() implies distinguishable(
                #[trigger] after[i],
                #[trigger] after[j],
            ) by {
                if j == sessions.len() {
                    assert(distinguishable(sessions[i], s));
                } else {
                    assert(distinguishable(sessions[i], sessions[j]));
                }
            }
        },
        Message::SessionEnd(s) => {
            let k = first_same_session(sessions, s, 0);
            lemma_first_same_bound(sessions, s, 0);
            if k < sessions.len() {
                let last = sessions.len() - 1;
                assert forall|i: int, j: int| 0 <= i < j < after.len() implies distinguishable(
                    #[trigger] after[i],
                    #[trigger] after[j],
                ) by {
                    let oi = if i == k {
                        last
                    } else {
                        i
                    };
                    let oj = if j == k {
                        last
                    } else {
                        j
                    };
                    assert(after[i] == sessions[oi]);
                    assert(after[j] == sessions[oj]);
                    if oi < oj {
                        assert(distinguishable(sessions[oi], sessions[oj]));
                    } else {
                        assert(distinguishable(sessions[oj], sessions[oi]));
                    }
                }
            }
        },
        _ => {},
    }
}

fn offers(ms: &Vec<SOCKS5AuthMethod>, m: SOCKS5AuthMethod) -> (r: bool)
    ensures
        r == ms@.contains(m),
{
    let mut i: usize = 0;
    while i < ms.len()
        invariant
            i <= ms@.len(),
            forall|j: int| 0 <= j < i ==> ms@[j] != m,
        decreases ms@.len() - i,
    {
        if ms[i] == m {
            return true;
        }
        i = i + 1;
    }
    false
}

/// Picks the method for a greeting (see `chosen_method`).
pub fn choose_method(ms: &Vec<SOCKS5AuthMethod>, require_auth: bool) -> (r: Option<
    SOCKS5AuthMethod,
>)
    ensures
        r == chosen_method(ms@, require_auth),
{
    if !require_auth && offers(ms, SOCKS5AuthMethod::NoAuth) {
        Some(SOCKS5AuthMethod::NoAuth)
    } else if require_auth && offers(ms, SOCKS5AuthMethod::UserPass) {
        Some(SOCKS5AuthMethod::UserPass)
    } else {
        None
    }
}

} // verus!
