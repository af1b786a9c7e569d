use vstd::prelude::*;

verus! {

broadcast use vstd::array::group_array_axioms;

/// An IP address, held as the octets that travel on the wire (network order).
#[derive(Debug, Clone, Copy)]
pub enum IpAddress {
    V4([u8; 4]),
    V6([u8; 16]),
}

/// An IP address and a port.
#[derive(Debug, Clone, Copy)]
pub struct SocketAddress {
    pub ip: IpAddress,
    pub port: u16,
}

/// The host part of a destination: an IP address, or a name that is handed
/// unchanged to the resolver.
#[derive(Debug, Clone)]
pub enum Address {
    Name(String),
    IP(IpAddress),
}

/// What an `Address` stands for: the octets of an IP address, or the
/// characters of a name.
pub enum AddressView {
    IPv4(Seq<u8>),
    IPv6(Seq<u8>),
    Name(Seq<char>),
}

impl View for Address {
    type V = AddressView;

    open spec fn view(&self) -> AddressView {
        match self {
            Address::Name(n) => AddressView::Name(n@),
            Address::IP(IpAddress::V4(o)) => AddressView::IPv4(o@),
            Address::IP(IpAddress::V6(o)) => AddressView::IPv6(o@),
        }
    }
}

fn octets_eq<const N: usize>(x: &[u8; N], y: &[u8; N]) -> (r: bool)
    ensures
        r == (*x == *y),
        r == (x@ == y@),
{
    let mut i: usize = 0;
    while i < N
        invariant
            i <= N,
            x@.len() == N,
            y@.len() == N,
            forall|j: int| 0 <= j < i ==> x@[j] == y@[j],
        decreases N - i,
    {
        if x[i] != y[i] {
            assert(x@[i as int] != y@[i as int]);
            return false;
        }
        i = i + 1;
    }
    assert(*x =~= *y);
    true
}

fn ip_eq(a: &IpAddress, b: &IpAddress) -> (r: bool)
    ensures
        r == (*a == *b),
        r == (Address::IP(*a)@ == Address::IP(*b)@),
{
    match (a, b) {
        (IpAddress::V4(x), IpAddress::V4(y)) => octets_eq(x, y),
        (IpAddress::V6(x), IpAddress::V6(y)) => octets_eq(x, y),
        _ => false,
    }
}

impl PartialEq for IpAddress {
    fn eq(&self, other: &IpAddress) -> (r: bool) {
        ip_eq(self, other)
    }
}

impl vstd::std_specs::cmp::PartialEqSpecImpl for IpAddress {
    open spec fn obeys_eq_spec() -> bool {
        true
    }

    open spec fn eq_spec(&self, other: &IpAddress) -> bool {
        *self == *other
    }
}

impl PartialEq for SocketAddress {
    fn eq(&self, other: &SocketAddress) -> (r: bool) {
        ip_eq(&self.ip, &other.ip) && self.port == other.port
    }
}

impl vstd::std_specs::cmp::PartialEqSpecImpl for SocketAddress {
    open spec fn obeys_eq_spec() -> bool {
        true
    }

    open spec fn eq_spec(&self, other: &SocketAddress) -> bool {
        *self == *other
    }
}

impl Address {
    /// A copy of the address, equal to it in every part.
    pub fn duplicate(&self) -> (r: Address)
        ensures
            r == *self,
    {
        match self {
            Address::Name(n) => Address::Name(n.clone()),
            Address::IP(ip) => Address::IP(*ip),
        }
    }
}

impl PartialEq for Address {
    fn eq(&self, other: &Address) -> (r: bool) {
        match (self, other) {
            (Address::Name(a), Address::Name(b)) => a.eq(b),
            (Address::IP(a), Address::IP(b)) => ip_eq(a, b),
            _ => false,
        }
    }
}

impl vstd::std_specs::cmp::PartialEqSpecImpl for Address {
    open spec fn obeys_eq_spec() -> bool {
        true
    }

    open spec fn eq_spec(&self, other: &Address) -> bool {
        self@ == other@
    }
}

/// A host and a port that a client asks to reach.
#[derive(Debug, Clone)]
pub struct Destination {
    pub addr: Address,
    pub port: u16,
}

pub struct DestinationView {
    pub addr: AddressView,
    pub port: u16,
}

impl View for Destination {
    type V = DestinationView;

    open spec fn view(&self) -> DestinationView {
        DestinationView { addr: self.addr@, port: self.port }
    }
}

impl Destination {
    /// The four octets of an IPv4 destination; `None` for any other kind.
    pub fn ipv4_slice(&self) -> (r: Option<[u8; 4]>)
        ensures
            r == (match self.addr {
                Address::IP(IpAddress::V4(o)) => Some(o),
                _ => None,
            }),
    {
        match &self.addr {
            Address::IP(IpAddress::V4(o)) => Some(*o),
            _ => None,
        }
    }

    /// The sixteen octets of an IPv6 destination; `None` for any other kind.
    pub fn ipv6_slice(&self) -> (r: Option<[u8; 16]>)
        ensures
            r == (match self.addr {
                Address::IP(IpAddress::V6(o)) => Some(o),
                _ => None,
            }),
    {
        match &self.addr {
            Address::IP(IpAddress::V6(o)) => Some(*o),
            _ => None,
        }
    }

    /// A copy of the destination, equal to it in every part.
    pub fn duplicate(&self) -> (r: Destination)
        ensures
            r == *self,
    {
        Destination { addr: self.addr.duplicate(), port: self.port }
    }

    /// Whether two destinations name the same host (by its characters or
    /// octets) and the same port.
    pub fn same_as(&self, other: &Destination) -> (r: bool)
        ensures
            r == (self@ == other@),
    {
        let same_addr = match (&self.addr, &other.addr) {
            (Address::Name(a), Address::Name(b)) => a.eq(b),
            (Address::IP(a), Address::IP(b)) => ip_eq(a, b),
            _ => false,
        };
        same_addr && self.port == other.port
    }
}

impl PartialEq for Destination {
    fn eq(&self, other: &Destination) -> (r: bool) {
        self.same_as(other)
    }
}

impl vstd::std_specs::cmp::PartialEqSpecImpl for Destination {
    open spec fn obeys_eq_spec() -> bool {
        true
    }

    open spec fn eq_spec(&self, other: &Destination) -> bool {
        self@ == other@
    }
}

/// The protocol version named by the first byte a client sends.
#[derive(Debug, Clone, Copy, PartialEq, Eq, Structural)]
pub enum SOCKS {
    V4,
    V5,
}

/// The commands of a SOCKS4 request.
#[derive(Debug, Clone, Copy, PartialEq, Eq, Structural)]
pub enum SOCKS4Cmd {
    Connect,
    Bind,
}

/// A SOCKS4 or SOCKS4a request.
#[derive(Debug)]
pub struct SOCKS4Init {
    pub cmd: SOCKS4Cmd,
    pub ident: Vec<u8>,
    pub dest: Destination,
}

pub struct SOCKS4InitView {
    pub cmd: SOCKS4Cmd,
    pub ident: Seq<u8>,
    pub dest: DestinationView,
}

impl View for SOCKS4Init {
    type V = SOCKS4InitView;

    open spec fn view(&self) -> SOCKS4InitView {
        SOCKS4InitView { cmd: self.cmd, ident: self.ident@, dest: self.dest@ }
    }
}

/// The authentication methods a SOCKS5 server can pick.
#[derive(Debug, Clone, Copy, PartialEq, Eq, Structural)]
pub enum SOCKS5AuthMethod {
    NoAuth,
    UserPass,
}

/// A SOCKS5 greeting: the methods the client offers that this server knows.
#[derive(Debug)]
pub struct SOCKS5Init {
    pub auth_methods: Vec<SOCKS5AuthMethod>,
}

impl View for SOCKS5Init {
    type V = Seq<SOCKS5AuthMethod>;

    open spec fn view(&self) -> Seq<SOCKS5AuthMethod> {
        self.auth_methods@
    }
}

/// The opening frame of a connection, of either version.
#[derive(Debug)]
pub enum SOCKSInit {
    V4(SOCKS4Init),
    V5(SOCKS5Init),
}

pub enum SOCKSInitView {
    V4(SOCKS4InitView),
    V5(Seq<SOCKS5AuthMethod>),
}

impl View for SOCKSInit {
    type V = SOCKSInitView;

    open spec fn view(&self) -> SOCKSInitView {
        match self {
            SOCKSInit::V4(i) => SOCKSInitView::V4(i@),
            SOCKSInit::V5(i) => SOCKSInitView::V5(i@),
        }
    }
}

/// A username/password sub-negotiation request, its fields as raw bytes.
#[derive(Debug)]
pub struct SOCKS5AuthRequest {
    pub ver: u8,
    pub id: Vec<u8>,
    pub pw: Vec<u8>,
}

pub struct SOCKS5AuthRequestView {
    pub ver: u8,
    pub id: Seq<u8>,
    pub pw: Seq<u8>,
}

impl View for SOCKS5AuthRequest {
    type V = SOCKS5AuthRequestView;

    open spec fn view(&self) -> SOCKS5AuthRequestView {
        SOCKS5AuthRequestView { ver: self.ver, id: self.id@, pw: self.pw@ }
    }
}

/// The byte a SOCKS5 server answers a greeting with, and the status of a
/// sub-negotiation reply.
#[derive(Debug, Clone, Copy, PartialEq, Eq, Structural)]
pub enum SOCKS5AuthReply {
    Accepted,
    UserPass,
    Denied,
}

impl SOCKS5AuthReply {
    pub open spec fn spec_code(self) -> u8 {
        match self {
            SOCKS5AuthReply::Accepted => 0,
            SOCKS5AuthReply::UserPass => 2,
            SOCKS5AuthReply::Denied => 0xFF,
        }
    }

    /// The byte that stands for this answer on the wire.
    pub fn code(&self) -> (r: u8)
        ensures
            r == self.spec_code(),
    {
        match self {
            SOCKS5AuthReply::Accepted => 0,
            SOCKS5AuthReply::UserPass => 2,
            SOCKS5AuthReply::Denied => 0xFF,
        }
    }
}

/// The commands of a SOCKS5 request.
#[derive(Debug, Clone, Copy, PartialEq, Eq, Structural)]
pub enum SOCKS5Cmd {
    Connect,
    Bind,
    Udp,
}

/// A SOCKS5 request.
#[derive(Debug)]
pub struct SOCKS5ConnectRequest {
    pub cmd: SOCKS5Cmd,
    pub dest: Destination,
}

pub struct SOCKS5ConnectRequestView {
    pub cmd: SOCKS5Cmd,
    pub dest: DestinationView,
}

impl View for SOCKS5ConnectRequest {
    type V = SOCKS5ConnectRequestView;

    open spec fn view(&self) -> SOCKS5ConnectRequestView {
        SOCKS5ConnectRequestView { cmd: self.cmd, dest: self.dest@ }
    }
}

/// The REP field of a SOCKS5 reply.
#[derive(Debug, Clone, Copy, PartialEq, Eq, Structural)]
pub enum SOCKS5ConnectReply {
    Accepted,
    Failure,
    NotAllowed,
    NetworkUnreachable,
    HostUnreachable,
    ConnectionRefused,
    TTLExpired,
    CommandNotSupported,
    AddressTypeNotSupported,
}

impl SOCKS5ConnectReply {
    pub open spec fn spec_code(self) -> u8 {
        match self {
            SOCKS5ConnectReply::Accepted => 0,
            SOCKS5ConnectReply::Failure => 1,
            SOCKS5ConnectReply::NotAllowed => 2,
            SOCKS5ConnectReply::NetworkUnreachable => 3,
            SOCKS5ConnectReply::HostUnreachable => 4,
            SOCKS5ConnectReply::ConnectionRefused => 5,
            SOCKS5ConnectReply::TTLExpired => 6,
            SOCKS5ConnectReply::CommandNotSupported => 7,
            SOCKS5ConnectReply::AddressTypeNotSupported => 8,
        }
    }

    /// The reply for a REP byte; `None` past the last code.
    pub open spec fn spec_from_code(b: u8) -> Option<SOCKS5ConnectReply> {
        if b == 0 {
            Some(SOCKS5ConnectReply::Accepted)
        } else if b == 1 {
            Some(SOCKS5ConnectReply::Failure)
        } else if b == 2 {
            Some(SOCKS5ConnectReply::NotAllowed)
        } else if b == 3 {
            Some(SOCKS5ConnectReply::NetworkUnreachable)
        } else if b == 4 {
            Some(SOCKS5ConnectReply::HostUnreachable)
        } else if b == 5 {
            Some(SOCKS5ConnectReply::ConnectionRefused)
        } else if b == 6 {
            Some(SOCKS5ConnectReply::TTLExpired)
        } else if b == 7 {
            Some(SOCKS5ConnectReply::CommandNotSupported)
        } else if b == 8 {
            Some(SOCKS5ConnectReply::AddressTypeNotSupported)
        } else {
            None
        }
    }

    /// The byte that stands for this reply on the wire.
    pub fn code(&self) -> (r: u8)
        ensures
            r == self.spec_code(),
    {
        match self {
            SOCKS5ConnectReply::Accepted => 0,
            SOCKS5ConnectReply::Failure => 1,
            SOCKS5ConnectReply::NotAllowed => 2,
            SOCKS5ConnectReply::NetworkUnreachable => 3,
            SOCKS5ConnectReply::HostUnreachable => 4,
            SOCKS5ConnectReply::ConnectionRefused => 5,
            SOCKS5ConnectReply::TTLExpired => 6,
            SOCKS5ConnectReply::CommandNotSupported => 7,
            SOCKS5ConnectReply::AddressTypeNotSupported => 8,
        }
    }
}

} // verus!
