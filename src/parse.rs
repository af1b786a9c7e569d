use vstd::prelude::*;
use vstd::slice::{slice_subrange, slice_to_vec};
use vstd::utf8::{decode_utf8, encode_utf8, valid_utf8};

use crate::wire::{hi_byte, lo_byte};
use crate::socks::{
    Address, AddressView, Destination, DestinationView, IpAddress, SOCKS, SOCKS4Cmd, SOCKS4Init,
    SOCKS4InitView, SOCKS5AuthMethod, SOCKS5AuthRequest, SOCKS5AuthRequestView, SOCKS5Cmd,
    SOCKS5ConnectRequest, SOCKS5ConnectRequestView, SOCKS5Init, SOCKSInit, SOCKSInitView,
};

verus! {

broadcast use vstd::array::group_array_axioms;

/// The outcome of reading one frame from the bytes received so far.
#[derive(Debug)]
pub enum Parsed<T> {
    /// The bytes are exactly one frame.
    Done(T),
    /// The bytes so far are the start of a frame: wait for more.
    Incomplete,
    /// The bytes can never become a frame.
    Invalid,
}

impl<T: View> View for Parsed<T> {
    type V = Parsed<T::V>;

    open spec fn view(&self) -> Parsed<T::V> {
        match self {
            Parsed::Done(t) => Parsed::Done(t@),
            Parsed::Incomplete => Parsed::Incomplete,
            Parsed::Invalid => Parsed::Invalid,
        }
    }
}

/// A big-endian 16-bit integer.
pub open spec fn be16(hi: u8, lo: u8) -> u16 {
    (hi as int * 256 + lo as int) as u16
}

/// The index of the first zero byte of `s` at or after `from`, or the length
/// of `s` where there is none.
pub open spec fn first_null(s: Seq<u8>, from: int) -> int
    decreases s.len() - from,
{
    if from >= s.len() {
        s.len() as int
    } else if s[from] == 0 {
        from
    } else {
        first_null(s, from + 1)
    }
}

/// An IPv4 address of the form 0.0.0.x with x non-zero, which announces a
/// SOCKS4a domain name.
pub open spec fn is_socks4a(ip: Seq<u8>) -> bool {
    ip[0] == 0 && ip[1] == 0 && ip[2] == 0 && ip[3] != 0
}

/// The methods of a greeting that this server knows, in the order offered.
pub open spec fn known_methods(s: Seq<u8>) -> Seq<SOCKS5AuthMethod>
    decreases s.len(),
{
    if s.len() == 0 {
        Seq::empty()
    } else {
        let rest = known_methods(s.drop_last());
        if s.last() == 0 {
            rest.push(SOCKS5AuthMethod::NoAuth)
        } else if s.last() == 2 {
            rest.push(SOCKS5AuthMethod::UserPass)
        } else {
            rest
        }
    }
}

/// A SOCKS4 request: VER CMD DSTPORT DSTIP USERID NUL, and for SOCKS4a a
/// domain name and NUL after it. Nothing may follow.
pub open spec fn spec_socks4_init(i: Seq<u8>) -> Parsed<SOCKSInitView> {
    if i.len() < 2 {
        Parsed::Incomplete
    } else if i[1] != 1 && i[1] != 2 {
        Parsed::Invalid
    } else if i.len() < 8 {
        Parsed::Incomplete
    } else {
        let u = first_null(i, 8);
        let cmd = if i[1] == 1 {
            SOCKS4Cmd::Connect
        } else {
            SOCKS4Cmd::Bind
        };
        let port = be16(i[2], i[3]);
        let ip = i.subrange(4, 8);
        let ident = i.subrange(8, u);
        if u >= i.len() {
            Parsed::Incomplete
        } else if is_socks4a(ip) {
            let d = first_null(i, u + 1);
            let domain = i.subrange(u + 1, d);
            if d >= i.len() {
                Parsed::Incomplete
            } else if d + 1 != i.len() {
                Parsed::Invalid
            } else if !valid_utf8(domain) {
                Parsed::Invalid
            } else {
                Parsed::Done(
                    SOCKSInitView::V4(
                        SOCKS4InitView {
                            cmd,
                            ident,
                            dest: DestinationView { addr: AddressView::Name(decode_utf8(domain)), port },
                        },
                    ),
                )
            }
        } else if u + 1 != i.len() {
            Parsed::Invalid
        } else {
            Parsed::Done(
                SOCKSInitView::V4(
                    SOCKS4InitView {
                        cmd,
                        ident,
                        dest: DestinationView { addr: AddressView::IPv4(ip), port },
                    },
                ),
            )
        }
    }
}

/// A SOCKS5 greeting: VER NMETHODS METHODS. Nothing may follow.
pub open spec fn spec_socks5_init(i: Seq<u8>) -> Parsed<SOCKSInitView> {
    if i.len() < 2 {
        Parsed::Incomplete
    } else if i.len() < 2 + i[1] {
        Parsed::Incomplete
    } else if i.len() > 2 + i[1] {
        Parsed::Invalid
    } else {
        Parsed::Done(SOCKSInitView::V5(known_methods(i.subrange(2, i.len() as int))))
    }
}

/// The opening frame of a connection, by its version byte.
pub open spec fn spec_socks_init(i: Seq<u8>) -> Parsed<SOCKSInitView> {
    if i.len() == 0 {
        Parsed::Incomplete
    } else if i[0] == 4 {
        spec_socks4_init(i)
    } else if i[0] == 5 {
        spec_socks5_init(i)
    } else {
        Parsed::Invalid
    }
}

/// A sub-negotiation request: VER(=1) ULEN USERNAME PLEN PASSWORD. Nothing may
/// follow.
pub open spec fn spec_socks5_auth_request(i: Seq<u8>) -> Parsed<SOCKS5AuthRequestView> {
    if i.len() == 0 {
        Parsed::Incomplete
    } else if i[0] != 1 {
        Parsed::Invalid
    } else if i.len() < 2 {
        Parsed::Incomplete
    } else if i.len() < 3 + i[1] {
        Parsed::Incomplete
    } else {
        let ulen = i[1] as int;
        let plen = i[2 + ulen] as int;
        if i.len() < 3 + ulen + plen {
            Parsed::Incomplete
        } else if i.len() > 3 + ulen + plen {
            Parsed::Invalid
        } else {
            Parsed::Done(
                SOCKS5AuthRequestView {
                    ver: 1,
                    id: i.subrange(2, 2 + ulen),
                    pw: i.subrange(3 + ulen, 3 + ulen + plen),
                },
            )
        }
    }
}

/// The command a SOCKS5 CMD byte names.
pub open spec fn socks5_cmd_of(b: u8) -> SOCKS5Cmd {
    if b == 1 {
        SOCKS5Cmd::Connect
    } else if b == 2 {
        SOCKS5Cmd::Bind
    } else {
        SOCKS5Cmd::Udp
    }
}

/// A SOCKS5 request: VER(=5) CMD RSV(=0) ATYP DSTADDR DSTPORT. Nothing may
/// follow.
pub open spec fn spec_socks5_connection_request(i: Seq<u8>) -> Parsed<SOCKS5ConnectRequestView> {
    if i.len() == 0 {
        Parsed::Incomplete
    } else if i[0] != 5 {
        Parsed::Invalid
    } else if i.len() < 2 {
        Parsed::Incomplete
    } else if i[1] != 1 && i[1] != 2 && i[1] != 3 {
        Parsed::Invalid
    } else if i.len() < 3 {
        Parsed::Incomplete
    } else if i[2] != 0 {
        Parsed::Invalid
    } else if i.len() < 4 {
        Parsed::Incomplete
    } else if i[3] == 1 {
        if i.len() < 10 {
            Parsed::Incomplete
        } else if i.len() > 10 {
            Parsed::Invalid
        } else {
            Parsed::Done(
                SOCKS5ConnectRequestView {
                    cmd: socks5_cmd_of(i[1]),
                    dest: DestinationView {
                        addr: AddressView::IPv4(i.subrange(4, 8)),
                        port: be16(i[8], i[9]),
                    },
                },
            )
        }
    } else if i[3] == 4 {
        if i.len() < 22 {
            Parsed::Incomplete
        } else if i.len() > 22 {
            Parsed::Invalid
        } else {
            Parsed::Done(
                SOCKS5ConnectRequestView {
                    cmd: socks5_cmd_of(i[1]),
                    dest: DestinationView {
                        addr: AddressView::IPv6(i.subrange(4, 20)),
                        port: be16(i[20], i[21]),
                    },
                },
            )
        }
    } else if i[3] == 3 {
        if i.len() < 5 {
            Parsed::Incomplete
        } else {
            let n = i[4] as int;
            let name = i.subrange(5, 5 + n);
            if i.len() < 5 + n {
                Parsed::Incomplete
            } else if !valid_utf8(name) {
                Parsed::Invalid
            } else if i.len() < 7 + n {
                Parsed::Incomplete
            } else if i.len() > 7 + n {
                Parsed::Invalid
            } else {
                Parsed::Done(
                    SOCKS5ConnectRequestView {
                        cmd: socks5_cmd_of(i[1]),
                        dest: DestinationView {
                            addr: AddressView::Name(decode_utf8(name)),
                            port: be16(i[5 + n], i[6 + n]),
                        },
                    },
                )
            }
        }
    } else {
        Parsed::Invalid
    }
}

/// A SOCKS5 request that parses names an address of the kind that its ATYP
/// byte gives: four octets for 1, a name for 3, sixteen octets for 4.
pub proof fn lemma_request_address_family(i: Seq<u8>)
    requires
        spec_socks5_connection_request(i) is Done,
    ensures
        match spec_socks5_connection_request(i)->Done_0.dest.addr {
            AddressView::IPv4(o) => i[3] == 1 && o.len() == 4,
            AddressView::Name(_) => i[3] == 3,
            AddressView::IPv6(o) => i[3] == 4 && o.len() == 16,
        },
{
}

/// The CMD byte of a SOCKS5 command.
pub open spec fn cmd_byte(c: SOCKS5Cmd) -> u8 {
    match c {
        SOCKS5Cmd::Connect => 1,
        SOCKS5Cmd::Bind => 2,
        SOCKS5Cmd::Udp => 3,
    }
}

/// A request that fits its frame: an IPv4 address of four octets, an IPv6
/// address of sixteen, a name of at most 255 bytes.
pub open spec fn well_formed_request(r: SOCKS5ConnectRequestView) -> bool {
    match r.dest.addr {
        AddressView::IPv4(o) => o.len() == 4,
        AddressView::IPv6(o) => o.len() == 16,
        AddressView::Name(n) => encode_utf8(n).len() <= 255,
    }
}

/// The bytes of a SOCKS5 request frame.
pub open spec fn request_bytes(r: SOCKS5ConnectRequestView) -> Seq<u8> {
    seq![5u8, cmd_byte(r.cmd), 0u8] + match r.dest.addr {
        AddressView::IPv4(o) => seq![1u8] + o,
        AddressView::IPv6(o) => seq![4u8] + o,
        AddressView::Name(n) => seq![3u8, encode_utf8(n).len() as u8] + encode_utf8(n),
    } + seq![hi_byte(r.dest.port), lo_byte(r.dest.port)]
}

/// Every well-formed SOCKS5 request reads back from its frame unchanged.
pub proof fn lemma_request_round_trip(r: SOCKS5ConnectRequestView)
    requires
        well_formed_request(r),
    ensures
        spec_socks5_connection_request(request_bytes(r)) == Parsed::Done(r),
{
    let i = request_bytes(r);
    assert(be16(hi_byte(r.dest.port), lo_byte(r.dest.port)) == r.dest.port);
    match r.dest.addr {
        AddressView::IPv4(o) => {
            assert(i.subrange(4, 8) =~= o);
        },
        AddressView::IPv6(o) => {
            assert(i.subrange(4, 20) =~= o);
        },
        AddressView::Name(n) => {
            let b = encode_utf8(n);
            assert(i.subrange(5, 5 + b.len() as int) =~= b);
            vstd::utf8::encode_utf8_valid_utf8(n);
            vstd::utf8::encode_utf8_decode_utf8(n);
        },
    }
}

/// Relies on String::from_utf8: it succeeds exactly on valid UTF-8, and the
/// string then holds the characters that the bytes encode.
#[verifier::external_body]
pub(crate) fn utf8_string(b: Vec<u8>) -> (r: Option<String>)
    ensures
        r is Some <==> valid_utf8(b@),
        r matches Some(s) ==> s@ == decode_utf8(b@),
{
    String::from_utf8(b).ok()
}

fn read_be16(hi: u8, lo: u8) -> (r: u16)
    ensures
        r == be16(hi, lo),
{
    (hi as u16) * 256 + (lo as u16)
}

/// The index of the first zero byte at or after `from`, or the length.
fn take_until_null(i: &[u8], from: usize) -> (k: usize)
    requires
        from <= i@.len(),
    ensures
        k == first_null(i@, from as int),
        from <= k <= i@.len(),
{
    let mut k = from;
    while k < i.len()
        invariant
            from <= k <= i@.len(),
            first_null(i@, from as int) == first_null(i@, k as int),
        decreases i@.len() - k,
    {
        if i[k] == 0 {
            return k;
        }
        k = k + 1;
    }
    k
}

fn take_vec(i: &[u8], from: usize, to: usize) -> (r: Vec<u8>)
    requires
        from <= to <= i@.len(),
    ensures
        r@ == i@.subrange(from as int, to as int),
{
    slice_to_vec(slice_subrange(i, from, to))
}

fn take_ipv4(i: &[u8], from: usize) -> (r: [u8; 4])
    requires
        from + 4 <= i@.len(),
    ensures
        r@ == i@.subrange(from as int, from + 4),
{
    let r = [i[from], i[from + 1], i[from + 2], i[from + 3]];
    assert(r@ =~= i@.subrange(from as int, from + 4));
    r
}

fn take_ipv6(i: &[u8], from: usize) -> (r: [u8; 16])
    requires
        from + 16 <= i@.len(),
    ensures
        r@ == i@.subrange(from as int, from + 16),
{
    let mut r = [0u8; 16];
    let n = i.len();
    let mut k: usize = 0;
    while k < 16
        invariant
            k <= 16,
            n == i@.len(),
            from + 16 <= i@.len(),
            r@.len() == 16,
            forall|j: int| 0 <= j < k ==> r@[j] == i@[from + j],
        decreases 16 - k,
    {
        r[k] = i[from + k];
        k = k + 1;
    }
    assert(r@ =~= i@.subrange(from as int, from + 16));
    r
}

fn socks5_auth_methods(raw: &[u8], from: usize) -> (r: Vec<SOCKS5AuthMethod>)
    requires
        from <= raw@.len(),
    ensures
        r@ == known_methods(raw@.subrange(from as int, raw@.len() as int)),
{
    let mut ret: Vec<SOCKS5AuthMethod> = Vec::new();
    let mut k = from;
    while k < raw.len()
        invariant
            from <= k <= raw@.len(),
            ret@ == known_methods(raw@.subrange(from as int, k as int)),
        decreases raw@.len() - k,
    {
        let m = raw[k];
        proof {
            let s = raw@.subrange(from as int, k + 1);
            assert(s.drop_last() =~= raw@.subrange(from as int, k as int));
        }
        if m == 0 {
            ret.push(SOCKS5AuthMethod::NoAuth);
        } else if m == 2 {
            ret.push(SOCKS5AuthMethod::UserPass);
        }
        k = k + 1;
    }
    ret
}

fn socks4_init(i: &[u8]) -> (r: Parsed<SOCKSInit>)
    requires
        i@.len() >= 1,
        i@[0] == 4,
    ensures
        r@ == spec_socks4_init(i@),
{
    if i.len() < 2 {
        return Parsed::Incomplete;
    }
    if i[1] != 1 && i[1] != 2 {
        return Parsed::Invalid;
    }
    if i.len() < 8 {
        return Parsed::Incomplete;
    }
    let cmd = if i[1] == 1 {
        SOCKS4Cmd::Connect
    } else {
        SOCKS4Cmd::Bind
    };
    let port = read_be16(i[2], i[3]);
    let ip = take_ipv4(i, 4);
    let u = take_until_null(i, 8);
    if u >= i.len() {
        return Parsed::Incomplete;
    }
    let ident = take_vec(i, 8, u);
    if ip[0] == 0 && ip[1] == 0 && ip[2] == 0 && ip[3] != 0 {
        let d = take_until_null(i, u + 1);
        if d >= i.len() {
            return Parsed::Incomplete;
        }
        if d + 1 != i.len() {
            return Parsed::Invalid;
        }
        match utf8_string(take_vec(i, u + 1, d)) {
            Some(name) => Parsed::Done(
                SOCKSInit::V4(
                    SOCKS4Init { cmd, ident, dest: Destination { addr: Address::Name(name), port } },
                ),
            ),
            None => Parsed::Invalid,
        }
    } else if u + 1 != i.len() {
        Parsed::Invalid
    } else {
        Parsed::Done(
            SOCKSInit::V4(
                SOCKS4Init {
                    cmd,
                    ident,
                    dest: Destination { addr: Address::IP(IpAddress::V4(ip)), port },
                },
            ),
        )
    }
}

/// The protocol version a first byte names.
fn socks_ver(b: u8) -> (r: Option<SOCKS>)
    ensures
        r == (if b == 4 {
            Some(SOCKS::V4)
        } else if b == 5 {
            Some(SOCKS::V5)
        } else {
            None
        }),
{
    if b == 4 {
        Some(SOCKS::V4)
    } else if b == 5 {
        Some(SOCKS::V5)
    } else {
        None
    }
}

/// Reads the opening frame of a connection: a SOCKS4/4a request or a SOCKS5
/// greeting, according to its first byte.
pub fn socks_init(input: &[u8]) -> (r: Parsed<SOCKSInit>)
    ensures
        r@ == spec_socks_init(input@),
{
    if input.len() == 0 {
        return Parsed::Incomplete;
    }
    match socks_ver(input[0]) {
        Some(SOCKS::V4) => socks4_init(input),
        Some(SOCKS::V5) => socks5_init(input),
        None => Parsed::Invalid,
    }
}

fn socks5_init(input: &[u8]) -> (r: Parsed<SOCKSInit>)
    requires
        input@.len() >= 1,
        input@[0] == 5,
    ensures
        r@ == spec_socks5_init(input@),
{
    if input.len() < 2 {
        return Parsed::Incomplete;
    }
    let n = input[1] as usize;
    if input.len() < 2 + n {
        Parsed::Incomplete
    } else if input.len() > 2 + n {
        Parsed::Invalid
    } else {
        let auth_methods = socks5_auth_methods(input, 2);
        Parsed::Done(SOCKSInit::V5(SOCKS5Init { auth_methods }))
    }
}

/// Reads a username/password sub-negotiation request.
pub fn socks5_auth_request(input: &[u8]) -> (r: Parsed<SOCKS5AuthRequest>)
    ensures
        r@ == spec_socks5_auth_request(input@),
{
    let i = input;
    if i.len() == 0 {
        return Parsed::Incomplete;
    }
    if i[0] != 1 {
        return Parsed::Invalid;
    }
    if i.len() < 2 {
        return Parsed::Incomplete;
    }
    let ulen = i[1] as usize;
    if i.len() < 3 + ulen {
        return Parsed::Incomplete;
    }
    let plen = i[2 + ulen] as usize;
    if i.len() < 3 + ulen + plen {
        Parsed::Incomplete
    } else if i.len() > 3 + ulen + plen {
        Parsed::Invalid
    } else {
        let id = take_vec(i, 2, 2 + ulen);
        let pw = take_vec(i, 3 + ulen, 3 + ulen + plen);
        Parsed::Done(SOCKS5AuthRequest { ver: 1, id, pw })
    }
}

fn socks5_cmd(b: u8) -> (r: SOCKS5Cmd)
    ensures
        r == socks5_cmd_of(b),
{
    if b == 1 {
        SOCKS5Cmd::Connect
    } else if b == 2 {
        SOCKS5Cmd::Bind
    } else {
        SOCKS5Cmd::Udp
    }
}

/// Reads a SOCKS5 request.
pub fn socks5_connection_request(input: &[u8]) -> (r: Parsed<SOCKS5ConnectRequest>)
    ensures
        r@ == spec_socks5_connection_request(input@),
{
    let i = input;
    if i.len() == 0 {
        return Parsed::Incomplete;
    }
    if i[0] != 5 {
        return Parsed::Invalid;
    }
    if i.len() < 2 {
        return Parsed::Incomplete;
    }
    if i[1] != 1 && i[1] != 2 && i[1] != 3 {
        return Parsed::Invalid;
    }
    if i.len() < 3 {
        return Parsed::Incomplete;
    }
    if i[2] != 0 {
        return Parsed::Invalid;
    }
    if i.len() < 4 {
        return Parsed::Incomplete;
    }
    let cmd = socks5_cmd(i[1]);
    if i[3] == 1 {
        if i.len() < 10 {
            Parsed::Incomplete
        } else if i.len() > 10 {
            Parsed::Invalid
        } else {
            let ip = take_ipv4(i, 4);
            let port = read_be16(i[8], i[9]);
            Parsed::Done(
                SOCKS5ConnectRequest {
                    cmd,
                    dest: Destination { addr: Address::IP(IpAddress::V4(ip)), port },
                },
            )
        }
    } else if i[3] == 4 {
        if i.len() < 22 {
            Parsed::Incomplete
        } else if i.len() > 22 {
            Parsed::Invalid
        } else {
            let ip = take_ipv6(i, 4);
            let port = read_be16(i[20], i[21]);
            Parsed::Done(
                SOCKS5ConnectRequest {
                    cmd,
                    dest: Destination { addr: Address::IP(IpAddress::V6(ip)), port },
                },
            )
        }
    } else if i[3] == 3 {
        if i.len() < 5 {
            return Parsed::Incomplete;
        }
        let n = i[4] as usize;
        if i.len() < 5 + n {
            return Parsed::Incomplete;
        }
        match utf8_string(take_vec(i, 5, 5 + n)) {
            None => Parsed::Invalid,
            Some(name) => {
                if i.len() < 7 + n {
                    Parsed::Incomplete
                } else if i.len() > 7 + n {
                    Parsed::Invalid
                } else {
                    let port = read_be16(i[5 + n], i[6 + n]);
                    Parsed::Done(
                        SOCKS5ConnectRequest {
                            cmd,
                            dest: Destination { addr: Address::Name(name), port },
                        },
                    )
                }
            },
        }
    } else {
        Parsed::Invalid
    }
}

} // verus!
