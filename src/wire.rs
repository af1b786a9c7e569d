use bytes::{BufMut, BytesMut};
use vstd::prelude::*;

use crate::parse::be16;
use crate::socks::{AddressView, IpAddress, SOCKS5AuthReply, SOCKS5ConnectReply, SocketAddress};

verus! {

broadcast use vstd::array::group_array_axioms;

#[verifier::external_type_specification]
#[verifier::external_body]
pub struct ExBytesMut(BytesMut);

/// The bytes a `BytesMut` holds, first to last.
pub uninterp spec fn buffered(b: BytesMut) -> Seq<u8>;

/// Relies on BytesMut::with_capacity: the new buffer holds no bytes (it
/// panics only past isize::MAX bytes of capacity).
#[verifier::external_body]
fn new_buffer(capacity: usize) -> (r: BytesMut)
    requires
        capacity <= isize::MAX,
    ensures
        buffered(r) == Seq::<u8>::empty(),
{
    BytesMut::with_capacity(capacity)
}

/// Relies on BufMut::put_u8 for BytesMut: appends one byte, growing the
/// buffer (it panics only past isize::MAX bytes).
#[verifier::external_body]
fn put_byte(b: &mut BytesMut, v: u8)
    requires
        buffered(*old(b)).len() + 1 <= isize::MAX,
    ensures
        buffered(*final(b)) == buffered(*old(b)).push(v),
{
    b.put_u8(v)
}

/// Relies on BufMut::put_u16 for BytesMut: appends the two bytes of `v`,
/// most significant first.
#[verifier::external_body]
fn put_be_u16(b: &mut BytesMut, v: u16)
    requires
        buffered(*old(b)).len() + 2 <= isize::MAX,
    ensures
        buffered(*final(b)) == buffered(*old(b)).push(hi_byte(v)).push(lo_byte(v)),
{
    b.put_u16(v)
}

/// Relies on BytesMut::extend_from_slice: appends the bytes of `s` in order.
#[verifier::external_body]
fn put_slice(b: &mut BytesMut, s: &[u8])
    requires
        buffered(*old(b)).len() + s@.len() <= isize::MAX,
    ensures
        buffered(*final(b)) == buffered(*old(b)) + s@,
{
    b.extend_from_slice(s)
}

/// The most significant byte of `v`.
pub open spec fn hi_byte(v: u16) -> u8 {
    (v / 256) as u8
}

/// The least significant byte of `v`.
pub open spec fn lo_byte(v: u16) -> u8 {
    (v % 256) as u8
}

/// A frame that the server sends.
#[derive(Debug, Clone, Copy)]
pub enum Reply {
    /// SOCKS4 reply: granted or rejected, with the bound address where one
    /// is known. SOCKS4 carries IPv4 only: any other address goes out as
    /// zeros.
    V4 { granted: bool, bound: Option<SocketAddress> },
    /// SOCKS5 answer to a greeting: the chosen method, or none.
    Method(SOCKS5AuthReply),
    /// Sub-negotiation reply: whether the credentials were accepted.
    AuthStatus(bool),
    /// SOCKS5 reply to a request, with the bound address where one is known.
    V5 { rep: SOCKS5ConnectReply, bound: Option<SocketAddress> },
}

/// A reply as it stands on the wire: an absent bound address is 0.0.0.0:0.
pub enum ReplyView {
    V4 { granted: bool, port: u16, ip: Seq<u8> },
    Method(SOCKS5AuthReply),
    AuthStatus(bool),
    V5 { rep: SOCKS5ConnectReply, addr: AddressView, port: u16 },
}

/// What an IP address stands for, as a destination address.
pub open spec fn ip_view(ip: IpAddress) -> AddressView {
    match ip {
        IpAddress::V4(o) => AddressView::IPv4(o@),
        IpAddress::V6(o) => AddressView::IPv6(o@),
    }
}

impl View for Reply {
    type V = ReplyView;

    open spec fn view(&self) -> ReplyView {
        match *self {
            Reply::V4 { granted, bound } => match bound {
                Some(SocketAddress { ip: IpAddress::V4(o), port }) => ReplyView::V4 {
                    granted,
                    port,
                    ip: o@,
                },
                _ => ReplyView::V4 { granted, port: 0, ip: seq![0u8, 0u8, 0u8, 0u8] },
            },
            Reply::Method(m) => ReplyView::Method(m),
            Reply::AuthStatus(ok) => ReplyView::AuthStatus(ok),
            Reply::V5 { rep, bound } => match bound {
                Some(sa) => ReplyView::V5 { rep, addr: ip_view(sa.ip), port: sa.port },
                None => ReplyView::V5 {
                    rep,
                    addr: AddressView::IPv4(seq![0u8, 0u8, 0u8, 0u8]),
                    port: 0,
                },
            },
        }
    }
}

/// The bytes of a reply frame.
pub open spec fn reply_bytes(r: ReplyView) -> Seq<u8> {
    match r {
        ReplyView::V4 { granted, port, ip } => seq![
            0u8,
            if granted {
                0x5Au8
            } else {
                0x5Bu8
            },
            hi_byte(port),
            lo_byte(port),
        ] + ip,
        ReplyView::Method(m) => seq![5u8, m.spec_code()],
        ReplyView::AuthStatus(ok) => seq![
            1u8,
            if ok {
                0u8
            } else {
                0xFFu8
            },
        ],
        ReplyView::V5 { rep, addr, port } => match addr {
            AddressView::IPv6(o) => seq![5u8, rep.spec_code(), 0u8, 4u8] + o + seq![
                hi_byte(port),
                lo_byte(port),
            ],
            AddressView::IPv4(o) => seq![5u8, rep.spec_code(), 0u8, 1u8] + o + seq![
                hi_byte(port),
                lo_byte(port),
            ],
            AddressView::Name(_) => Seq::empty(),
        },
    }
}

/// The reply that a frame of bytes holds, if it is one that this server
/// sends.
pub open spec fn decode_reply(f: Seq<u8>) -> Option<ReplyView> {
    if f.len() == 2 && f[0] == 5 && (f[1] == 0 || f[1] == 2 || f[1] == 0xFF) {
        Some(
            ReplyView::Method(
                if f[1] == 0 {
                    SOCKS5AuthReply::Accepted
                } else if f[1] == 2 {
                    SOCKS5AuthReply::UserPass
                } else {
                    SOCKS5AuthReply::Denied
                },
            ),
        )
    } else if f.len() == 2 && f[0] == 1 && (f[1] == 0 || f[1] == 0xFF) {
        Some(ReplyView::AuthStatus(f[1] == 0))
    } else if f.len() == 8 && f[0] == 0 && (f[1] == 0x5A || f[1] == 0x5B) {
        Some(ReplyView::V4 { granted: f[1] == 0x5A, port: be16(f[2], f[3]), ip: f.subrange(4, 8) })
    } else if f.len() >= 4 && f[0] == 5 && SOCKS5ConnectReply::spec_from_code(f[1]) is Some
        && f[2] == 0 {
        let rep = SOCKS5ConnectReply::spec_from_code(f[1])->0;
        if f[3] == 1 && f.len() == 10 {
            Some(
                ReplyView::V5 {
                    rep,
                    addr: AddressView::IPv4(f.subrange(4, 8)),
                    port: be16(f[8], f[9]),
                },
            )
        } else if f[3] == 4 && f.len() == 22 {
            Some(
                ReplyView::V5 {
                    rep,
                    addr: AddressView::IPv6(f.subrange(4, 20)),
                    port: be16(f[20], f[21]),
                },
            )
        } else {
            None
        }
    } else {
        None
    }
}

proof fn lemma_be16_split(hi: u8, lo: u8)
    ensures
        hi_byte(be16(hi, lo)) == hi,
        lo_byte(be16(hi, lo)) == lo,
{
}

proof fn lemma_split_be16(v: u16)
    ensures
        be16(hi_byte(v), lo_byte(v)) == v,
{
}

/// Every reply frame that this server sends reads back as the same frame:
/// decoding it and encoding the result gives the bytes unchanged.
pub proof fn lemma_reply_frame_round_trip(f: Seq<u8>)
    requires
        decode_reply(f) is Some,
    ensures
        reply_bytes(decode_reply(f)->0) == f,
{
    if f.len() == 8 && f[0] == 0 {
        lemma_be16_split(f[2], f[3]);
    } else if f.len() == 10 {
        lemma_be16_split(f[8], f[9]);
    } else if f.len() == 22 {
        lemma_be16_split(f[20], f[21]);
    }
    assert(reply_bytes(decode_reply(f)->0) =~= f);
}

/// What `encode_reply` writes decodes to the reply it was given, as it
/// stands on the wire.
pub proof fn lemma_reply_decodes(r: Reply)
    ensures
        decode_reply(reply_bytes(r@)) == Some(r@),
{
    let b = reply_bytes(r@);
    match r {
        Reply::V4 { granted, bound } => {
            match bound {
                Some(SocketAddress { ip: IpAddress::V4(o), port }) => {
                    lemma_split_be16(port);
                    assert(b.subrange(4, 8) =~= o@);
                },
                _ => {
                    assert(b.subrange(4, 8) =~= seq![0u8, 0u8, 0u8, 0u8]);
                },
            }
        },
        Reply::Method(_) | Reply::AuthStatus(_) => {},
        Reply::V5 { rep, bound } => {
            match bound {
                Some(sa) => {
                    lemma_split_be16(sa.port);
                    match sa.ip {
                        IpAddress::V4(o) => {
                            assert(b.subrange(4, 8) =~= o@);
                        },
                        IpAddress::V6(o) => {
                            assert(b.subrange(4, 20) =~= o@);
                        },
                    }
                },
                None => {
                    assert(b.subrange(4, 8) =~= seq![0u8, 0u8, 0u8, 0u8]);
                },
            }
        },
    }
}

fn put_ip(b: &mut BytesMut, ip: &IpAddress)
    requires
        buffered(*old(b)).len() <= 64,
    ensures
        buffered(*final(b)) == buffered(*old(b)) + (match *ip {
            IpAddress::V4(o) => o@,
            IpAddress::V6(o) => o@,
        }),
{
    match ip {
        IpAddress::V4(o) => put_slice(b, o.as_slice()),
        IpAddress::V6(o) => put_slice(b, o.as_slice()),
    }
}

/// Writes a reply frame.
pub fn encode_reply(r: &Reply) -> (b: BytesMut)
    ensures
        buffered(b) == reply_bytes(r@),
{
    match r {
        Reply::V4 { granted, bound } => {
            let (port, ip) = match bound {
                Some(SocketAddress { ip: IpAddress::V4(o), port }) => (*port, *o),
                _ => (0u16, [0u8, 0u8, 0u8, 0u8]),
            };
            let mut b = new_buffer(8);
            put_byte(&mut b, 0);
            put_byte(
                &mut b,
                if *granted {
                    0x5A
                } else {
                    0x5B
                },
            );
            put_be_u16(&mut b, port);
            put_slice(&mut b, ip.as_slice());
            proof {
                if !(bound matches Some(SocketAddress { ip: IpAddress::V4(_), .. })) {
                    assert(ip@ =~= seq![0u8, 0u8, 0u8, 0u8]);
                }
            }
            assert(buffered(b) =~= reply_bytes(r@));
            b
        },
        Reply::Method(m) => {
            let mut b = new_buffer(2);
            put_byte(&mut b, 5);
            put_byte(&mut b, m.code());
            assert(buffered(b) =~= reply_bytes(r@));
            b
        },
        Reply::AuthStatus(ok) => {
            let mut b = new_buffer(2);
            put_byte(&mut b, 1);
            put_byte(
                &mut b,
                if *ok {
                    0
                } else {
                    0xFF
                },
            );
            assert(buffered(b) =~= reply_bytes(r@));
            b
        },
        Reply::V5 { rep, bound } => {
            let sa = match bound {
                Some(sa) => *sa,
                None => SocketAddress { ip: IpAddress::V4([0u8, 0u8, 0u8, 0u8]), port: 0 },
            };
            proof {
                if bound is None {
                    assert(ip_view(sa.ip) == AddressView::IPv4(seq![0u8, 0u8, 0u8, 0u8]));
                }
            }
            let mut b = new_buffer(22);
            put_byte(&mut b, 5);
            put_byte(&mut b, rep.code());
            put_byte(&mut b, 0);
            match sa.ip {
                IpAddress::V4(_) => put_byte(&mut b, 1),
                IpAddress::V6(_) => put_byte(&mut b, 4),
            }
            put_ip(&mut b, &sa.ip);
            put_be_u16(&mut b, sa.port);
            assert(buffered(b) =~= reply_bytes(r@));
            b
        },
    }
}

} // verus!
