//! Loopback-only address validation.
//!
//! A session may only dial a loopback IP literal. Host names are refused
//! without any lookup, so a name can never be rebound to a remote address.

use crate::json::{decimal, hex_text, push_decimal, push_hex};
use crate::text::{debug_quote, debug_text};
use vstd::prelude::*;

verus! {

/// An IP address, as the big-endian integer of its bits (so `127.0.0.1` is
/// `0x7f00_0001` and `::1` is `1`).
#[derive(Clone, Copy, Debug, PartialEq, Eq, Structural)]
pub enum IpAddress {
    V4(u32),
    V6(u128),
}

/// A loopback address: any address of `127.0.0.0/8`, or `::1`.
pub open spec fn is_loopback(ip: IpAddress) -> bool {
    match ip {
        IpAddress::V4(bits) => bits / 0x0100_0000 == 127,
        IpAddress::V6(bits) => bits == 1,
    }
}

impl IpAddress {
    /// Whether this is a loopback address.
    pub fn is_loopback(&self) -> (r: bool)
        ensures
            r == is_loopback(*self),
    {
        match self {
            IpAddress::V4(bits) => *bits / 0x0100_0000 == 127,
            IpAddress::V6(bits) => *bits == 1,
        }
    }
}

/// An address and a port to dial.
#[derive(Clone, Copy, Debug, PartialEq, Eq, Structural)]
pub struct SocketAddress {
    pub ip: IpAddress,
    pub port: u16,
}

/// Why an endpoint was refused.
#[derive(Debug)]
pub enum AddrError {
    /// The host is not an IP literal (host names are never looked up).
    NotAnIpLiteral(String),
    /// The host is an IP literal outside the loopback range.
    NotLoopback(IpAddress),
    /// The port is zero.
    InvalidPort,
}

/// Validates an endpoint. `parsed` is the IP address that the text `host`
/// spells as an IP literal, or `None` when it spells none; the port is checked
/// first, then that the host is a literal, then that it is a loopback address.
pub fn resolve(host: &str, port: u16, parsed: Option<IpAddress>) -> (r: Result<SocketAddress, AddrError>)
    ensures
        match r {
            Ok(a) => port != 0 && parsed == Some(a.ip) && is_loopback(a.ip) && a.port == port,
            Err(AddrError::InvalidPort) => port == 0,
            Err(AddrError::NotAnIpLiteral(h)) => port != 0 && parsed is None && h@ == host@,
            Err(AddrError::NotLoopback(ip)) => port != 0 && parsed == Some(ip) && !is_loopback(ip),
        },
{
    if port == 0 {
        return Err(AddrError::InvalidPort);
    }
    match parsed {
        None => Err(AddrError::NotAnIpLiteral(host.to_owned())),
        Some(ip) => {
            if !ip.is_loopback() {
                Err(AddrError::NotLoopback(ip))
            } else {
                Ok(SocketAddress { ip, port })
            }
        },
    }
}

/// The dotted-decimal text of a version-4 address, most significant octet
/// first.
pub open spec fn ipv4_text(b: u32) -> Seq<char> {
    decimal(((b >> 24u32) & 0xffu32) as nat) + "."@ + decimal(((b >> 16u32) & 0xffu32) as nat)
        + "."@ + decimal(((b >> 8u32) & 0xffu32) as nat) + "."@ + decimal((b & 0xffu32) as nat)
}

/// The eight 16-bit groups of a version-6 address, most significant first.
pub open spec fn segment(b: u128, i: int) -> u16 {
    ((b >> ((112 - 16 * i) as u32)) & 0xffffu128) as u16
}

/// The eight 16-bit groups of a version-6 address, most significant first.
pub open spec fn segments(b: u128) -> Seq<u16> {
    Seq::new(8, |i: int| segment(b, i))
}

/// Scanning the first `n` groups for runs of zero groups: the start and
/// length of the first longest run so far, and of the run in progress.
pub open spec fn zero_scan(segs: Seq<u16>, n: nat) -> (nat, nat, nat, nat)
    decreases n,
{
    if n == 0 {
        (0, 0, 0, 0)
    } else {
        let (ls, ll, cs, cl) = zero_scan(segs, (n - 1) as nat);
        if segs[n - 1] == 0 {
            let cs2: nat = if cl == 0 { (n - 1) as nat } else { cs };
            let cl2: nat = cl + 1;
            if cl2 > ll {
                (cs2, cl2, cs2, cl2)
            } else {
                (ls, ll, cs2, cl2)
            }
        } else {
            (ls, ll, 0, 0)
        }
    }
}

/// Groups in lowercase hexadecimal, separated by colons.
pub open spec fn hex_groups(segs: Seq<u16>) -> Seq<char>
    decreases segs.len(),
{
    if segs.len() == 0 {
        Seq::empty()
    } else if segs.len() == 1 {
        hex_text(segs[0] as nat)
    } else {
        hex_groups(segs.drop_last()) + ":"@ + hex_text(segs.last() as nat)
    }
}

/// Whether a version-6 address maps a version-4 one (`::ffff:a.b.c.d`).
pub open spec fn is_v4_mapped(b: u128) -> bool {
    let s = segments(b);
    s[0] == 0 && s[1] == 0 && s[2] == 0 && s[3] == 0 && s[4] == 0 && s[5] == 0xffff
}

/// The text of a version-6 address: a mapped version-4 address as
/// `::ffff:` and its dotted text; otherwise the groups in hexadecimal, with
/// the first longest run of two or more zero groups written as `::`.
pub open spec fn ipv6_text(b: u128) -> Seq<char> {
    let s = segments(b);
    if is_v4_mapped(b) {
        "::ffff:"@ + ipv4_text((b & 0xffff_ffffu128) as u32)
    } else {
        let z = zero_scan(s, 8);
        if z.1 > 1 {
            hex_groups(s.subrange(0, z.0 as int)) + "::"@ + hex_groups(s.subrange((z.0 + z.1) as int, 8))
        } else {
            hex_groups(s)
        }
    }
}

/// The text of an address.
pub open spec fn ip_text(ip: IpAddress) -> Seq<char> {
    match ip {
        IpAddress::V4(b) => ipv4_text(b),
        IpAddress::V6(b) => ipv6_text(b),
    }
}

/// The text of an address and port: `a.b.c.d:port`, or `[v6]:port`.
pub open spec fn socket_text(a: SocketAddress) -> Seq<char> {
    match a.ip {
        IpAddress::V4(b) => ipv4_text(b) + ":"@ + decimal(a.port as nat),
        IpAddress::V6(b) => "["@ + ipv6_text(b) + "]:"@ + decimal(a.port as nat),
    }
}

fn push_ipv4(out: &mut String, b: u32)
    ensures
        final(out)@ == old(out)@ + ipv4_text(b),
{
    proof {
        reveal_strlit(".");
    }
    let ghost before = out@;
    push_decimal(out, ((b >> 24u32) & 0xffu32) as u64);
    out.append(".");
    push_decimal(out, ((b >> 16u32) & 0xffu32) as u64);
    out.append(".");
    push_decimal(out, ((b >> 8u32) & 0xffu32) as u64);
    out.append(".");
    push_decimal(out, (b & 0xffu32) as u64);
    assert(out@ =~= before + ipv4_text(b));
}

fn push_groups(out: &mut String, segs: &Vec<u16>, from: usize, to: usize)
    requires
        from <= to <= segs@.len(),
    ensures
        final(out)@ == old(out)@ + hex_groups(segs@.subrange(from as int, to as int)),
{
    proof {
        reveal_strlit(":");
    }
    let ghost before = out@;
    let mut i = from;
    while i < to
        invariant
            from <= i <= to <= segs@.len(),
            out@ == before + hex_groups(segs@.subrange(from as int, i as int)),
        decreases to - i,
    {
        if i > from {
            out.append(":");
        }
        push_hex(out, segs[i] as u64);
        proof {
            let next = segs@.subrange(from as int, i + 1);
            assert(next.drop_last() =~= segs@.subrange(from as int, i as int));
            assert(next.last() == segs@[i as int]);
            if i == from {
                assert(next.len() == 1);
                assert(segs@.subrange(from as int, i as int).len() == 0);
            }
        }
        i = i + 1;
    }
}

fn push_ipv6(out: &mut String, b: u128)
    ensures
        final(out)@ == old(out)@ + ipv6_text(b),
{
    proof {
        reveal_strlit("::ffff:");
        reveal_strlit("::");
    }
    let ghost before = out@;
    let mut segs: Vec<u16> = Vec::new();
    let mut k: u32 = 0;
    while k < 8
        invariant
            k <= 8,
            segs@.len() == k,
            forall|j: int| 0 <= j < k ==> segs@[j] == segment(b, j),
        decreases 8 - k,
    {
        segs.push(((b >> (112 - 16 * k)) & 0xffffu128) as u16);
        k = k + 1;
    }
    assert(segs@ =~= segments(b));
    if segs[0] == 0 && segs[1] == 0 && segs[2] == 0 && segs[3] == 0 && segs[4] == 0 && segs[5]
        == 0xffff {
        out.append("::ffff:");
        push_ipv4(out, (b & 0xffff_ffffu128) as u32);
        return;
    }
    let mut ls: usize = 0;
    let mut ll: usize = 0;
    let mut cs: usize = 0;
    let mut cl: usize = 0;
    let mut i: usize = 0;
    while i < 8
        invariant
            i <= 8,
            segs@ == segments(b),
            (ls as nat, ll as nat, cs as nat, cl as nat) == zero_scan(segs@, i as nat),
            ls + ll <= i,
            cl > 0 ==> cs + cl == i,
            cs + cl <= i,
        decreases 8 - i,
    {
        if segs[i] == 0 {
            if cl == 0 {
                cs = i;
            }
            cl = cl + 1;
            if cl > ll {
                ls = cs;
                ll = cl;
            }
        } else {
            cs = 0;
            cl = 0;
        }
        i = i + 1;
    }
    if ll > 1 {
        push_groups(out, &segs, 0, ls);
        out.append("::");
        push_groups(out, &segs, ls + ll, 8);
    } else {
        push_groups(out, &segs, 0, 8);
        assert(segs@.subrange(0, 8) =~= segs@);
    }
}

/// The text of an address and port, as std writes a socket address.
pub fn socket_text_of(a: SocketAddress) -> (r: String)
    ensures
        r@ == socket_text(a),
{
    proof {
        reveal_strlit(":");
        reveal_strlit("[");
        reveal_strlit("]:");
    }
    let mut out = String::new();
    match a.ip {
        IpAddress::V4(b) => {
            push_ipv4(&mut out, b);
            out.append(":");
        },
        IpAddress::V6(b) => {
            out.append("[");
            push_ipv6(&mut out, b);
            out.append("]:");
        },
    }
    push_decimal(&mut out, a.port as u64);
    out
}

/// The WebSocket URL of a validated endpoint: always plaintext `ws://`,
/// then the address and port, then the path.
pub fn ws_url(a: SocketAddress, path: &str) -> (r: String)
    ensures
        r@ == "ws://"@ + socket_text(a) + path@,
{
    proof {
        reveal_strlit("ws://");
    }
    let t = socket_text_of(a);
    String::from_str("ws://").concat(t.as_str()).concat(path)
}

/// The text with which a refused endpoint is reported.
pub open spec fn addr_error_text(e: AddrError) -> Seq<char> {
    match e {
        AddrError::NotAnIpLiteral(h) => "host "@ + debug_text(h@)
            + " is not an IP literal; webdriver-bidi accepts only loopback literals such as 127.0.0.1 or ::1"@,
        AddrError::NotLoopback(ip) => "host "@ + ip_text(ip)
            + " is not a loopback address; scope is loopback-only"@,
        AddrError::InvalidPort => "port must be non-zero"@,
    }
}

impl AddrError {
    /// The text with which this refusal is reported.
    pub fn message(&self) -> (r: String)
        ensures
            r@ == addr_error_text(*self),
    {
        proof {
            reveal_strlit("host ");
            reveal_strlit(" is not an IP literal; webdriver-bidi accepts only loopback literals such as 127.0.0.1 or ::1");
            reveal_strlit(" is not a loopback address; scope is loopback-only");
            reveal_strlit("port must be non-zero");
        }
        match self {
            AddrError::NotAnIpLiteral(h) => {
                let q = debug_quote(h.as_str());
                String::from_str("host ").concat(q.as_str()).concat(
                    " is not an IP literal; webdriver-bidi accepts only loopback literals such as 127.0.0.1 or ::1",
                )
            },
            AddrError::NotLoopback(ip) => {
                let mut out = String::from_str("host ");
                match ip {
                    IpAddress::V4(b) => push_ipv4(&mut out, *b),
                    IpAddress::V6(b) => push_ipv6(&mut out, *b),
                }
                out.concat(" is not a loopback address; scope is loopback-only")
            },
            AddrError::InvalidPort => String::from_str("port must be non-zero"),
        }
    }
}

/// The loopback addresses are exactly `127.0.0.0` to `127.255.255.255` and
/// `::1`.
pub proof fn lemma_loopback_range(ip: IpAddress)
    ensures
        ip matches IpAddress::V4(b) ==> (is_loopback(ip) <==> 0x7f00_0000 <= b <= 0x7fff_ffff),
        ip matches IpAddress::V6(b) ==> (is_loopback(ip) <==> b == 1),
{
}

} // verus!
