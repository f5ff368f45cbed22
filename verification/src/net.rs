//! Network addresses and connection direction, as plain values.

use vstd::prelude::*;
use vstd::string::*;
use crate::text::{decimal, hexadecimal, push_decimal, push_hexadecimal};

verus! {

/// A socket address: an IPv4 or IPv6 address with a port.
///
/// The IP address is held as one integer, the first octet (or segment) in
/// the most significant position, so that comparing the integers compares
/// the addresses octet by octet.
#[derive(Clone, Copy, Debug, PartialEq, Eq, PartialOrd, Ord, Hash, Structural)]
#[allow(inconsistent_fields)]
pub enum SocketAddr {
    /// An IPv4 address and port.
    V4 { ip: u32, port: u16 },
    /// An IPv6 address and port, with flow information and scope.
    V6 { ip: u128, port: u16, flowinfo: u32, scope_id: u32 },
}

/// Direction of a peer connection.
#[derive(Clone, Copy, Debug, PartialEq, Eq, Hash, Structural)]
pub enum Link {
    /// The peer connected to us.
    Inbound,
    /// We connected to the peer.
    Outbound,
}

/// Where a peer address was learned.
#[derive(Clone, Copy, Debug, PartialEq, Eq, Structural)]
pub enum Source {
    /// From DNS seeds.
    Dns,
    /// Imported by the user.
    Imported,
    /// Gossiped by the given peer.
    Peer(SocketAddr),
}

impl Link {
    /// The direction as a word.
    pub open spec fn text(self) -> Seq<char> {
        match self {
            Link::Inbound => "Inbound"@,
            Link::Outbound => "Outbound"@,
        }
    }

    /// The direction as a word.
    pub fn as_str(&self) -> (s: &'static str)
        ensures
            s@ == self.text(),
    {
        match self {
            Link::Inbound => "Inbound",
            Link::Outbound => "Outbound",
        }
    }
}

impl SocketAddr {
    /// The strict order on addresses: every IPv4 address comes before every
    /// IPv6 address; within a family, the fields decide in declared order.
    pub open spec fn before(self, other: SocketAddr) -> bool {
        match (self, other) {
            (SocketAddr::V4 { ip: a, port: p }, SocketAddr::V4 { ip: b, port: q }) => {
                a < b || (a == b && p < q)
            },
            (SocketAddr::V4 { .. }, SocketAddr::V6 { .. }) => true,
            (SocketAddr::V6 { .. }, SocketAddr::V4 { .. }) => false,
            (
                SocketAddr::V6 { ip: a, port: p, flowinfo: f, scope_id: s },
                SocketAddr::V6 { ip: b, port: q, flowinfo: g, scope_id: t },
            ) => {
                a < b || (a == b && (p < q || (p == q && (f < g || (f == g && s < t)))))
            },
        }
    }

    /// Whether this address comes strictly before `other`.
    pub fn precedes(&self, other: &SocketAddr) -> (b: bool)
        ensures
            b == self.before(*other),
    {
        match (*self, *other) {
            (SocketAddr::V4 { ip: a, port: p }, SocketAddr::V4 { ip: b, port: q }) => {
                a < b || (a == b && p < q)
            },
            (SocketAddr::V4 { .. }, SocketAddr::V6 { .. }) => true,
            (SocketAddr::V6 { .. }, SocketAddr::V4 { .. }) => false,
            (
                SocketAddr::V6 { ip: a, port: p, flowinfo: f, scope_id: s },
                SocketAddr::V6 { ip: b, port: q, flowinfo: g, scope_id: t },
            ) => {
                a < b || (a == b && (p < q || (p == q && (f < g || (f == g && s < t)))))
            },
        }
    }
}

/// The last `n` digits of `x` in base 256, most significant first.
pub open spec fn octets(x: nat, n: nat) -> Seq<u8>
    decreases n,
{
    if n == 0 {
        Seq::empty()
    } else {
        octets(x / 256, (n - 1) as nat).push((x % 256) as u8)
    }
}

/// The last `n` digits of `x` in base 65536, most significant first.
pub open spec fn segments(x: nat, n: nat) -> Seq<u16>
    decreases n,
{
    if n == 0 {
        Seq::empty()
    } else {
        segments(x / 65536, (n - 1) as nat).push((x % 65536) as u16)
    }
}

/// An IPv4 address as text: its four octets in decimal, separated by dots.
pub open spec fn ipv4_text(ip: u32) -> Seq<char> {
    let o = octets(ip as nat, 4);
    decimal(o[0] as nat) + "."@ + decimal(o[1] as nat) + "."@ + decimal(o[2] as nat) + "."@
        + decimal(o[3] as nat)
}

/// Segments in hexadecimal, separated by colons.
pub open spec fn colon_separated(segs: Seq<u16>) -> Seq<char>
    decreases segs.len(),
{
    if segs.len() == 0 {
        Seq::empty()
    } else if segs.len() == 1 {
        hexadecimal(segs[0] as nat)
    } else {
        colon_separated(segs.drop_last()) + ":"@ + hexadecimal(segs.last() as nat)
    }
}

/// Whether the `len` segments from `start` on are all zero.
pub open spec fn is_zero_run(segs: Seq<u16>, start: int, len: int) -> bool {
    &&& 0 <= start
    &&& 0 <= len
    &&& start + len <= segs.len()
    &&& forall|k: int| start <= k < start + len ==> segs[k] == 0
}

/// Whether the `len` segments from `start` on are a longest run of zeros,
/// and the first of that length.
pub open spec fn is_longest_zero_run(segs: Seq<u16>, start: int, len: int) -> bool {
    &&& is_zero_run(segs, start, len)
    &&& forall|s: int, l: int| #[trigger]
        is_zero_run(segs, s, l) ==> l <= len && (l == len && l > 0 ==> start <= s)
}

/// The first longest run of zero segments, as start and length.
pub open spec fn zero_run(segs: Seq<u16>) -> (int, int) {
    choose|r: (int, int)| is_longest_zero_run(segs, r.0, r.1)
}

/// Whether an IPv6 address stands for an IPv4 address: its first five
/// segments are zero and the sixth is `ffff`.
pub open spec fn is_ipv4_mapped(ip: u128) -> bool {
    ip / 0x1_0000_0000 == 0xffff
}

/// An IPv6 address as text. An address that stands for an IPv4 address is
/// written as `::ffff:` and that address. Otherwise the eight segments are
/// written in hexadecimal, separated by colons, and the first longest run of
/// two or more zero segments is shortened to `::`.
pub open spec fn ipv6_text(ip: u128) -> Seq<char> {
    let segs = segments(ip as nat, 8);
    let (start, len) = zero_run(segs);
    if is_ipv4_mapped(ip) {
        "::ffff:"@ + ipv4_text((ip % 0x1_0000_0000) as u32)
    } else if len > 1 {
        colon_separated(segs.subrange(0, start)) + "::"@ + colon_separated(
            segs.subrange(start + len, 8),
        )
    } else {
        colon_separated(segs)
    }
}

impl SocketAddr {
    /// The address as text: `ip:port` for IPv4, `[ip]:port` for IPv6, and
    /// `[ip%scope]:port` for IPv6 with a scope.
    pub open spec fn text(self) -> Seq<char> {
        match self {
            SocketAddr::V4 { ip, port } => ipv4_text(ip) + ":"@ + decimal(port as nat),
            SocketAddr::V6 { ip, port, flowinfo, scope_id } => if scope_id == 0 {
                "["@ + ipv6_text(ip) + "]:"@ + decimal(port as nat)
            } else {
                "["@ + ipv6_text(ip) + "%"@ + decimal(scope_id as nat) + "]:"@ + decimal(
                    port as nat,
                )
            },
        }
    }

    /// Appends the address as text to `s`.
    pub fn push_to(&self, s: &mut String)
        ensures
            final(s)@ == old(s)@ + self.text(),
    {
        match *self {
            SocketAddr::V4 { ip, port } => {
                push_ipv4(s, ip);
                s.append(":");
                push_decimal(s, port as u128);
                assert(s@ =~= old(s)@ + self.text());
            },
            SocketAddr::V6 { ip, port, flowinfo, scope_id } => {
                s.append("[");
                push_ipv6(s, ip);
                if scope_id != 0 {
                    s.append("%");
                    push_decimal(s, scope_id as u128);
                }
                s.append("]:");
                push_decimal(s, port as u128);
                assert(s@ =~= old(s)@ + self.text());
            },
        }
    }

    /// The address as text.
    pub fn to_string(&self) -> (s: String)
        ensures
            s@ == self.text(),
    {
        let mut s = String::new();
        self.push_to(&mut s);
        assert(s@ =~= self.text());
        s
    }
}

/// Appends the last `n` octets of `x` to `v`.
fn push_octets(v: &mut Vec<u8>, x: u32, n: usize)
    ensures
        final(v)@ == old(v)@ + octets(x as nat, n as nat),
    decreases n,
{
    if n > 0 {
        push_octets(v, x / 256, n - 1);
        v.push((x % 256) as u8);
        assert(v@ =~= old(v)@ + octets(x as nat, n as nat));
    } else {
        assert(v@ =~= old(v)@ + octets(x as nat, n as nat));
    }
}

/// Appends the last `n` segments of `x` to `v`.
fn push_segments(v: &mut Vec<u16>, x: u128, n: usize)
    ensures
        final(v)@ == old(v)@ + segments(x as nat, n as nat),
    decreases n,
{
    if n > 0 {
        push_segments(v, x / 65536, n - 1);
        v.push((x % 65536) as u16);
        assert(v@ =~= old(v)@ + segments(x as nat, n as nat));
    } else {
        assert(v@ =~= old(v)@ + segments(x as nat, n as nat));
    }
}

/// The number of digits asked for is the number of digits got.
proof fn lemma_octets_len(x: nat, n: nat)
    ensures
        octets(x, n).len() == n,
    decreases n,
{
    if n > 0 {
        lemma_octets_len(x / 256, (n - 1) as nat);
    }
}

/// The number of digits asked for is the number of digits got.
proof fn lemma_segments_len(x: nat, n: nat)
    ensures
        segments(x, n).len() == n,
    decreases n,
{
    if n > 0 {
        lemma_segments_len(x / 65536, (n - 1) as nat);
    }
}

/// Appends an IPv4 address as text to `s`.
fn push_ipv4(s: &mut String, ip: u32)
    ensures
        final(s)@ == old(s)@ + ipv4_text(ip),
{
    let mut o: Vec<u8> = Vec::new();
    push_octets(&mut o, ip, 4);
    proof {
        lemma_octets_len(ip as nat, 4);
        assert(o@ =~= octets(ip as nat, 4));
    }
    push_decimal(s, o[0] as u128);
    s.append(".");
    push_decimal(s, o[1] as u128);
    s.append(".");
    push_decimal(s, o[2] as u128);
    s.append(".");
    push_decimal(s, o[3] as u128);
    assert(s@ =~= old(s)@ + ipv4_text(ip));
}

/// Appends the segments from `from` up to `to` to `s`, in hexadecimal,
/// separated by colons.
fn push_colon_separated(s: &mut String, segs: &Vec<u16>, from: usize, to: usize)
    requires
        from <= to <= segs@.len(),
    ensures
        final(s)@ == old(s)@ + colon_separated(segs@.subrange(from as int, to as int)),
{
    let mut i: usize = from;
    while i < to
        invariant
            from <= i <= to <= segs@.len(),
            s@ == old(s)@ + colon_separated(segs@.subrange(from as int, i as int)),
        decreases to - i,
    {
        let ghost done = segs@.subrange(from as int, i as int);
        let ghost next = segs@.subrange(from as int, i + 1);
        assert(next.drop_last() =~= done);
        if i > from {
            s.append(":");
        }
        push_hexadecimal(s, segs[i] as u128);
        assert(s@ =~= old(s)@ + colon_separated(next));
        i = i + 1;
    }
}

/// Finds the first longest run of zero segments: its start and length.
fn find_zero_run(segs: &Vec<u16>) -> (run: (usize, usize))
    ensures
        is_longest_zero_run(segs@, run.0 as int, run.1 as int),
{
    let mut start: usize = 0;
    let mut len: usize = 0;
    let mut current: usize = 0;
    let mut i: usize = 0;
    while i < segs.len()
        invariant
            i <= segs@.len(),
            current <= i,
            start + len <= i,
            current <= len,
            is_zero_run(segs@, i - current, current as int),
            i - current > 0 ==> segs@[i - current - 1] != 0,
            is_zero_run(segs@, start as int, len as int),
            forall|s: int, l: int| #[trigger]
                is_zero_run(segs@, s, l) && s + l <= i ==> l <= len && (l == len && l > 0
                    ==> start <= s),
        decreases segs@.len() - i,
    {
        if segs[i] == 0 {
            current = current + 1;
            if current > len {
                start = i + 1 - current;
                len = current;
            }
            assert forall|s: int, l: int| #[trigger]
                is_zero_run(segs@, s, l) && s + l <= i + 1 implies l <= len && (l == len && l
                > 0 ==> start <= s) by {
                if s + l == i + 1 && l > 0 {
                    if l > current {
                        assert(segs@[i + 1 - current - 1] == 0);
                    }
                }
            }
        } else {
            current = 0;
            assert forall|s: int, l: int| #[trigger]
                is_zero_run(segs@, s, l) && s + l <= i + 1 implies l <= len && (l == len && l
                > 0 ==> start <= s) by {
                if s + l == i + 1 && l > 0 {
                    assert(segs@[i as int] == 0);
                }
            }
        }
        i = i + 1;
    }
    (start, len)
}

/// Appends an IPv6 address as text to `s`.
fn push_ipv6(s: &mut String, ip: u128)
    ensures
        final(s)@ == old(s)@ + ipv6_text(ip),
{
    if ip / 0x1_0000_0000 == 0xffff {
        s.append("::ffff:");
        push_ipv4(s, (ip % 0x1_0000_0000) as u32);
        assert(s@ =~= old(s)@ + ipv6_text(ip));
    } else {
        let mut segs: Vec<u16> = Vec::new();
        push_segments(&mut segs, ip, 8);
        proof {
            lemma_segments_len(ip as nat, 8);
            assert(segs@ =~= segments(ip as nat, 8));
        }
        let (start, len) = find_zero_run(&segs);
        proof {
            let chosen = zero_run(segs@);
            assert(is_longest_zero_run(segs@, chosen.0, chosen.1));
            assert(is_zero_run(segs@, chosen.0, chosen.1));
            assert(is_zero_run(segs@, start as int, len as int));
            assert(chosen.1 == len);
            assert(len > 0 ==> chosen.0 == start);
        }
        if len > 1 {
            push_colon_separated(s, &segs, 0, start);
            s.append("::");
            push_colon_separated(s, &segs, start + len, 8);
        } else {
            push_colon_separated(s, &segs, 0, 8);
            assert(segs@.subrange(0, 8) =~= segs@);
        }
        assert(s@ =~= old(s)@ + ipv6_text(ip));
    }
}

} // verus!
