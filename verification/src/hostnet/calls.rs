//! The per-call decisions of the `net_*` host functions, apart from the
//! socket operations themselves.

use vstd::prelude::*;

use super::errno::{
    neg_errno_of, neg_errno_win_of, EACCES, EAFNOSUPPORT, EBADF, EINPROGRESS, EINVAL, EPROTONOSUPPORT,
};
use super::wire::{
    i16_from_le, i32_from_le, le16, le_i16, le_i32, pack_addr, packed_addr, push_bytes,
    push_i16_le, push_i32_le, push_u16_le, read_i16_le, read_i32_le, PeerAddr,
};

verus! {

/// Socket address family.
#[derive(Clone, Copy, PartialEq, Eq, Structural, Debug)]
pub enum Family {
    /// `AF_INET` (2).
    Ipv4,
    /// `AF_INET6` (10).
    Ipv6,
}

/// Socket type.
#[derive(Clone, Copy, PartialEq, Eq, Structural, Debug)]
pub enum SockKind {
    /// `SOCK_STREAM` (1).
    Stream,
    /// `SOCK_DGRAM` (2).
    Datagram,
}

/// What `net_socket` asks the host to create.
#[derive(Clone, Copy, PartialEq, Eq, Structural, Debug)]
pub struct SocketRequest {
    pub family: Family,
    pub kind: SockKind,
    /// The protocol number, `None` for the default (0).
    pub protocol: Option<i32>,
}

/// The socket `net_socket(family, type, protocol)` asks for, or `-errno`.
///
/// Family 2 is IPv4 and 10 IPv6, anything else `-EAFNOSUPPORT`; the low
/// byte of the type (flags such as `SOCK_NONBLOCK` live above it) is 1 for
/// a stream or 2 for a datagram socket, anything else `-EPROTONOSUPPORT`;
/// protocol 0 means the default.
pub open spec fn socket_request_of(family: i32, ty: i32, proto: i32) -> Result<SocketRequest, i32> {
    if family != 2 && family != 10 {
        Err((-EAFNOSUPPORT) as i32)
    } else if ty % 256 != 1 && ty % 256 != 2 {
        Err((-EPROTONOSUPPORT) as i32)
    } else {
        Ok(
            SocketRequest {
                family: if family == 2 { Family::Ipv4 } else { Family::Ipv6 },
                kind: if ty % 256 == 1 { SockKind::Stream } else { SockKind::Datagram },
                protocol: if proto == 0 { None } else { Some(proto) },
            },
        )
    }
}

/// Decide what socket `net_socket` creates (see [`socket_request_of`]).
pub fn socket_request(family: i32, ty: i32, proto: i32) -> (r: Result<SocketRequest, i32>)
    ensures
        r == socket_request_of(family, ty, proto),
{
    let f = match family {
        2 => Family::Ipv4,
        10 => Family::Ipv6,
        _ => {
            return Err(-EAFNOSUPPORT);
        },
    };
    let low = ty & 0xFF;
    assert(ty & 0xFF == ty % 256) by (bit_vector);
    let k = match low {
        1 => SockKind::Stream,
        2 => SockKind::Datagram,
        _ => {
            return Err(-EPROTONOSUPPORT);
        },
    };
    let protocol = if proto == 0 {
        None
    } else {
        Some(proto)
    };
    Ok(SocketRequest { family: f, kind: k, protocol })
}

/// The socket kind depends only on the type's low byte: flags above it
/// (`SOCK_NONBLOCK` 0x800, `SOCK_CLOEXEC` 0x80000, ...) never change the
/// decision.
pub proof fn lemma_socket_type_flags_ignored(family: i32, ty: i32, flags: i32, proto: i32)
    requires
        flags % 256 == 0,
        i32::MIN <= ty + flags <= i32::MAX,
    ensures
        socket_request_of(family, (ty + flags) as i32, proto) == socket_request_of(
            family,
            ty,
            proto,
        ),
{
    assert((ty + flags) % 256 == ty % 256) by (nonlinear_arith)
        requires
            flags % 256 == 0,
    ;
}

/// What `net_socket` creates, stated with the guest's constants: family 2
/// (`AF_INET`) or 10 (`AF_INET6`) with a type whose low byte is 1
/// (`SOCK_STREAM`) or 2 (`SOCK_DGRAM`) yields that socket, protocol 0
/// meaning the default; any other family is `-EAFNOSUPPORT` (-97), and for
/// a supported family any other low byte is `-EPROTONOSUPPORT` (-93).
pub proof fn lemma_socket_request_constants(family: i32, ty: i32, proto: i32)
    ensures
        family != 2 && family != 10 ==> socket_request_of(family, ty, proto) == Err::<
            SocketRequest,
            i32,
        >(-97i32),
        (family == 2 || family == 10) && ty % 256 != 1 && ty % 256 != 2 ==> socket_request_of(
            family,
            ty,
            proto,
        ) == Err::<SocketRequest, i32>(-93i32),
        (family == 2 || family == 10) && (ty % 256 == 1 || ty % 256 == 2) ==> socket_request_of(
            family,
            ty,
            proto,
        ) == Ok::<SocketRequest, i32>(
            SocketRequest {
                family: if family == 2 {
                    Family::Ipv4
                } else {
                    Family::Ipv6
                },
                kind: if ty % 256 == 1 {
                    SockKind::Stream
                } else {
                    SockKind::Datagram
                },
                protocol: if proto == 0 {
                    None
                } else {
                    Some(proto)
                },
            },
        ),
{
}

/// Which direction `net_shutdown` closes.
#[derive(Clone, Copy, PartialEq, Eq, Structural, Debug)]
pub enum ShutdownHow {
    Read,
    Write,
    Both,
}

/// `net_shutdown(fd, how)`: 0 shuts reading, 1 writing, anything else both.
pub fn shutdown_how(how: i32) -> (r: ShutdownHow)
    ensures
        r == (if how == 0 {
            ShutdownHow::Read
        } else if how == 1 {
            ShutdownHow::Write
        } else {
            ShutdownHow::Both
        }),
{
    match how {
        0 => ShutdownHow::Read,
        1 => ShutdownHow::Write,
        _ => ShutdownHow::Both,
    }
}

/// The most bytes one `net_recvfrom` receives.
pub const MAX_RECV: usize = 65536;

/// The receive buffer size for `net_recvfrom(fd, len)`: the requested
/// length capped at 64 KiB; a negative length (which converts to a huge
/// `usize`) gets the cap.
pub fn recv_len(len: i32) -> (n: usize)
    ensures
        n == (if len < 0 || len as int >= MAX_RECV {
            MAX_RECV as int
        } else {
            len as int
        }),
{
    if len < 0 {
        MAX_RECV
    } else if len as usize >= MAX_RECV {
        MAX_RECV
    } else {
        len as usize
    }
}

/// The longest `host_nanosleep` sleeps: 30 seconds.
pub const MAX_SLEEP_NS: u64 = 30_000_000_000;

/// How long `host_nanosleep(ns)` sleeps, in nanoseconds.
pub fn sleep_ns(ns: u64) -> (r: u64)
    ensures
        r == (if ns < MAX_SLEEP_NS {
            ns
        } else {
            MAX_SLEEP_NS
        }),
{
    if ns < MAX_SLEEP_NS {
        ns
    } else {
        MAX_SLEEP_NS
    }
}

/// The status an operation with no result reports: 0, or `-errno` for the
/// raw OS code of its error.
pub fn unit_status(res: Result<(), Option<i32>>) -> (r: i32)
    ensures
        r == match res {
            Ok(()) => 0,
            Err(raw) => neg_errno_of(raw),
        },
{
    match res {
        Ok(()) => 0,
        Err(raw) => super::errno::neg_errno_code(raw),
    }
}

/// The status `net_connect` reports: 0 on success and also when a
/// non-blocking connect is still in progress (`EINPROGRESS`), `-errno`
/// otherwise.
pub fn connect_status(res: Result<(), Option<i32>>) -> (r: i32)
    ensures
        r == match res {
            Ok(()) => 0,
            Err(raw) => if raw == Some(EINPROGRESS) {
                0
            } else {
                neg_errno_of(raw)
            },
        },
{
    match res {
        Ok(()) => 0,
        Err(raw) => {
            if raw == Some(EINPROGRESS) {
                0
            } else {
                super::errno::neg_errno_code(raw)
            }
        },
    }
}

/// The status `net_connect` reports on a Windows host, where the raw code
/// is a Winsock code: 0 on success and also while a non-blocking connect is
/// pending (`WSAEWOULDBLOCK` 10035 or `WSAEINPROGRESS` 10036), otherwise
/// the translated `-errno`.
pub fn connect_status_win(res: Result<(), Option<i32>>) -> (r: i32)
    ensures
        r == match res {
            Ok(()) => 0,
            Err(raw) => if raw == Some(10035i32) || raw == Some(10036i32) {
                0
            } else {
                neg_errno_win_of(raw)
            },
        },
{
    match res {
        Ok(()) => 0,
        Err(raw) => {
            if raw == Some(10035) || raw == Some(10036) {
                0
            } else {
                super::errno::neg_errno_win_code(raw)
            }
        },
    }
}

/// The status a send reports: the byte count converted to `i32` (the
/// conversion truncates, as an `as` cast does), or `-errno`.
pub fn count_status(res: Result<usize, Option<i32>>) -> (r: i32)
    ensures
        r == match res {
            Ok(n) => n as i32,
            Err(raw) => neg_errno_of(raw),
        },
{
    match res {
        Ok(n) => n as i32,
        Err(raw) => super::errno::neg_errno_code(raw),
    }
}

/// The packed address of an optional address, empty when there is none.
pub open spec fn packed_opt(a: Option<PeerAddr>) -> Seq<u8> {
    match a {
        Some(addr) => packed_addr(addr),
        None => Seq::empty(),
    }
}

/// `net_getpeername`/`net_getsockname` reply for an address: status 0 then
/// the packed address, or `-EAFNOSUPPORT` alone for an address that is not
/// an IP socket address.
pub open spec fn addr_reply(a: Option<PeerAddr>) -> Seq<u8> {
    match a {
        Some(addr) => le_i32(0) + packed_addr(addr),
        None => le_i32((-EAFNOSUPPORT) as i32),
    }
}

/// Build a successful address result: status=0 + packed addr.
pub fn addr_result(a: Option<PeerAddr>) -> (r: Vec<u8>)
    ensures
        r@ == addr_reply(a),
{
    let mut buf = Vec::new();
    match a {
        Some(addr) => {
            push_i32_le(&mut buf, 0);
            pack_addr(&mut buf, &addr);
        },
        None => {
            push_i32_le(&mut buf, -EAFNOSUPPORT);
        },
    }
    assert(buf@ =~= addr_reply(a));
    buf
}

/// `net_accept` reply: the new descriptor then, when the peer is an IP
/// socket address, the packed peer address.
pub fn accept_reply(new_fd: i32, peer: Option<PeerAddr>) -> (r: Vec<u8>)
    ensures
        r@ == le_i32(new_fd) + packed_opt(peer),
{
    let mut buf = Vec::new();
    push_i32_le(&mut buf, new_fd);
    match peer {
        Some(addr) => pack_addr(&mut buf, &addr),
        None => {},
    }
    assert(buf@ =~= le_i32(new_fd) + packed_opt(peer));
    buf
}

/// The address block of a `net_recvfrom` reply: the packed source address,
/// or a zero family, zero port and zero length when the source is not an
/// IP socket address.
pub open spec fn recv_source(src: Option<PeerAddr>) -> Seq<u8> {
    match src {
        Some(addr) => packed_addr(addr),
        None => le_i32(0) + le16(0) + seq![0u8],
    }
}

/// `net_recvfrom` reply: the byte count (`data.len()` as `i32`), the source
/// address block, then the data.
pub fn recvfrom_reply(src: Option<PeerAddr>, data: &[u8]) -> (r: Vec<u8>)
    ensures
        r@ == le_i32(data@.len() as i32) + recv_source(src) + data@,
{
    let mut buf = Vec::new();
    push_i32_le(&mut buf, data.len() as i32);
    match src {
        Some(addr) => pack_addr(&mut buf, &addr),
        None => {
            push_i32_le(&mut buf, 0);
            push_u16_le(&mut buf, 0);
            buf.push(0);
        },
    }
    push_bytes(&mut buf, data);
    assert(buf@ =~= le_i32(data@.len() as i32) + recv_source(src) + data@);
    buf
}

/// One entry of a `net_poll` request: guest descriptor and event bits.
#[derive(Clone, Copy, PartialEq, Eq, Structural, Debug)]
pub struct PollEntry {
    pub fd: i32,
    pub events: i16,
}

/// The entries of a `net_poll` request: one per whole 8-byte record
/// (`i32` fd, `i16` events, `i16` padding), trailing bytes ignored.
pub open spec fn poll_entries_of(raw: Seq<u8>) -> Seq<(int, int)> {
    Seq::new(
        raw.len() / 8,
        |i: int|
            (
                i32_from_le(raw.subrange(i * 8, i * 8 + 4)),
                i16_from_le(raw.subrange(i * 8 + 4, i * 8 + 6)),
            ),
    )
}

/// Decode a `net_poll` request (see [`poll_entries_of`]).
pub fn parse_poll_request(raw: &[u8]) -> (r: Vec<PollEntry>)
    ensures
        r@.len() == poll_entries_of(raw@).len(),
        forall|i: int|
            0 <= i < r@.len() ==> (r@[i].fd as int, r@[i].events as int) == #[trigger] poll_entries_of(
                raw@,
            )[i],
{
    let nfds = raw.len() / 8;
    let mut out: Vec<PollEntry> = Vec::new();
    let mut i: usize = 0;
    while i < nfds
        invariant
            i <= nfds,
            nfds == raw@.len() / 8,
            out@.len() == i,
            forall|j: int|
                0 <= j < i ==> (out@[j].fd as int, out@[j].events as int) == #[trigger] poll_entries_of(
                    raw@,
                )[j],
        decreases nfds - i,
    {
        assert(i * 8 + 8 <= raw@.len()) by (nonlinear_arith)
            requires
                i < nfds,
                nfds == raw@.len() / 8,
        ;
        assert(raw@.len() == raw.len());
        let off = i * 8;
        let fd = read_i32_le(raw, off);
        let events = read_i16_le(raw, off + 4);
        out.push(PollEntry { fd, events });
        i = i + 1;
    }
    out
}

/// `net_poll` reply: the ready count (or `-errno`), then each descriptor's
/// returned event bits.
pub open spec fn poll_reply_of(status: i32, revents: Seq<i16>) -> Seq<u8>
    decreases revents.len(),
{
    if revents.len() == 0 {
        le_i32(status)
    } else {
        poll_reply_of(status, revents.drop_last()) + le_i16(revents.last())
    }
}

/// Encode a `net_poll` reply (see [`poll_reply_of`]).
pub fn poll_reply(status: i32, revents: &[i16]) -> (r: Vec<u8>)
    ensures
        r@ == poll_reply_of(status, revents@),
{
    let mut buf = Vec::new();
    push_i32_le(&mut buf, status);
    let mut i: usize = 0;
    while i < revents.len()
        invariant
            i <= revents@.len(),
            buf@ == poll_reply_of(status, revents@.take(i as int)),
        decreases revents@.len() - i,
    {
        push_i16_le(&mut buf, revents[i]);
        proof {
            let t = revents@.take(i + 1);
            assert(t.drop_last() =~= revents@.take(i as int));
        }
        i = i + 1;
    }
    assert(revents@.take(revents@.len() as int) =~= revents@);
    buf
}

/// The addresses a name resolved to, joined by commas.
pub open spec fn comma_join(items: Seq<Seq<char>>) -> Seq<char>
    decreases items.len(),
{
    if items.len() == 0 {
        Seq::empty()
    } else if items.len() == 1 {
        items[0]
    } else {
        comma_join(items.drop_last()) + ","@ + items.last()
    }
}

/// `net_resolve` reply for a lookup that succeeded: the addresses joined by
/// commas, or `error:ENOENT` when there were none.
pub open spec fn resolve_reply_of(ips: Seq<Seq<char>>) -> Seq<char> {
    if ips.len() == 0 {
        "error:ENOENT"@
    } else {
        comma_join(ips)
    }
}

/// Encode a `net_resolve` reply for a lookup that succeeded (see
/// [`resolve_reply_of`]).
pub fn resolve_reply(ips: &Vec<String>) -> (r: String)
    ensures
        r@ == resolve_reply_of(ips@.map_values(|s: String| s@)),
{
    let ghost views = ips@.map_values(|s: String| s@);
    if ips.len() == 0 {
        return String::from_str("error:ENOENT");
    }
    let mut out = String::new();
    let mut i: usize = 0;
    while i < ips.len()
        invariant
            i <= ips@.len(),
            ips@.len() > 0,
            views == ips@.map_values(|s: String| s@),
            out@ == comma_join(views.take(i as int)),
        decreases ips@.len() - i,
    {
        if i > 0 {
            out.append(",");
        }
        out.append(ips[i].as_str());
        proof {
            let t = views.take(i + 1);
            assert(t.drop_last() =~= views.take(i as int));
            assert(t.last() == ips@[i as int]@);
            if i == 0 {
                assert(t =~= seq![ips@[0]@]);
            }
        }
        i = i + 1;
    }
    assert(views.take(ips@.len() as int) =~= views);
    out
}

/// The check every descriptor-taking `net_*` call makes before touching a
/// socket: a descriptor not in the table answers `-EBADF`.
pub fn fd_gate(fd_open: bool) -> (r: Result<(), i32>)
    ensures
        r == (if fd_open {
            Ok::<(), i32>(())
        } else {
            Err((-EBADF) as i32)
        }),
{
    if fd_open {
        Ok(())
    } else {
        Err(-EBADF)
    }
}

/// Whether an access policy refuses a destination, given its verdict
/// (`None` when no policy is configured, which refuses nothing).
pub open spec fn policy_refuses(verdict: Option<bool>) -> bool {
    verdict == Some(false)
}

/// Whether the listen-port allowlist refuses `bind()` to `port`: port 0
/// (an ephemeral port) is never refused; another port is refused when an
/// allowlist is configured and its verdict is negative.
pub fn listen_refused(port: u16, verdict: Option<bool>) -> (r: bool)
    ensures
        r == (port != 0 && policy_refuses(verdict)),
{
    port != 0 && match verdict {
        Some(allowed) => !allowed,
        None => false,
    }
}

/// Whether the outbound network policy refuses a destination (see
/// [`policy_refuses`]).
pub fn outbound_refused(verdict: Option<bool>) -> (r: bool)
    ensures
        r == policy_refuses(verdict),
{
    match verdict {
        Some(allowed) => !allowed,
        None => false,
    }
}

/// The checks `net_bind`, `net_connect` and `net_sendto` make before
/// touching a socket, in order: an address that does not parse answers
/// `-EINVAL`, a destination the policy refuses `-EACCES`, a descriptor not
/// in the table `-EBADF`; otherwise the call proceeds.
pub open spec fn address_gate_of(parsed: bool, refused: bool, fd_open: bool) -> Result<(), i32> {
    if !parsed {
        Err((-EINVAL) as i32)
    } else if refused {
        Err((-EACCES) as i32)
    } else if !fd_open {
        Err((-EBADF) as i32)
    } else {
        Ok(())
    }
}

/// Decide whether an addressed socket call proceeds (see
/// [`address_gate_of`]).
pub fn address_gate(parsed: bool, refused: bool, fd_open: bool) -> (r: Result<(), i32>)
    ensures
        r == address_gate_of(parsed, refused, fd_open),
{
    if !parsed {
        Err(-EINVAL)
    } else if refused {
        Err(-EACCES)
    } else if !fd_open {
        Err(-EBADF)
    } else {
        Ok(())
    }
}

/// An address the guest sends is checked before its policy, and the policy
/// before the descriptor: a malformed address is `EINVAL` whatever the
/// policy or descriptor, and a refused destination is `EACCES` even for an
/// unknown descriptor.
pub proof fn lemma_gate_order(refused: bool, fd_open: bool)
    ensures
        address_gate_of(false, refused, fd_open) == Err::<(), i32>((-EINVAL) as i32),
        address_gate_of(true, true, fd_open) == Err::<(), i32>((-EACCES) as i32),
        address_gate_of(true, false, fd_open) is Ok <==> fd_open,
{
}

} // verus!
