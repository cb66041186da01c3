//! Translations between the guest's Linux constants and Winsock's.
//!
//! The guest is a Linux unikernel and speaks Linux errno numbers, `poll`
//! bits and socket-option numbers; a Windows host must translate them.

use vstd::prelude::*;

verus! {

/// The Linux errno for a Winsock (or CRT) error code.
///
/// CRT errno values (< 200) use the same numbering as POSIX; Winsock codes
/// (10000+) map to their Linux counterparts, and any other code to `EIO`.
pub open spec fn winsock_errno(code: i32) -> i32 {
    if code < 200 {
        code
    } else if code == 10004 {
        4
    } else if code == 10009 {
        9
    } else if code == 10013 {
        13
    } else if code == 10014 {
        14
    } else if code == 10022 {
        22
    } else if code == 10024 {
        24
    } else if code == 10035 {
        11
    } else if code == 10036 {
        115
    } else if code == 10037 {
        114
    } else if code == 10038 {
        88
    } else if code == 10048 {
        98
    } else if code == 10049 {
        99
    } else if code == 10050 {
        100
    } else if code == 10051 {
        101
    } else if code == 10053 {
        103
    } else if code == 10054 {
        104
    } else if code == 10055 {
        105
    } else if code == 10056 {
        106
    } else if code == 10057 {
        107
    } else if code == 10060 {
        110
    } else if code == 10061 {
        111
    } else if code == 10065 {
        113
    } else {
        5
    }
}

/// Translate a Winsock error code to a Linux errno value.
pub fn winsock_to_posix(code: i32) -> (r: i32)
    ensures
        r == winsock_errno(code),
{
    if code < 200 {
        return code;
    }
    match code {
        10004 => 4,  // WSAEINTR        -> EINTR
        10009 => 9,  // WSAEBADF        -> EBADF
        10013 => 13,  // WSAEACCES       -> EACCES
        10014 => 14,  // WSAEFAULT       -> EFAULT
        10022 => 22,  // WSAEINVAL       -> EINVAL
        10024 => 24,  // WSAEMFILE       -> EMFILE
        10035 => 11,  // WSAEWOULDBLOCK  -> EAGAIN
        10036 => 115,  // WSAEINPROGRESS  -> EINPROGRESS
        10037 => 114,  // WSAEALREADY     -> EALREADY
        10038 => 88,  // WSAENOTSOCK     -> ENOTSOCK
        10048 => 98,  // WSAEADDRINUSE   -> EADDRINUSE
        10049 => 99,  // WSAEADDRNOTAVAIL-> EADDRNOTAVAIL
        10050 => 100,  // WSAENETDOWN     -> ENETDOWN
        10051 => 101,  // WSAENETUNREACH  -> ENETUNREACH
        10053 => 103,  // WSAECONNABORTED -> ECONNABORTED
        10054 => 104,  // WSAECONNRESET   -> ECONNRESET
        10055 => 105,  // WSAENOBUFS      -> ENOBUFS
        10056 => 106,  // WSAEISCONN      -> EISCONN
        10057 => 107,  // WSAENOTCONN     -> ENOTCONN
        10060 => 110,  // WSAETIMEDOUT    -> ETIMEDOUT
        10061 => 111,  // WSAECONNREFUSED -> ECONNREFUSED
        10065 => 113,  // WSAEHOSTUNREACH -> EHOSTUNREACH
        _ => 5,  // EIO
    }
}

/// Whether any bit of `mask` is set in `v`.
pub open spec fn has_any(v: i16, mask: i16) -> bool {
    v & mask != 0
}

/// The Winsock `WSAPOLLFD` event bits for Linux `poll` event bits:
/// `POLLIN` (0x1) becomes `POLLRDNORM|POLLRDBAND` (0x300), `POLLPRI` (0x2)
/// becomes `POLLPRI` (0x400), `POLLOUT` (0x4) becomes `POLLWRNORM` (0x10);
/// other bits are dropped.
pub open spec fn win_poll_events(linux: i16) -> i16 {
    (if has_any(linux, 0x0001) { 0x0300i16 } else { 0i16 }) | (if has_any(linux, 0x0002) {
        0x0400i16
    } else {
        0i16
    }) | (if has_any(linux, 0x0004) { 0x0010i16 } else { 0i16 })
}

/// The Linux `poll` result bits for Winsock `revents`: `POLLRDNORM|
/// POLLRDBAND` (0x300) → `POLLIN` (0x1), `POLLPRI` (0x400) → `POLLPRI` (0x2),
/// `POLLWRNORM|POLLWRBAND` (0x30) → `POLLOUT` (0x4), `POLLERR` (0x1) →
/// `POLLERR` (0x8), `POLLHUP` (0x2) → `POLLHUP` (0x10), `POLLNVAL` (0x4) →
/// `POLLNVAL` (0x20).
pub open spec fn linux_poll_revents(win: i16) -> i16 {
    (if has_any(win, 0x0300) { 0x0001i16 } else { 0i16 }) | (if has_any(win, 0x0400) {
        0x0002i16
    } else {
        0i16
    }) | (if has_any(win, 0x0030) { 0x0004i16 } else { 0i16 }) | (if has_any(win, 0x0001) {
        0x0008i16
    } else {
        0i16
    }) | (if has_any(win, 0x0002) { 0x0010i16 } else { 0i16 }) | (if has_any(win, 0x0004) {
        0x0020i16
    } else {
        0i16
    })
}

/// Translate Linux poll event bits to Winsock WSAPOLLFD event bits.
pub fn poll_events_to_win(linux: i16) -> (win: i16)
    ensures
        win == win_poll_events(linux),
{
    let mut win: i16 = 0;
    if linux & 0x0001 != 0 {
        win |= 0x0300;
    }
    if linux & 0x0002 != 0 {
        win |= 0x0400;
    }
    if linux & 0x0004 != 0 {
        win |= 0x0010;
    }
    assert(0i16 | 0i16 == 0i16) by (bit_vector);
    assert(forall|x: i16| #[trigger] (x | 0i16) == x) by (bit_vector);
    assert(forall|x: i16| #[trigger] (0i16 | x) == x) by (bit_vector);
    win
}

/// Translate Winsock WSAPOLLFD revents back to Linux constants.
pub fn poll_revents_to_linux(win: i16) -> (linux: i16)
    ensures
        linux == linux_poll_revents(win),
{
    let mut linux: i16 = 0;
    if win & 0x0300 != 0 {
        linux |= 0x0001;
    }
    if win & 0x0400 != 0 {
        linux |= 0x0002;
    }
    if win & 0x0030 != 0 {
        linux |= 0x0004;
    }
    if win & 0x0001 != 0 {
        linux |= 0x0008;
    }
    if win & 0x0002 != 0 {
        linux |= 0x0010;
    }
    if win & 0x0004 != 0 {
        linux |= 0x0020;
    }
    assert(forall|x: i16| #[trigger] (x | 0i16) == x) by (bit_vector);
    assert(forall|x: i16| #[trigger] (0i16 | x) == x) by (bit_vector);
    linux
}

/// Linux `SOL_SOCKET`.
pub const LINUX_SOL_SOCKET: i32 = 1;
/// Winsock `SOL_SOCKET`.
pub const WIN_SOL_SOCKET: i32 = 0xFFFF;

/// The Winsock `(level, optname)` for a Linux socket option.
///
/// `SOL_SOCKET` options are renumbered (`SO_REUSEPORT`, which Winsock
/// lacks, becomes `SO_REUSEADDR`); an unrecognised `SOL_SOCKET` option keeps
/// its number but still gets Winsock's level.  Other levels (`IPPROTO_TCP`,
/// `IPPROTO_IPV6`, ...) share their numbering on both platforms.
pub open spec fn win_sockopt(level: i32, optname: i32) -> (i32, i32) {
    if level != LINUX_SOL_SOCKET {
        (level, optname)
    } else {
        (
            WIN_SOL_SOCKET,
            if optname == 1 {
                1
            } else if optname == 2 {
                4
            } else if optname == 3 {
                0x1008
            } else if optname == 4 {
                0x1007
            } else if optname == 5 {
                0x0010
            } else if optname == 6 {
                0x0020
            } else if optname == 7 {
                0x1001
            } else if optname == 8 {
                0x1002
            } else if optname == 9 {
                8
            } else if optname == 10 {
                0x0100
            } else if optname == 13 {
                0x0080
            } else if optname == 15 {
                4
            } else if optname == 20 {
                0x1006
            } else if optname == 21 {
                0x1005
            } else {
                optname
            },
        )
    }
}

/// Translate Linux socket option (level, optname) to Windows equivalents.
pub fn translate_sockopt(level: i32, optname: i32) -> (r: (i32, i32))
    ensures
        r == win_sockopt(level, optname),
{
    if level != LINUX_SOL_SOCKET {
        return (level, optname);
    }
    let win_optname = match optname {
        1 => 1,  // SO_DEBUG
        2 => 4,  // SO_REUSEADDR
        3 => 0x1008,  // SO_TYPE
        4 => 0x1007,  // SO_ERROR
        5 => 0x0010,  // SO_DONTROUTE
        6 => 0x0020,  // SO_BROADCAST
        7 => 0x1001,  // SO_SNDBUF
        8 => 0x1002,  // SO_RCVBUF
        9 => 8,  // SO_KEEPALIVE
        10 => 0x0100,  // SO_OOBINLINE
        13 => 0x0080,  // SO_LINGER
        15 => 4,  // SO_REUSEPORT -> SO_REUSEADDR
        20 => 0x1006,  // SO_RCVTIMEO
        21 => 0x1005,  // SO_SNDTIMEO
        _ => optname,
    };
    (WIN_SOL_SOCKET, win_optname)
}

/// The value `getsockopt` hands the guest on a Windows host: `SO_ERROR`
/// (level 1, option 4) reports a Winsock code, which is translated to a
/// Linux errno; every other option's value passes through.
pub fn win_getsockopt_value(level: i32, optname: i32, val: i32) -> (r: i32)
    ensures
        r == if level == 1 && optname == 4 {
            winsock_errno(val)
        } else {
            val
        },
{
    if level == 1 && optname == 4 {
        winsock_to_posix(val)
    } else {
        val
    }
}

/// Translating Linux `poll` events to Winsock and the same bits back as
/// returned events gives back exactly the `POLLIN`, `POLLPRI` and `POLLOUT`
/// bits that were asked for.
pub proof fn lemma_poll_bits_round_trip(linux: i16)
    ensures
        linux_poll_revents(win_poll_events(linux)) == linux & 0x0007,
{
    let a = if linux & 0x0001i16 != 0 { 0x0300i16 } else { 0i16 };
    let b = if linux & 0x0002i16 != 0 { 0x0400i16 } else { 0i16 };
    let c = if linux & 0x0004i16 != 0 { 0x0010i16 } else { 0i16 };
    let w = a | b | c;
    assert(w == win_poll_events(linux));
    assert(linux_poll_revents(w) == linux & 0x0007i16) by (bit_vector)
        requires
            a == (if linux & 0x0001i16 != 0 { 0x0300i16 } else { 0i16 }),
            b == (if linux & 0x0002i16 != 0 { 0x0400i16 } else { 0i16 }),
            c == (if linux & 0x0004i16 != 0 { 0x0010i16 } else { 0i16 }),
            w == a | b | c,
    ;
}

/// Options at levels other than `SOL_SOCKET` pass through unchanged, and
/// every `SOL_SOCKET` option lands at Winsock's `SOL_SOCKET` level.
pub proof fn lemma_sockopt_levels(level: i32, optname: i32)
    ensures
        level != LINUX_SOL_SOCKET ==> win_sockopt(level, optname) == (level, optname),
        level == LINUX_SOL_SOCKET ==> win_sockopt(level, optname).0 == WIN_SOL_SOCKET,
{
}

/// Each Winsock result bit lands on the Linux `poll` bit of the same
/// meaning, and no other Linux bit is ever set: `POLLRDNORM|POLLRDBAND`
/// (0x300) → `POLLIN` (0x1), `POLLPRI` (0x400) → `POLLPRI` (0x2),
/// `POLLWRNORM|POLLWRBAND` (0x30) → `POLLOUT` (0x4), `POLLERR` (0x1) →
/// `POLLERR` (0x8), `POLLHUP` (0x2) → `POLLHUP` (0x10), `POLLNVAL` (0x4) →
/// `POLLNVAL` (0x20).
pub proof fn lemma_revents_bit_meanings(win: i16)
    ensures
        (linux_poll_revents(win) & 0x0001 != 0) == (win & 0x0300 != 0),
        (linux_poll_revents(win) & 0x0002 != 0) == (win & 0x0400 != 0),
        (linux_poll_revents(win) & 0x0004 != 0) == (win & 0x0030 != 0),
        (linux_poll_revents(win) & 0x0008 != 0) == (win & 0x0001 != 0),
        (linux_poll_revents(win) & 0x0010 != 0) == (win & 0x0002 != 0),
        (linux_poll_revents(win) & 0x0020 != 0) == (win & 0x0004 != 0),
        linux_poll_revents(win) & 0x003f == linux_poll_revents(win),
{
    let r = linux_poll_revents(win);
    assert({
        &&& (r & 0x0001 != 0) == (win & 0x0300 != 0)
        &&& (r & 0x0002 != 0) == (win & 0x0400 != 0)
        &&& (r & 0x0004 != 0) == (win & 0x0030 != 0)
        &&& (r & 0x0008 != 0) == (win & 0x0001 != 0)
        &&& (r & 0x0010 != 0) == (win & 0x0002 != 0)
        &&& (r & 0x0020 != 0) == (win & 0x0004 != 0)
        &&& r & 0x003f == r
    }) by (bit_vector)
        requires
            r == linux_poll_revents(win),
    ;
}

/// Each Linux `poll` event bit asks for the Winsock bits of the same
/// meaning, and nothing else is asked for: `POLLIN` (0x1) →
/// `POLLRDNORM|POLLRDBAND` (0x300), `POLLPRI` (0x2) → `POLLPRI` (0x400),
/// `POLLOUT` (0x4) → `POLLWRNORM` (0x10).
pub proof fn lemma_events_bit_meanings(linux: i16)
    ensures
        (win_poll_events(linux) & 0x0300 == 0x0300) == (linux & 0x0001 != 0),
        (win_poll_events(linux) & 0x0300 == 0) == (linux & 0x0001 == 0),
        (win_poll_events(linux) & 0x0400 != 0) == (linux & 0x0002 != 0),
        (win_poll_events(linux) & 0x0010 != 0) == (linux & 0x0004 != 0),
        win_poll_events(linux) & 0x0710 == win_poll_events(linux),
{
    let w = win_poll_events(linux);
    assert({
        &&& (w & 0x0300 == 0x0300) == (linux & 0x0001 != 0)
        &&& (w & 0x0300 == 0) == (linux & 0x0001 == 0)
        &&& (w & 0x0400 != 0) == (linux & 0x0002 != 0)
        &&& (w & 0x0010 != 0) == (linux & 0x0004 != 0)
        &&& w & 0x0710 == w
    }) by (bit_vector)
        requires
            w == win_poll_events(linux),
    ;
}

/// Every `SOL_SOCKET` option the guest may name maps to the Winsock option
/// of the same name: `SO_DEBUG` 1 → 0x0001, `SO_REUSEADDR` 2 → 0x0004,
/// `SO_TYPE` 3 → 0x1008, `SO_ERROR` 4 → 0x1007, `SO_DONTROUTE` 5 → 0x0010,
/// `SO_BROADCAST` 6 → 0x0020, `SO_SNDBUF` 7 → 0x1001, `SO_RCVBUF` 8 → 0x1002,
/// `SO_KEEPALIVE` 9 → 0x0008, `SO_OOBINLINE` 10 → 0x0100, `SO_LINGER` 13 →
/// 0x0080, `SO_REUSEPORT` 15 → `SO_REUSEADDR` 0x0004, `SO_RCVTIMEO` 20 →
/// 0x1006, `SO_SNDTIMEO` 21 → 0x1005; any other option keeps its number.
pub proof fn lemma_sol_socket_option_names(optname: i32)
    ensures
        win_sockopt(1, optname) == (0xFFFFi32, (if optname == 1 {
            0x0001i32
        } else if optname == 2 || optname == 15 {
            0x0004i32
        } else if optname == 3 {
            0x1008i32
        } else if optname == 4 {
            0x1007i32
        } else if optname == 5 {
            0x0010i32
        } else if optname == 6 {
            0x0020i32
        } else if optname == 7 {
            0x1001i32
        } else if optname == 8 {
            0x1002i32
        } else if optname == 9 {
            0x0008i32
        } else if optname == 10 {
            0x0100i32
        } else if optname == 13 {
            0x0080i32
        } else if optname == 20 {
            0x1006i32
        } else if optname == 21 {
            0x1005i32
        } else {
            optname
        })),
{
}

/// Distinct `SOL_SOCKET` options reach distinct Winsock options, except
/// `SO_REUSEPORT`, which Winsock lacks and which shares `SO_REUSEADDR`.
pub proof fn lemma_sol_socket_options_distinct(a: i32, b: i32)
    requires
        1 <= a <= 21,
        1 <= b <= 21,
        a != b,
        !(a == 2 && b == 15),
        !(a == 15 && b == 2),
        (a <= 10 || a == 13 || a == 15 || a == 20 || a == 21),
        (b <= 10 || b == 13 || b == 15 || b == 20 || b == 21),
    ensures
        win_sockopt(1, a).1 != win_sockopt(1, b).1,
{
}

/// Winsock and CRT error codes reach the Linux errno of the same name:
/// CRT codes below 200 keep their (POSIX) number; `WSAEINTR` 10004 → `EINTR`
/// 4, `WSAEBADF` 10009 → `EBADF` 9, `WSAEACCES` 10013 → `EACCES` 13,
/// `WSAEFAULT` 10014 → `EFAULT` 14, `WSAEINVAL` 10022 → `EINVAL` 22,
/// `WSAEMFILE` 10024 → `EMFILE` 24, `WSAEWOULDBLOCK` 10035 → `EAGAIN` 11,
/// `WSAEINPROGRESS` 10036 → `EINPROGRESS` 115, `WSAEALREADY` 10037 →
/// `EALREADY` 114, `WSAENOTSOCK` 10038 → `ENOTSOCK` 88, `WSAEADDRINUSE`
/// 10048 → `EADDRINUSE` 98, `WSAEADDRNOTAVAIL` 10049 → `EADDRNOTAVAIL` 99,
/// `WSAENETDOWN` 10050 → `ENETDOWN` 100, `WSAENETUNREACH` 10051 →
/// `ENETUNREACH` 101, `WSAECONNABORTED` 10053 → `ECONNABORTED` 103,
/// `WSAECONNRESET` 10054 → `ECONNRESET` 104, `WSAENOBUFS` 10055 → `ENOBUFS`
/// 105, `WSAEISCONN` 10056 → `EISCONN` 106, `WSAENOTCONN` 10057 → `ENOTCONN`
/// 107, `WSAETIMEDOUT` 10060 → `ETIMEDOUT` 110, `WSAECONNREFUSED` 10061 →
/// `ECONNREFUSED` 111, `WSAEHOSTUNREACH` 10065 → `EHOSTUNREACH` 113; every
/// other code is `EIO` 5.
pub proof fn lemma_winsock_error_names(code: i32)
    ensures
        winsock_errno(code) == (if code < 200 {
            code
        } else if code == 10004 {
            4i32
        } else if code == 10009 {
            9i32
        } else if code == 10013 {
            13i32
        } else if code == 10014 {
            14i32
        } else if code == 10022 {
            22i32
        } else if code == 10024 {
            24i32
        } else if code == 10035 {
            11i32
        } else if code == 10036 {
            115i32
        } else if code == 10037 {
            114i32
        } else if code == 10038 {
            88i32
        } else if code == 10048 {
            98i32
        } else if code == 10049 {
            99i32
        } else if code == 10050 {
            100i32
        } else if code == 10051 {
            101i32
        } else if code == 10053 {
            103i32
        } else if code == 10054 {
            104i32
        } else if code == 10055 {
            105i32
        } else if code == 10056 {
            106i32
        } else if code == 10057 {
            107i32
        } else if code == 10060 {
            110i32
        } else if code == 10061 {
            111i32
        } else if code == 10065 {
            113i32
        } else {
            5i32
        }),
{
}

/// A Winsock code that is not in the translation table is `EIO`, and a
/// translated code is always a small positive errno or the code itself.
pub proof fn lemma_winsock_errno_range(code: i32)
    ensures
        code >= 200 ==> 4 <= winsock_errno(code) <= 115,
        code < 200 ==> winsock_errno(code) == code,
{
}

} // verus!
