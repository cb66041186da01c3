use hyperlight_unikraft::hostnet::calls::{
    address_gate, fd_gate, connect_status_win, listen_refused, outbound_refused, accept_reply, addr_result, connect_status, count_status, parse_poll_request, poll_reply,
    recv_len, recvfrom_reply, resolve_reply, shutdown_how, sleep_ns, socket_request, unit_status,
    Family, PollEntry, ShutdownHow, SockKind, SocketRequest,
};
use hyperlight_unikraft::hostnet::errno::{
    errno_vec, errno_vec_win, neg_errno, neg_errno_code, neg_errno_win, neg_errno_win_code,
};
use hyperlight_unikraft::hostnet::table::{SocketTable, MAX_SOCKETS};
use hyperlight_unikraft::hostnet::winsock::{
    poll_events_to_win, poll_revents_to_linux, translate_sockopt, win_getsockopt_value,
    winsock_to_posix,
};
use hyperlight_unikraft::hostnet::wire::{pack_addr, read_i16_le, read_i32_le, status_bytes, PeerAddr};

// ── errno ──────────────────────────────────────────────────────────

#[test]
fn neg_errno_of_os_errors() {
    assert_eq!(neg_errno(std::io::Error::from_raw_os_error(111)), -111);
    assert_eq!(neg_errno(std::io::Error::new(std::io::ErrorKind::Other, "x")), -5);
    assert_eq!(errno_vec(std::io::Error::from_raw_os_error(9)), (-9i32).to_le_bytes().to_vec());
    assert_eq!(neg_errno_code(Some(i32::MIN)), i32::MIN);
    assert_eq!(neg_errno_code(None), -5);
}

#[test]
fn winsock_codes_translate() {
    assert_eq!(winsock_to_posix(2), 2);
    assert_eq!(winsock_to_posix(199), 199);
    assert_eq!(winsock_to_posix(10035), 11);
    assert_eq!(winsock_to_posix(10061), 111);
    assert_eq!(winsock_to_posix(10065), 113);
    assert_eq!(winsock_to_posix(10004), 4);
    assert_eq!(winsock_to_posix(10040), 5);
    assert_eq!(winsock_to_posix(200), 5);
}

#[test]
fn poll_bits_translate() {
    assert_eq!(poll_events_to_win(0x0001), 0x0300);
    assert_eq!(poll_events_to_win(0x0007), 0x0710);
    assert_eq!(poll_events_to_win(0x0008), 0);
    assert_eq!(poll_revents_to_linux(0x0100), 0x0001);
    assert_eq!(poll_revents_to_linux(0x0020), 0x0004);
    assert_eq!(poll_revents_to_linux(0x0007), 0x0038);
    assert_eq!(poll_revents_to_linux(0x0730), 0x0007);
    for linux in 0..8i16 {
        assert_eq!(poll_revents_to_linux(poll_events_to_win(linux)), linux);
    }
}

#[test]
fn sockopt_translation() {
    assert_eq!(translate_sockopt(1, 2), (0xFFFF, 4));
    assert_eq!(translate_sockopt(1, 15), (0xFFFF, 4));
    assert_eq!(translate_sockopt(1, 4), (0xFFFF, 0x1007));
    assert_eq!(translate_sockopt(1, 99), (0xFFFF, 99));
    assert_eq!(translate_sockopt(6, 1), (6, 1));
    assert_eq!(win_getsockopt_value(1, 4, 10054), 104);
    assert_eq!(win_getsockopt_value(1, 7, 10054), 10054);
}

// ── socket table ───────────────────────────────────────────────────

#[test]
fn socket_table_hands_out_fds_from_three() {
    let mut t: SocketTable<&str> = SocketTable::new();
    assert_eq!(t.insert("a"), Ok(3));
    assert_eq!(t.insert("b"), Ok(4));
    assert_eq!(t.get(3), Some(&"a"));
    assert_eq!(t.get(4), Some(&"b"));
    assert_eq!(t.get(5), None);
    assert_eq!(t.remove(3), Some("a"));
    assert_eq!(t.remove(3), None);
    assert_eq!(t.get(3), None);
    // Descriptors are not reused.
    assert_eq!(t.insert("c"), Ok(5));
    assert_eq!(t.len(), 2);
}

#[test]
fn socket_table_is_bounded() {
    let mut t: SocketTable<usize> = SocketTable::new();
    for i in 0..MAX_SOCKETS {
        assert!(t.insert(i).is_ok());
    }
    assert_eq!(t.insert(9999), Err(24));
    assert_eq!(t.len(), MAX_SOCKETS);
    assert!(t.remove(3).is_some());
    assert_eq!(t.insert(7), Ok(3 + MAX_SOCKETS as i32));
}

// ── wire formats ───────────────────────────────────────────────────

#[test]
fn pack_v4_and_v6_addresses() {
    let mut buf = Vec::new();
    pack_addr(&mut buf, &PeerAddr::V4 { octets: [127, 0, 0, 1], port: 8080 });
    assert_eq!(buf, vec![2, 0, 0, 0, 0x90, 0x1f, 4, 127, 0, 0, 1]);

    let mut buf = vec![0xee];
    let mut v6 = [0u8; 16];
    v6[15] = 1;
    pack_addr(&mut buf, &PeerAddr::V6 { octets: v6, port: 443 });
    let mut want = vec![0xee, 10, 0, 0, 0, 0xbb, 0x01, 16];
    want.extend_from_slice(&v6);
    assert_eq!(buf, want);
}

#[test]
fn address_results() {
    let r = addr_result(Some(PeerAddr::V4 { octets: [10, 0, 0, 2], port: 53 }));
    assert_eq!(r, vec![0, 0, 0, 0, 2, 0, 0, 0, 53, 0, 4, 10, 0, 0, 2]);
    assert_eq!(addr_result(None), (-97i32).to_le_bytes().to_vec());
    assert_eq!(status_bytes(-9), vec![0xf7, 0xff, 0xff, 0xff]);
}

#[test]
fn accept_and_recvfrom_replies() {
    let r = accept_reply(5, Some(PeerAddr::V4 { octets: [1, 2, 3, 4], port: 1 }));
    assert_eq!(r, vec![5, 0, 0, 0, 2, 0, 0, 0, 1, 0, 4, 1, 2, 3, 4]);
    assert_eq!(accept_reply(6, None), vec![6, 0, 0, 0]);

    let r = recvfrom_reply(Some(PeerAddr::V4 { octets: [8, 8, 8, 8], port: 53 }), b"hi");
    assert_eq!(r, vec![2, 0, 0, 0, 2, 0, 0, 0, 53, 0, 4, 8, 8, 8, 8, b'h', b'i']);
    let r = recvfrom_reply(None, b"");
    assert_eq!(r, vec![0, 0, 0, 0, 0, 0, 0, 0, 0, 0, 0]);
}

#[test]
fn poll_request_and_reply() {
    let mut raw = Vec::new();
    raw.extend(7i32.to_le_bytes());
    raw.extend(1i16.to_le_bytes());
    raw.extend(0i16.to_le_bytes());
    raw.extend((-1i32).to_le_bytes());
    raw.extend((-32768i16).to_le_bytes());
    raw.extend(0i16.to_le_bytes());
    raw.extend([1, 2, 3]); // trailing partial record is ignored
    let entries = parse_poll_request(&raw);
    assert_eq!(
        entries,
        vec![PollEntry { fd: 7, events: 1 }, PollEntry { fd: -1, events: -32768 }]
    );
    assert_eq!(read_i32_le(&raw, 8), -1);
    assert_eq!(read_i16_le(&raw, 12), -32768);

    let r = poll_reply(1, &[4, -1]);
    assert_eq!(r, vec![1, 0, 0, 0, 4, 0, 0xff, 0xff]);
    assert_eq!(poll_reply(-4, &[]), vec![0xfc, 0xff, 0xff, 0xff]);
}

// ── per-call decisions ─────────────────────────────────────────────

#[test]
fn socket_requests() {
    assert_eq!(
        socket_request(2, 1, 0),
        Ok(SocketRequest { family: Family::Ipv4, kind: SockKind::Stream, protocol: None })
    );
    assert_eq!(
        socket_request(10, 2 | 0x800, 17),
        Ok(SocketRequest { family: Family::Ipv6, kind: SockKind::Datagram, protocol: Some(17) })
    );
    assert_eq!(socket_request(1, 1, 0), Err(-97));
    assert_eq!(socket_request(2, 3, 0), Err(-93));
}

#[test]
fn shutdown_directions() {
    assert_eq!(shutdown_how(0), ShutdownHow::Read);
    assert_eq!(shutdown_how(1), ShutdownHow::Write);
    assert_eq!(shutdown_how(2), ShutdownHow::Both);
    assert_eq!(shutdown_how(-3), ShutdownHow::Both);
}

#[test]
fn recv_and_sleep_caps() {
    assert_eq!(recv_len(100), 100);
    assert_eq!(recv_len(65536), 65536);
    assert_eq!(recv_len(1 << 20), 65536);
    assert_eq!(recv_len(-1), 65536);
    assert_eq!(sleep_ns(5), 5);
    assert_eq!(sleep_ns(u64::MAX), 30_000_000_000);
}

#[test]
fn operation_statuses() {
    assert_eq!(unit_status(Ok(())), 0);
    assert_eq!(unit_status(Err(Some(98))), -98);
    assert_eq!(connect_status(Err(Some(115))), 0);
    assert_eq!(connect_status(Err(Some(111))), -111);
    assert_eq!(connect_status(Err(None)), -5);
    assert_eq!(count_status(Ok(12)), 12);
    assert_eq!(count_status(Err(Some(32))), -32);
}

#[test]
fn resolve_replies() {
    assert_eq!(resolve_reply(&Vec::new()), "error:ENOENT");
    assert_eq!(resolve_reply(&vec!["1.2.3.4".to_string()]), "1.2.3.4");
    assert_eq!(
        resolve_reply(&vec!["1.2.3.4".to_string(), "::1".to_string()]),
        "1.2.3.4,::1"
    );
}

#[test]
fn socket_table_open_and_close() {
    let mut t: SocketTable<u32> = SocketTable::new();
    assert_eq!(t.open(10), 3);
    assert_eq!(t.open(11), 4);
    assert_eq!(t.close(3), 0);
    assert_eq!(t.close(3), 0);
    assert_eq!(t.get(3), None);
    assert_eq!(t.get(4), Some(&11));
    for i in 0..(MAX_SOCKETS - 1) {
        assert!(t.open(i as u32) > 0);
    }
    assert_eq!(t.open(0), -24);
}

#[test]
fn errno_conversions_on_windows_hosts() {
    assert_eq!(neg_errno_win_code(Some(10061)), -111);
    assert_eq!(neg_errno_win_code(Some(13)), -13);
    assert_eq!(neg_errno_win_code(Some(10040)), -5);
    assert_eq!(neg_errno_win_code(None), -5);
    assert_eq!(neg_errno_win(std::io::Error::from_raw_os_error(10054)), -104);
    assert_eq!(neg_errno_win(std::io::Error::new(std::io::ErrorKind::Other, "x")), -5);
    assert_eq!(
        errno_vec_win(std::io::Error::from_raw_os_error(10035)),
        (-11i32).to_le_bytes().to_vec()
    );
}

#[test]
fn errno_bytes_match_conversion() {
    assert_eq!(errno_vec(std::io::Error::from_raw_os_error(9)), vec![0xF7, 0xFF, 0xFF, 0xFF]);
    assert_eq!(
        errno_vec(std::io::Error::new(std::io::ErrorKind::Other, "x")),
        vec![0xFB, 0xFF, 0xFF, 0xFF]
    );
}

#[test]
fn address_gate_order() {
    assert_eq!(address_gate(false, true, false), Err(-22));
    assert_eq!(address_gate(true, true, false), Err(-13));
    assert_eq!(address_gate(true, false, false), Err(-9));
    assert_eq!(address_gate(true, false, true), Ok(()));
}

#[test]
fn policy_verdicts() {
    assert!(!listen_refused(0, Some(false)));
    assert!(listen_refused(8080, Some(false)));
    assert!(!listen_refused(8080, Some(true)));
    assert!(!listen_refused(8080, None));
    assert!(outbound_refused(Some(false)));
    assert!(!outbound_refused(Some(true)));
    assert!(!outbound_refused(None));
}

#[test]
fn connect_status_on_windows_hosts() {
    assert_eq!(connect_status_win(Ok(())), 0);
    assert_eq!(connect_status_win(Err(Some(10035))), 0);
    assert_eq!(connect_status_win(Err(Some(10036))), 0);
    assert_eq!(connect_status_win(Err(Some(10061))), -111);
    assert_eq!(connect_status_win(Err(None)), -5);
}

#[test]
fn descriptor_gate() {
    assert_eq!(fd_gate(true), Ok(()));
    assert_eq!(fd_gate(false), Err(-9));
}
