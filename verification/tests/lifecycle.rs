use tsnet::ConfigBuilder;
use tsnet::ErrFetch;
use tsnet::Error;
use tsnet::Server;
use tsnet::TSNet;

fn fetch_with(text: &str) -> ErrFetch {
    let mut buf = text.as_bytes().to_vec();
    buf.resize(1024, 0);
    ErrFetch { status: 0, buf }
}

fn plain_tsnet() -> TSNet {
    let config = ConfigBuilder::new().ephemeral(true).hostname("test-node").build().unwrap();
    let (ts, _ops) = TSNet::new(config).unwrap();
    ts
}

#[test]
fn up_success_marks_started() {
    let mut ts = plain_tsnet();
    assert!(ts.start_needed());
    ts.up(0, &fetch_with("")).unwrap();
    assert!(!ts.start_needed());
}

#[test]
fn up_failure_surfaces_diagnostic() {
    let mut ts = plain_tsnet();
    let r = ts.up(1, &fetch_with("backend not ready"));
    assert!(matches!(r, Err(Error::TSNet(ref m)) if m == "backend not ready"));
    assert!(ts.start_needed());
}

#[test]
fn start_success_marks_started() {
    let mut ts = plain_tsnet();
    ts.start(0, &fetch_with("")).unwrap();
    assert!(!ts.start_needed());
}

#[test]
fn close_twice_has_no_second_effect() {
    let mut ts = plain_tsnet();
    ts.close(0, &fetch_with("")).unwrap();
    assert!(ts.is_closed());
    // the second close consults nothing: even a failure status is ignored
    ts.close(9, &fetch_with("never read")).unwrap();
    assert!(ts.is_closed());
}

#[test]
fn server_close_twice_has_no_second_effect() {
    let (mut srv, _ops) = Server::new().ephemeral().build().unwrap();
    srv.close(0, &fetch_with("")).unwrap();
    assert!(srv.is_closed());
    srv.close(5, &fetch_with("never read")).unwrap();
    assert!(srv.is_closed());
}

#[test]
fn close_failure_still_prevents_reuse() {
    let mut ts = plain_tsnet();
    let r = ts.close(3, &fetch_with("teardown failed"));
    assert!(matches!(r, Err(Error::TSNet(ref m)) if m == "teardown failed"));
    assert!(ts.is_closed());
    assert!(matches!(ts.dial("tcp", "host:80"), Err(Error::Closed)));
}

#[test]
fn dial_requests_start_exactly_until_started() {
    let mut ts = plain_tsnet();
    let call = ts.dial("tcp", "echo-host:1999").unwrap();
    assert_eq!(call.network, "tcp");
    assert_eq!(call.addr, "echo-host:1999");
    assert!(call.start_first);
    let conn = ts.dial_done(0, 8, &fetch_with("")).unwrap();
    assert_eq!(conn.raw_fd(), 8);
    assert!(conn.is_open());
    let again = ts.dial("tcp", "echo-host:1999").unwrap();
    assert!(!again.start_first);
}

#[test]
fn dial_rejects_interior_nul() {
    let mut ts = plain_tsnet();
    assert!(matches!(ts.dial("tcp", "bad\0addr"), Err(Error::NullInString)));
    assert!(matches!(ts.dial("t\0cp", "addr:1"), Err(Error::NullInString)));
}

#[test]
fn dial_failure_allocates_no_connection() {
    let mut ts = plain_tsnet();
    let _call = ts.dial("tcp", "nowhere.invalid:80").unwrap();
    let r = ts.dial_done(1, -1, &fetch_with("dial tcp: no such host nowhere.invalid"));
    match r {
        Err(Error::TSNet(m)) => {
            assert!(!m.is_empty());
            assert_eq!(m, "dial tcp: no such host nowhere.invalid");
        },
        other => panic!("expected an engine report, got {:?}", other),
    }
}

#[test]
fn listen_flow_yields_listener() {
    let mut ts = plain_tsnet();
    let call = ts.listen("tcp", ":0").unwrap();
    assert_eq!(call.network, "tcp");
    assert_eq!(call.addr, ":0");
    assert!(call.start_first);
    let ln = ts.listen_done(0, 9, &fetch_with("")).unwrap();
    assert_eq!(ln.raw_fd(), 9);
    assert!(ln.is_open());
    assert!(!ts.start_needed());
}

#[test]
fn listen_failure_surfaces_diagnostic() {
    let mut ts = plain_tsnet();
    let _call = ts.listen("tcp", ":70000").unwrap();
    let r = ts.listen_done(1, -1, &fetch_with("listen: invalid port"));
    assert!(matches!(r, Err(Error::TSNet(ref m)) if m == "listen: invalid port"));
}

#[test]
fn server_dial_and_listen_flow() {
    let (mut srv, ops) = Server::new().hostname("tsnet-rs-echoclient").ephemeral().build().unwrap();
    for op in &ops {
        srv.apply_build_status(op, 0, &fetch_with("")).unwrap();
    }
    let call = srv.dial("tcp", "target:1999").unwrap();
    assert!(!call.start_first);
    let conn = srv.dial_done(0, 11, &fetch_with("")).unwrap();
    assert_eq!(conn.raw_fd(), 11);
    let lcall = srv.listen("tcp", ":1999").unwrap();
    assert!(!lcall.start_first);
    let ln = srv.listen_done(0, 12, &fetch_with("")).unwrap();
    assert_eq!(ln.raw_fd(), 12);
}

#[test]
fn server_build_stops_at_first_rejection() {
    let (mut srv, ops) = Server::new().dir("/missing/dir").hostname("h").ephemeral().build().unwrap();
    let mut failed_at = None;
    for (i, op) in ops.iter().enumerate() {
        let status = if i == 0 { 13 } else { 0 };
        match srv.apply_build_status(op, status, &fetch_with("mkdir: no such directory")) {
            Ok(()) => {},
            Err(e) => {
                failed_at = Some((i, e));
                break;
            },
        }
    }
    let (i, e) = failed_at.unwrap();
    assert_eq!(i, 0);
    assert!(matches!(e, Error::TSNet(ref m) if m == "mkdir: no such directory"));
}

#[test]
fn remote_addr_engine_refusal_never_yields_address() {
    let mut ts = plain_tsnet();
    let _ = ts.listen("tcp", ":1999").unwrap();
    let ln = ts.listen_done(0, 9, &fetch_with("")).unwrap();
    let _ = ts.dial("tcp", "other:1").unwrap();
    let conn = ts.dial_done(0, 10, &fetch_with("")).unwrap();
    let call = ts.get_remote_addr(&conn, &ln).unwrap();
    assert_eq!(call.listener_fd, 9);
    assert_eq!(call.conn_fd, 10);
    // the engine does not know this pairing and answers non-zero
    let buf = vec![0u8; 46];
    let r = ts.get_remote_addr_done(1, &buf, &fetch_with("no such conn"));
    assert!(matches!(r, Err(Error::TSNet(ref m)) if m == "no such conn"));
}

#[test]
fn remote_addr_decodes_text() {
    let ts = plain_tsnet();
    let mut buf = b"fd7a:115c:a1e0::2".to_vec();
    buf.resize(46, 0);
    assert_eq!(ts.get_remote_addr_done(0, &buf, &fetch_with("")).unwrap(), "fd7a:115c:a1e0::2");
}

#[test]
fn remote_addr_unterminated_is_error_not_truncation() {
    let ts = plain_tsnet();
    let buf = vec![b'9'; 46];
    assert!(matches!(ts.get_remote_addr_done(0, &buf, &fetch_with("")), Err(Error::Truncated)));
}

#[test]
fn loopback_decodes_three_outputs() {
    let ts = plain_tsnet();
    let mut addr = b"127.0.0.1:45454".to_vec();
    addr.resize(33, 0);
    let mut proxy = b"proxy-cred-0123456789abcdef01234".to_vec();
    proxy.resize(33, 0);
    let mut api = b"api-cred-0123456789abcdef0123456".to_vec();
    api.resize(33, 0);
    let (a, p, l) = ts.loopback(0, &addr, &proxy, &api, &fetch_with("")).unwrap();
    assert_eq!(a, "127.0.0.1:45454");
    assert_eq!(p, "proxy-cred-0123456789abcdef01234");
    assert_eq!(l, "api-cred-0123456789abcdef0123456");
    assert!(p.len() <= 32 && l.len() <= 32);
}

#[test]
fn loopback_unterminated_credential_rejected() {
    let ts = plain_tsnet();
    let mut addr = b"127.0.0.1:1".to_vec();
    addr.resize(33, 0);
    let proxy = vec![b'x'; 33];
    let api = vec![0u8; 33];
    let r = ts.loopback(0, &addr, &proxy, &api, &fetch_with(""));
    assert!(matches!(r, Err(Error::Truncated)));
}

#[test]
fn enable_funnel_statuses() {
    let ts = plain_tsnet();
    ts.enable_funnel_to_localhost_plaintext_http1(0, &fetch_with("")).unwrap();
    let r = ts.enable_funnel_to_localhost_plaintext_http1(2, &fetch_with("funnel not allowed"));
    assert!(matches!(r, Err(Error::TSNet(ref m)) if m == "funnel not allowed"));
}

#[test]
fn closed_handle_rejects_operations() {
    let mut ts = plain_tsnet();
    ts.close(0, &fetch_with("")).unwrap();
    assert!(matches!(ts.up(0, &fetch_with("")), Err(Error::Closed)));
    assert!(matches!(ts.start(0, &fetch_with("")), Err(Error::Closed)));
    assert!(matches!(ts.dial("tcp", "a:1"), Err(Error::Closed)));
    assert!(matches!(ts.listen("tcp", ":1"), Err(Error::Closed)));
    assert!(matches!(ts.get_ips(0, &vec![0u8; 8], &fetch_with("")), Err(Error::Closed)));
}
