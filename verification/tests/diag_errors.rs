use tsnet::diag::absorb_status;
use tsnet::diag::error_from_fetch;
use tsnet::diag::trim_at_nul;
use tsnet::ConfigBuilder;
use tsnet::ErrFetch;
use tsnet::Error;
use tsnet::TSNet;

fn fetch_with(text: &str) -> ErrFetch {
    let mut buf = text.as_bytes().to_vec();
    buf.resize(1024, 0);
    ErrFetch { status: 0, buf }
}

fn plain_tsnet() -> TSNet {
    let config = ConfigBuilder::new().build().unwrap();
    let (ts, _ops) = TSNet::new(config).unwrap();
    ts
}

#[test]
fn trim_at_nul_takes_prefix() {
    let buf = vec![b'h', b'e', b'l', b'l', b'o', 0, b'w', b'o', b'r', b'l', b'd'];
    assert_eq!(trim_at_nul(&buf), b"hello".to_vec());
}

#[test]
fn trim_at_nul_without_nul_keeps_all() {
    let buf = b"abc".to_vec();
    assert_eq!(trim_at_nul(&buf), b"abc".to_vec());
}

#[test]
fn trim_at_nul_empty() {
    assert_eq!(trim_at_nul(&Vec::new()), Vec::<u8>::new());
}

#[test]
fn engine_error_carries_fetched_text() {
    let e = error_from_fetch(&fetch_with("dial tcp: no such host"));
    assert!(matches!(e, Error::TSNet(ref m) if m == "dial tcp: no such host"));
    assert_eq!(e.message(), "tsnet: dial tcp: no such host");
}

#[test]
fn failed_fetch_is_distinct_condition() {
    let f = ErrFetch { status: 7, buf: vec![b'x', 0] };
    assert!(matches!(error_from_fetch(&f), Error::FetchingErrorFromTSNet));
}

#[test]
fn empty_fetched_message_is_distinct_condition() {
    let f = ErrFetch { status: 0, buf: vec![0, b'x', b'y'] };
    assert!(matches!(error_from_fetch(&f), Error::FetchingErrorFromTSNet));
}

#[test]
fn undecodable_fetched_message_is_error() {
    let f = ErrFetch { status: 0, buf: vec![0xff, 0xfe, 0] };
    assert!(matches!(error_from_fetch(&f), Error::TSNetSentBadUTF8));
}

#[test]
fn nonzero_status_always_pairs_nonempty_message() {
    for status in [1, -1, 9, 34] {
        let r = absorb_status(status, &fetch_with("engine rejected the request"));
        match r {
            Err(Error::TSNet(m)) => assert!(!m.is_empty()),
            other => panic!("expected an engine report, got {:?}", other),
        }
    }
    assert!(absorb_status(0, &fetch_with("ignored")).is_ok());
}

#[test]
fn get_ips_decodes_list() {
    let ts = plain_tsnet();
    let mut buf = b"100.64.0.1,fd7a:115c:a1e0::1".to_vec();
    buf.resize(2048, 0);
    let ips = ts.get_ips(0, &buf, &fetch_with("")).unwrap();
    assert_eq!(ips, "100.64.0.1,fd7a:115c:a1e0::1");
}

#[test]
fn get_ips_empty_list_is_valid() {
    let ts = plain_tsnet();
    let buf = vec![0u8; 2048];
    assert_eq!(ts.get_ips(0, &buf, &fetch_with("")).unwrap(), "");
}

#[test]
fn get_ips_unterminated_buffer_rejected() {
    let ts = plain_tsnet();
    let buf = vec![b'1'; 16];
    assert!(matches!(ts.get_ips(0, &buf, &fetch_with("")), Err(Error::Truncated)));
}

#[test]
fn get_ips_engine_failure_uses_fetched_message() {
    let ts = plain_tsnet();
    let buf = vec![0u8; 2048];
    let r = ts.get_ips(34, &buf, &fetch_with("buffer too small"));
    assert!(matches!(r, Err(Error::TSNet(ref m)) if m == "buffer too small"));
}
