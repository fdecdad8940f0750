use tsnet::Config;
use tsnet::ConfigBuilder;
use tsnet::EngineOp;
use tsnet::Error;
use tsnet::Server;
use tsnet::TSNet;

#[test]
fn make_server() {
    Server::new().hostname("xn--g28h").ephemeral().build().unwrap();
}

#[test]
fn build_plan_fixed_order() {
    let (srv, ops) = Server::new()
        .dir("/data/tsnet")
        .hostname("tsnet-rs-echoserver")
        .authkey(String::from("tskey-test"))
        .control_url(String::from("https://controlplane.tailscale.com"))
        .ephemeral()
        .build()
        .unwrap();
    assert!(!srv.is_closed());
    assert_eq!(
        ops,
        vec![
            EngineOp::SetDir(String::from("/data/tsnet")),
            EngineOp::SetHostname(String::from("tsnet-rs-echoserver")),
            EngineOp::SetAuthkey(String::from("tskey-test")),
            EngineOp::SetControlUrl(String::from("https://controlplane.tailscale.com")),
            EngineOp::SetEphemeral(true),
            EngineOp::Start,
        ]
    );
}

#[test]
fn build_plan_absent_fields_skipped() {
    let (_srv, ops) = Server::new().build().unwrap();
    assert_eq!(ops, vec![EngineOp::SetEphemeral(false), EngineOp::Start]);
}

#[test]
fn builder_order_independent() {
    let (_s1, ops1) = Server::new()
        .hostname("test-node")
        .ephemeral()
        .dir("/tmp/tsnet-state")
        .build()
        .unwrap();
    let (_s2, ops2) = Server::new()
        .dir("/tmp/tsnet-state")
        .ephemeral()
        .hostname("test-node")
        .build()
        .unwrap();
    assert_eq!(ops1, ops2);
}

#[test]
fn build_rejects_interior_nul() {
    let r = Server::new().hostname("bad\0name").build();
    assert!(matches!(r, Err(Error::NullInString)));
}

#[test]
fn config_builder_collects_fields() {
    let config: Config = ConfigBuilder::new()
        .dir("/data/tsnet")
        .ephemeral(true)
        .hostname("rust-example")
        .logging_fd(-1)
        .build()
        .unwrap();
    assert_eq!(config.dir.as_deref(), Some("/data/tsnet"));
    assert_eq!(config.hostname.as_deref(), Some("rust-example"));
    assert_eq!(config.authkey, None);
    assert_eq!(config.control_url, None);
    assert!(config.ephemeral);
    assert_eq!(config.logging_fd, -1);
}

#[test]
fn tsnet_new_plan_ephemeral_only_when_set() {
    let config = ConfigBuilder::new()
        .authkey("tskey-test")
        .hostname("rust-example")
        .build()
        .unwrap();
    let (ts, ops) = TSNet::new(config).unwrap();
    assert!(!ts.is_closed());
    assert!(ts.start_needed());
    assert_eq!(
        ops,
        vec![
            EngineOp::SetHostname(String::from("rust-example")),
            EngineOp::SetAuthkey(String::from("tskey-test")),
            EngineOp::SetLogFd(-1),
        ]
    );

    let config2 = ConfigBuilder::new().ephemeral(true).logging_fd(2).build().unwrap();
    let (_ts2, ops2) = TSNet::new(config2).unwrap();
    assert_eq!(ops2, vec![EngineOp::SetEphemeral(true), EngineOp::SetLogFd(2)]);
}

#[test]
fn tsnet_new_rejects_interior_nul() {
    let config = ConfigBuilder::new().authkey("tskey\0oops").build().unwrap();
    assert!(matches!(TSNet::new(config), Err(Error::NullInString)));
}
