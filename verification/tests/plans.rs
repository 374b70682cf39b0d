use torbind::{
    ClientConfigPlan, Error, ProxyRule, TargetAddr, TargetIp, client_config_plan, join_path,
    plan_onion_service, proxy_config_plan, storage_dirs,
};

fn local_target() -> TargetAddr {
    TargetAddr { ip: TargetIp::V4(127, 0, 0, 1), port: 54321 }
}

#[test]
fn join_path_inserts_separator() {
    assert_eq!(join_path("/tmp/anon-test", "cache"), "/tmp/anon-test/cache");
    assert_eq!(join_path("/tmp/anon-test/", "state"), "/tmp/anon-test/state");
    assert_eq!(join_path("", "cache"), "cache");
    assert_eq!(join_path("rel", "state"), "rel/state");
}

#[test]
fn storage_dirs_append_literal_names() {
    let d = storage_dirs("/tmp/anon-test");
    assert_eq!(d.cache_dir, "/tmp/anon-test/cache");
    assert_eq!(d.state_dir, "/tmp/anon-test/state");
}

#[test]
fn config_plan_enables_onion_addrs_without_custom_path() {
    let p: ClientConfigPlan = client_config_plan(None);
    assert!(p.allow_onion_addrs);
    assert!(p.storage.is_none());
}

#[test]
fn config_plan_derives_storage_from_custom_path() {
    let base = String::from("/tmp/anon-test");
    let p = client_config_plan(Some(&base));
    assert!(p.allow_onion_addrs);
    let d = p.storage.unwrap();
    assert_eq!(d.cache_dir, "/tmp/anon-test/cache");
    assert_eq!(d.state_dir, "/tmp/anon-test/state");
}

#[test]
fn proxy_plan_rejects_port_zero() {
    let e = proxy_config_plan(local_target(), 0).unwrap_err();
    assert!(matches!(e, Error::ProxyConfig(_)));
    assert_eq!(e.message(), "port pattern may not be zero");
}

#[test]
fn proxy_plan_holds_exactly_one_rule() {
    let p = proxy_config_plan(local_target(), 80).unwrap();
    assert_eq!(p.rules.len(), 1);
    assert_eq!(p.rules[0], ProxyRule { virtual_port: 80, target: local_target() });
}

#[test]
fn launch_plan_rejects_invalid_nickname() {
    let e = plan_onion_service("has spaces".to_string(), local_target(), 80).unwrap_err();
    assert!(matches!(e, Error::InvalidNickname(_)));
}

#[test]
fn launch_plan_rejects_port_zero_before_nickname() {
    let e = plan_onion_service("has spaces".to_string(), local_target(), 0).unwrap_err();
    assert!(matches!(e, Error::ProxyConfig(_)));
    let e2 = plan_onion_service("testsvc".to_string(), local_target(), 0).unwrap_err();
    assert!(matches!(e2, Error::ProxyConfig(_)));
}

#[test]
fn launch_plan_carries_nickname_and_rule() {
    let p = plan_onion_service("testsvc".to_string(), local_target(), 80).unwrap();
    assert_eq!(p.nickname.as_str(), "testsvc");
    assert_eq!(p.proxy.rules.len(), 1);
    assert_eq!(p.proxy.rules[0].virtual_port, 80);
    assert_eq!(p.proxy.rules[0].target, local_target());
}

#[test]
fn error_messages_are_verbatim() {
    let e = Error::ArtiClient("bootstrap failed: timeout".to_string());
    assert_eq!(e.message(), "bootstrap failed: timeout");
    let e = Error::ConfigBuilder("missing field".to_string());
    assert_eq!(e.message(), "missing field");
}
