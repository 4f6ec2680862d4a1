use ndlp_proxy::config::config_json::ConfigJson;
use ndlp_proxy::config::local_json::LocalJson;
use ndlp_proxy::netio::work::{ListenerAction, Work};

fn mode(s: &str) -> ConfigJson {
    ConfigJson { client_mode: s.to_string() }
}

#[test]
fn listen_mode_is_bridge_only() {
    assert!(mode("BRIDGE").is_listen_mode());
    assert!(!mode("bridge").is_listen_mode());
    assert!(!mode("BRIDGE ").is_listen_mode());
    assert!(!mode("MIRROR").is_listen_mode());
    assert!(!ConfigJson::default().is_listen_mode());
    assert_eq!(ConfigJson::default().client_mode, "");
}

#[test]
fn listening_twice_binds_once() {
    let mut work = Work::new(3);
    assert_eq!(work._thread_id, 3);
    assert_eq!(work.update_config(mode("BRIDGE")), ListenerAction::Bind);
    assert!(work.listening);
    assert_eq!(work.update_config(mode("BRIDGE")), ListenerAction::Keep);
    assert!(work.listening);
}

#[test]
fn leaving_listen_mode_releases_and_rebinds() {
    let mut work = Work::new(0);
    assert_eq!(work.update_config(mode("MIRROR")), ListenerAction::Keep);
    assert!(!work.listening);
    assert_eq!(work.update_config(mode("BRIDGE")), ListenerAction::Bind);
    assert_eq!(work.update_config(mode("MIRROR")), ListenerAction::Release);
    assert!(!work.listening);
    assert_eq!(work.thread_config_json.as_ref().unwrap().client_mode, "MIRROR");
    assert_eq!(work.update_config(mode("BRIDGE")), ListenerAction::Bind);
    assert_eq!(work.thread_config_json.as_ref().unwrap().client_mode, "BRIDGE");
}

#[test]
fn local_snapshot_is_replaced() {
    let mut work = Work::new(1);
    work.update_local(LocalJson::from_fields(None, None, None, None, None, Some(4)));
    assert_eq!(work.thread_local_json.as_ref().unwrap().thread_num, 4);
    assert!(!work.listening);
}

#[test]
fn local_fields_default() {
    let l = LocalJson::from_fields(None, None, None, None, None, None);
    assert!(!l._mirror._enable);
    assert_eq!(l._mirror._interface, "");
    assert!(!l._icap_remote._enable);
    assert_eq!(l._icap_remote._ip, "");
    assert_eq!(l._icap_remote._port, 1344);
    assert_eq!(l.thread_num, 1);
}

#[test]
fn local_fields_given() {
    let l = LocalJson::from_fields(
        Some(true),
        Some("eth1".to_string()),
        Some(true),
        Some("10.0.0.2".to_string()),
        Some(70000),
        Some(8),
    );
    assert!(l._mirror._enable);
    assert_eq!(l._mirror._interface, "eth1");
    assert!(l._icap_remote._enable);
    assert_eq!(l._icap_remote._ip, "10.0.0.2");
    assert_eq!(l._icap_remote._port, 4464);
    assert_eq!(l.thread_num, 8);
}
