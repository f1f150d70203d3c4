use std::collections::HashMap;

use v2ray_rs::proxy::{ProxyNode, TlsSettings, TransportSettings, VlessConfig, WsSettings};
use v2ray_rs::settings::{AppSettings, BackendConfig, BackendType, Language};

fn sample_vless() -> ProxyNode {
    ProxyNode::Vless(VlessConfig {
        address: "example.com".into(),
        port: 443,
        uuid: "550e8400-e29b-41d4-a716-446655440000".into(),
        encryption: Some("none".into()),
        flow: Some("xtls-rprx-vision".into()),
        transport: TransportSettings::Ws(WsSettings {
            path: "/ws".into(),
            host: Some("example.com".into()),
            headers: HashMap::new(),
        }),
        tls: Some(TlsSettings {
            server_name: Some("example.com".into()),
            alpn: vec!["h2".into()],
            verify: true,
            fingerprint: None,
        }),
        remark: Some("Test VLESS".into()),
    })
}

#[test]
fn test_proxy_node_accessors() {
    let node = sample_vless();
    assert_eq!(node.remark(), Some("Test VLESS"));
    assert_eq!(node.address(), "example.com");
    assert_eq!(node.port(), 443);
}

#[test]
fn test_default_transport() {
    assert_eq!(TransportSettings::default(), TransportSettings::Tcp);
}

#[test]
fn test_default_settings() {
    let settings = AppSettings::default();
    assert_eq!(settings.socks_port, 1080);
    assert_eq!(settings.http_port, 1081);
    assert_eq!(settings.language, Language::English);
    assert_eq!(settings.version, 1);
    assert!(settings.auto_update_subscriptions);
    assert!(settings.minimize_to_tray);
    assert!(!settings.onboarding_complete);
}

#[test]
fn test_default_backend() {
    let backend = BackendConfig::default();
    assert_eq!(backend.backend_type, BackendType::Xray);
    assert!(backend.binary_path.is_none());
    assert!(backend.config_output_dir.is_none());
}
