use v2ray_rs::proxy::{
    ProxyNode, ShadowsocksConfig, TransportSettings, VlessConfig, VmessConfig,
};
use v2ray_rs::subscription::SubscriptionNode;
use v2ray_rs::update::{reconcile_nodes, reconcile_with_counts};

fn vless_node(addr: &str, port: u16) -> ProxyNode {
    ProxyNode::Vless(VlessConfig {
        address: addr.to_owned(),
        port,
        uuid: "test-uuid".into(),
        encryption: None,
        flow: None,
        transport: TransportSettings::Tcp,
        tls: None,
        remark: None,
    })
}

fn vmess_node(addr: &str, port: u16) -> ProxyNode {
    ProxyNode::Vmess(VmessConfig {
        address: addr.to_owned(),
        port,
        uuid: "test-uuid".into(),
        alter_id: 0,
        security: "auto".into(),
        transport: TransportSettings::Tcp,
        tls: None,
        remark: None,
    })
}

fn ss_node(addr: &str, port: u16) -> ProxyNode {
    ProxyNode::Shadowsocks(ShadowsocksConfig {
        address: addr.to_owned(),
        port,
        method: "aes-256-gcm".into(),
        password: "pass".into(),
        remark: None,
    })
}

#[test]
fn test_reconcile_preserves_enabled() {
    let old = vec![SubscriptionNode {
        node: vless_node("example.com", 443),
        enabled: false,
        last_latency_ms: None,
    }];

    let new_parsed = vec![vless_node("example.com", 443)];

    let result = reconcile_nodes(&old, new_parsed);

    assert_eq!(result.len(), 1);
    assert!(!result[0].enabled);
}

#[test]
fn test_reconcile_adds_new_nodes() {
    let old = vec![SubscriptionNode {
        node: vless_node("a.com", 443),
        enabled: true,
        last_latency_ms: None,
    }];

    let new_parsed = vec![vless_node("a.com", 443), vless_node("b.com", 443)];

    let result = reconcile_nodes(&old, new_parsed);

    assert_eq!(result.len(), 2);
    assert_eq!(result[0].node.address(), "a.com");
    assert_eq!(result[1].node.address(), "b.com");
    assert!(result[1].enabled);
}

#[test]
fn test_reconcile_removes_missing() {
    let old = vec![
        SubscriptionNode {
            node: vless_node("a.com", 443),
            enabled: true,
            last_latency_ms: None,
        },
        SubscriptionNode {
            node: vless_node("b.com", 443),
            enabled: true,
            last_latency_ms: None,
        },
    ];

    let new_parsed = vec![vless_node("a.com", 443)];

    let result = reconcile_nodes(&old, new_parsed);

    assert_eq!(result.len(), 1);
    assert_eq!(result[0].node.address(), "a.com");
}

#[test]
fn test_reconcile_all_replaced() {
    let old = vec![SubscriptionNode {
        node: vless_node("a.com", 443),
        enabled: false,
        last_latency_ms: None,
    }];

    let new_parsed = vec![vless_node("b.com", 443)];

    let result = reconcile_nodes(&old, new_parsed);

    assert_eq!(result.len(), 1);
    assert_eq!(result[0].node.address(), "b.com");
    assert!(result[0].enabled);
}

#[test]
fn test_reconcile_empty_old() {
    let old = vec![];
    let new_parsed = vec![vless_node("a.com", 443), vless_node("b.com", 443)];

    let result = reconcile_nodes(&old, new_parsed);

    assert_eq!(result.len(), 2);
    assert!(result[0].enabled);
    assert!(result[1].enabled);
}

#[test]
fn test_reconcile_empty_new() {
    let old = vec![SubscriptionNode {
        node: vless_node("a.com", 443),
        enabled: true,
        last_latency_ms: None,
    }];

    let new_parsed = vec![];

    let result = reconcile_nodes(&old, new_parsed);

    assert_eq!(result.len(), 0);
}

#[test]
fn test_update_result_counts() {
    let old = vec![
        SubscriptionNode {
            node: vless_node("a.com", 443),
            enabled: true,
            last_latency_ms: None,
        },
        SubscriptionNode {
            node: vmess_node("b.com", 8443),
            enabled: false,
            last_latency_ms: None,
        },
    ];

    let new_parsed = vec![vless_node("a.com", 443), ss_node("c.com", 8388)];

    let (_nodes, result) = reconcile_with_counts(&old, new_parsed);

    assert_eq!(result.added, 1);
    assert_eq!(result.removed, 1);
    assert_eq!(result.unchanged, 1);
}

#[test]
fn test_same_endpoint_distinguishes_protocol() {
    let a = vless_node("a.com", 443);
    let b = vmess_node("a.com", 443);
    assert!(!a.same_endpoint(&b));
    assert!(a.same_endpoint(&vless_node("a.com", 443)));
}
