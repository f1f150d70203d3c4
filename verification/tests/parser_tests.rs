use base64::Engine;
use v2ray_rs::parser::{parse_subscription_uris, parse_uri, ParseError};
use v2ray_rs::proxy::{ProxyNode, TransportSettings};

#[test]
fn test_parse_vless_basic() {
    let uri = "vless://550e8400-e29b-41d4-a716-446655440000@example.com:443#Test";
    let result = parse_uri(uri).unwrap();

    match result {
        ProxyNode::Vless(cfg) => {
            assert_eq!(cfg.uuid, "550e8400-e29b-41d4-a716-446655440000");
            assert_eq!(cfg.address, "example.com");
            assert_eq!(cfg.port, 443);
            assert_eq!(cfg.remark, Some("Test".to_string()));
            assert_eq!(cfg.transport, TransportSettings::Tcp);
            assert_eq!(cfg.tls, None);
        }
        _ => panic!("expected VLESS config"),
    }
}

#[test]
fn test_parse_vless_with_ws_tls() {
    let uri = "vless://uuid@example.com:443?type=ws&host=example.com&path=/ws&security=tls&sni=example.com&fp=chrome&alpn=h2,http/1.1&flow=xtls-rprx-vision&encryption=none#Test";
    let result = parse_uri(uri).unwrap();

    match result {
        ProxyNode::Vless(cfg) => {
            assert_eq!(cfg.uuid, "uuid");
            assert_eq!(cfg.encryption, Some("none".to_string()));
            assert_eq!(cfg.flow, Some("xtls-rprx-vision".to_string()));

            match cfg.transport {
                TransportSettings::Ws(ws) => {
                    assert_eq!(ws.path, "/ws");
                    assert_eq!(ws.host, Some("example.com".to_string()));
                }
                _ => panic!("expected WS transport"),
            }

            let tls = cfg.tls.unwrap();
            assert_eq!(tls.server_name, Some("example.com".to_string()));
            assert_eq!(tls.alpn, vec!["h2", "http/1.1"]);
            assert_eq!(tls.fingerprint, Some("chrome".to_string()));
            assert!(tls.verify);
        }
        _ => panic!("expected VLESS config"),
    }
}

#[test]
fn test_parse_vless_with_grpc() {
    let uri = "vless://uuid@example.com:443?type=grpc&serviceName=MyService&security=tls";
    let result = parse_uri(uri).unwrap();

    match result {
        ProxyNode::Vless(cfg) => {
            match cfg.transport {
                TransportSettings::Grpc(grpc) => {
                    assert_eq!(grpc.service_name, "MyService");
                }
                _ => panic!("expected GRPC transport"),
            }
            assert!(cfg.tls.is_some());
        }
        _ => panic!("expected VLESS config"),
    }
}

#[test]
fn test_parse_vmess_basic() {
    let vmess_json = r#"{"add":"example.com","port":"443","id":"uuid","aid":0,"ps":"Test"}"#;
    let encoded = base64::engine::general_purpose::STANDARD.encode(vmess_json);
    let uri = format!("vmess://{}", encoded);

    let result = parse_uri(&uri).unwrap();

    match result {
        ProxyNode::Vmess(cfg) => {
            assert_eq!(cfg.address, "example.com");
            assert_eq!(cfg.port, 443);
            assert_eq!(cfg.uuid, "uuid");
            assert_eq!(cfg.alter_id, 0);
            assert_eq!(cfg.remark, Some("Test".to_string()));
        }
        _ => panic!("expected VMess config"),
    }
}

#[test]
fn test_parse_vmess_with_ws_tls() {
    let vmess_json = r#"{"add":"example.com","port":"443","id":"uuid","net":"ws","host":"example.com","path":"/ws","tls":"tls","sni":"example.com","ps":"Test"}"#;
    let encoded = base64::engine::general_purpose::STANDARD.encode(vmess_json);
    let uri = format!("vmess://{}", encoded);

    let result = parse_uri(&uri).unwrap();

    match result {
        ProxyNode::Vmess(cfg) => {
            match cfg.transport {
                TransportSettings::Ws(ws) => {
                    assert_eq!(ws.path, "/ws");
                    assert_eq!(ws.host, Some("example.com".to_string()));
                }
                _ => panic!("expected WS transport"),
            }

            let tls = cfg.tls.unwrap();
            assert_eq!(tls.server_name, Some("example.com".to_string()));
        }
        _ => panic!("expected VMess config"),
    }
}

#[test]
fn test_parse_ss_sip002() {
    let userinfo = "aes-256-gcm:password";
    let encoded = base64::engine::general_purpose::URL_SAFE_NO_PAD.encode(userinfo);
    let uri = format!("ss://{}@example.com:8388#Test", encoded);

    let result = parse_uri(&uri).unwrap();

    match result {
        ProxyNode::Shadowsocks(cfg) => {
            assert_eq!(cfg.address, "example.com");
            assert_eq!(cfg.port, 8388);
            assert_eq!(cfg.method, "aes-256-gcm");
            assert_eq!(cfg.password, "password");
            assert_eq!(cfg.remark, Some("Test".to_string()));
        }
        _ => panic!("expected Shadowsocks config"),
    }
}

#[test]
fn test_parse_trojan_basic() {
    let uri = "trojan://password@example.com:443#Test";
    let result = parse_uri(uri).unwrap();

    match result {
        ProxyNode::Trojan(cfg) => {
            assert_eq!(cfg.password, "password");
            assert_eq!(cfg.address, "example.com");
            assert_eq!(cfg.port, 443);
            assert_eq!(cfg.remark, Some("Test".to_string()));
            assert!(cfg.tls.is_some());
        }
        _ => panic!("expected Trojan config"),
    }
}

#[test]
fn test_parse_trojan_with_tls() {
    let uri = "trojan://password@example.com:443?security=tls&sni=example.com&alpn=h2#Test";
    let result = parse_uri(uri).unwrap();

    match result {
        ProxyNode::Trojan(cfg) => {
            let tls = cfg.tls.unwrap();
            assert_eq!(tls.server_name, Some("example.com".to_string()));
            assert_eq!(tls.alpn, vec!["h2"]);
        }
        _ => panic!("expected Trojan config"),
    }
}

#[test]
fn test_parse_unknown_scheme() {
    let uri = "http://foo";
    let result = parse_uri(uri);

    match result {
        Err(ParseError::UnsupportedScheme(scheme)) => {
            assert_eq!(scheme, "http");
        }
        _ => panic!("expected UnsupportedScheme error"),
    }
}

#[test]
fn test_parse_vless_missing_uuid() {
    let uri = "vless://@host:443";
    let result = parse_uri(uri);

    match result {
        Err(ParseError::InvalidFormat(msg)) => {
            assert!(msg.contains("UUID"));
        }
        _ => panic!("expected InvalidFormat error"),
    }
}

#[test]
fn test_parse_vless_missing_port() {
    let uri = "vless://uuid@host";
    let result = parse_uri(uri);

    match result {
        Err(ParseError::InvalidFormat(msg)) => {
            assert!(msg.contains("port"));
        }
        _ => panic!("expected InvalidFormat error"),
    }
}

#[test]
fn test_parse_vmess_invalid_base64() {
    let uri = "vmess://not-base64!@#$%";
    let result = parse_uri(uri);

    match result {
        Err(ParseError::InvalidFormat(msg)) => {
            assert!(msg.contains("base64"));
        }
        _ => panic!("expected InvalidFormat error"),
    }
}

#[test]
fn test_parse_vmess_missing_fields() {
    let vmess_json = r#"{"port":"443","id":"uuid"}"#;
    let encoded = base64::engine::general_purpose::STANDARD.encode(vmess_json);
    let uri = format!("vmess://{}", encoded);

    let result = parse_uri(&uri);

    match result {
        Err(ParseError::InvalidFormat(msg)) => {
            assert!(msg.contains("add"));
        }
        _ => panic!("expected InvalidFormat error"),
    }
}

#[test]
fn test_parse_ss_missing_at() {
    let uri = "ss://base64stuff";
    let result = parse_uri(uri);

    match result {
        Err(ParseError::InvalidFormat(msg)) => {
            assert!(msg.contains("@"));
        }
        _ => panic!("expected InvalidFormat error"),
    }
}

#[test]
fn test_parse_trojan_missing_password() {
    let uri = "trojan://@host:443";
    let result = parse_uri(uri);

    match result {
        Err(ParseError::InvalidFormat(msg)) => {
            assert!(msg.contains("password"));
        }
        _ => panic!("expected InvalidFormat error"),
    }
}

#[test]
fn test_parse_uri_dispatches_correctly() {
    let vless_uri = "vless://uuid@host:443";
    let vmess_json = r#"{"add":"host","port":"443","id":"uuid"}"#;
    let vmess_uri = format!(
        "vmess://{}",
        base64::engine::general_purpose::STANDARD.encode(vmess_json)
    );
    let ss_userinfo = base64::engine::general_purpose::URL_SAFE_NO_PAD.encode("method:pass");
    let ss_uri = format!("ss://{}@host:8388", ss_userinfo);
    let trojan_uri = "trojan://pass@host:443";

    assert!(matches!(parse_uri(vless_uri), Ok(ProxyNode::Vless(_))));
    assert!(matches!(parse_uri(&vmess_uri), Ok(ProxyNode::Vmess(_))));
    assert!(matches!(parse_uri(&ss_uri), Ok(ProxyNode::Shadowsocks(_))));
    assert!(matches!(parse_uri(trojan_uri), Ok(ProxyNode::Trojan(_))));
}

#[test]
fn test_parse_subscription_uris_partial_success() {
    let vmess_json = r#"{"add":"example.com","port":"443","id":"uuid"}"#;
    let vmess_uri = format!(
        "vmess://{}",
        base64::engine::general_purpose::STANDARD.encode(vmess_json)
    );

    let uris = vec![
        "vless://uuid@host:443".to_string(),
        vmess_uri,
        "http://invalid".to_string(),
        "ss://malformed".to_string(),
        "trojan://pass@host:443".to_string(),
    ];

    let result = parse_subscription_uris(&uris);

    assert_eq!(result.nodes.len(), 3);
    assert_eq!(result.errors.len(), 2);

    assert!(result.nodes.iter().all(|n| n.enabled));

    let error_schemes: Vec<_> = result
        .errors
        .iter()
        .map(|(uri, _)| uri.split("://").next().unwrap())
        .collect();
    assert!(error_schemes.contains(&"http"));
    assert!(error_schemes.contains(&"ss"));
}

#[test]
fn test_parse_fragment_percent_decoding() {
    let uri = "trojan://password@example.com:443#My%20Node%21";
    match parse_uri(uri).unwrap() {
        ProxyNode::Trojan(cfg) => {
            assert_eq!(cfg.remark, Some("My Node!".to_string()));
        }
        _ => panic!("expected Trojan config"),
    }
}

#[test]
fn test_parse_scheme_case_insensitive() {
    let uri = "VLESS://uuid@host:443";
    assert!(matches!(parse_uri(uri), Ok(ProxyNode::Vless(_))));
}
