//! The proxy node model: one entry per supported protocol, with its
//! transport and TLS settings.

use vstd::prelude::*;

verus! {

use std::collections::HashMap;
use vstd::string::StringExecFns;

/// A proxy endpoint in one of the supported protocols.
#[derive(Debug, Clone, PartialEq)]
pub enum ProxyNode {
    Vless(VlessConfig),
    Vmess(VmessConfig),
    Shadowsocks(ShadowsocksConfig),
    Trojan(TrojanConfig),
}

pub open spec fn spec_node_address(n: ProxyNode) -> Seq<char> {
    match n {
        ProxyNode::Vless(c) => c.address@,
        ProxyNode::Vmess(c) => c.address@,
        ProxyNode::Shadowsocks(c) => c.address@,
        ProxyNode::Trojan(c) => c.address@,
    }
}

pub open spec fn spec_node_port(n: ProxyNode) -> u16 {
    match n {
        ProxyNode::Vless(c) => c.port,
        ProxyNode::Vmess(c) => c.port,
        ProxyNode::Shadowsocks(c) => c.port,
        ProxyNode::Trojan(c) => c.port,
    }
}

pub open spec fn spec_node_remark(n: ProxyNode) -> Option<Seq<char>> {
    let remark = match n {
        ProxyNode::Vless(c) => c.remark,
        ProxyNode::Vmess(c) => c.remark,
        ProxyNode::Shadowsocks(c) => c.remark,
        ProxyNode::Trojan(c) => c.remark,
    };
    match remark {
        Some(s) => Some(s@),
        None => None,
    }
}

/// Which protocol a node speaks.
pub open spec fn spec_node_protocol(n: ProxyNode) -> int {
    match n {
        ProxyNode::Vless(_) => 0,
        ProxyNode::Vmess(_) => 1,
        ProxyNode::Shadowsocks(_) => 2,
        ProxyNode::Trojan(_) => 3,
    }
}

impl ProxyNode {
    /// The user-given label of the node, when it has one.
    pub fn remark(&self) -> (r: Option<&str>)
        ensures
            match r {
                Some(s) => spec_node_remark(*self) == Some(s@),
                None => spec_node_remark(*self) is None,
            },
    {
        let remark = match self {
            ProxyNode::Vless(c) => &c.remark,
            ProxyNode::Vmess(c) => &c.remark,
            ProxyNode::Shadowsocks(c) => &c.remark,
            ProxyNode::Trojan(c) => &c.remark,
        };
        match remark {
            Some(s) => Some(s.as_str()),
            None => None,
        }
    }

    /// The server address of the node.
    pub fn address(&self) -> (r: &str)
        ensures
            r@ == spec_node_address(*self),
    {
        match self {
            ProxyNode::Vless(c) => c.address.as_str(),
            ProxyNode::Vmess(c) => c.address.as_str(),
            ProxyNode::Shadowsocks(c) => c.address.as_str(),
            ProxyNode::Trojan(c) => c.address.as_str(),
        }
    }

    /// The server port of the node.
    pub fn port(&self) -> (r: u16)
        ensures
            r == spec_node_port(*self),
    {
        match self {
            ProxyNode::Vless(c) => c.port,
            ProxyNode::Vmess(c) => c.port,
            ProxyNode::Shadowsocks(c) => c.port,
            ProxyNode::Trojan(c) => c.port,
        }
    }

    /// Whether two nodes name the same endpoint with the same protocol.
    pub fn same_endpoint(&self, other: &ProxyNode) -> (r: bool)
        ensures
            r == (spec_node_address(*self) == spec_node_address(*other) && spec_node_port(*self)
                == spec_node_port(*other) && spec_node_protocol(*self) == spec_node_protocol(
                *other,
            )),
    {
        let same_protocol = match (self, other) {
            (ProxyNode::Vless(_), ProxyNode::Vless(_)) => true,
            (ProxyNode::Vmess(_), ProxyNode::Vmess(_)) => true,
            (ProxyNode::Shadowsocks(_), ProxyNode::Shadowsocks(_)) => true,
            (ProxyNode::Trojan(_), ProxyNode::Trojan(_)) => true,
            _ => false,
        };
        same_protocol && crate::strutil::str_eq(self.address(), other.address()) && self.port()
            == other.port()
    }
}

#[derive(Debug, Clone, PartialEq)]
pub struct VlessConfig {
    pub address: String,
    pub port: u16,
    pub uuid: String,
    pub encryption: Option<String>,
    pub flow: Option<String>,
    pub transport: TransportSettings,
    pub tls: Option<TlsSettings>,
    pub remark: Option<String>,
}

#[derive(Debug, Clone, PartialEq)]
pub struct VmessConfig {
    pub address: String,
    pub port: u16,
    pub uuid: String,
    pub alter_id: u32,
    pub security: String,
    pub transport: TransportSettings,
    pub tls: Option<TlsSettings>,
    pub remark: Option<String>,
}

/// The security value a VMess node has when none is given.
pub fn default_vmess_security() -> (r: String)
    ensures
        r@ == "auto"@,
{
    String::from_str("auto")
}

#[derive(Debug, Clone, PartialEq)]
pub struct ShadowsocksConfig {
    pub address: String,
    pub port: u16,
    pub method: String,
    pub password: String,
    pub remark: Option<String>,
}

#[derive(Debug, Clone, PartialEq)]
pub struct TrojanConfig {
    pub address: String,
    pub port: u16,
    pub password: String,
    pub transport: TransportSettings,
    pub tls: Option<TlsSettings>,
    pub remark: Option<String>,
}

/// How the connection to the node is carried.
#[derive(Debug, Clone, PartialEq)]
pub enum TransportSettings {
    Tcp,
    Ws(WsSettings),
    Grpc(GrpcSettings),
    H2(H2Settings),
}

impl Default for TransportSettings {
    fn default() -> (r: Self)
        ensures
            r == TransportSettings::Tcp,
    {
        TransportSettings::Tcp
    }
}

#[derive(Debug, Clone, PartialEq)]
pub struct WsSettings {
    pub path: String,
    pub host: Option<String>,
    pub headers: HashMap<String, String>,
}

#[derive(Debug, Clone, PartialEq)]
pub struct GrpcSettings {
    pub service_name: String,
    pub multi_mode: bool,
}

#[derive(Debug, Clone, PartialEq)]
pub struct H2Settings {
    pub host: Vec<String>,
    pub path: String,
}

#[derive(Debug, Clone, PartialEq)]
pub struct TlsSettings {
    pub server_name: Option<String>,
    pub alpn: Vec<String>,
    pub verify: bool,
    pub fingerprint: Option<String>,
}

/// The verification default of a TLS block when none is given.
pub fn default_true() -> (r: bool)
    ensures
        r == true,
{
    true
}

} // verus!
