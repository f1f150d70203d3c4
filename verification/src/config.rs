//! Where generated backend configurations go, and the naming rules they
//! share: outbound tags and the XTLS flow check. The JSON assembly itself
//! is serialisation work that the host application performs.

use vstd::prelude::*;

verus! {

use vstd::string::StringExecFns;
use crate::persistence::AppPaths;
use crate::proxy::{spec_node_remark, ProxyNode};
use crate::settings::{AppSettings, BackendType};
use crate::strutil::{path_join, spec_dec_digits, starts_with, u64_to_string};

/// Marker of the v2ray configuration dialect.
pub struct V2rayGenerator;

/// Marker of the xray configuration dialect.
pub struct XrayGenerator;

/// Marker of the sing-box configuration dialect.
pub struct SingboxGenerator;

/// The tag an outbound gets: `proxy-<index>`, with the node's non-empty
/// remark appended after a dash.
pub open spec fn spec_outbound_tag(n: ProxyNode, index: nat) -> Seq<char> {
    match spec_node_remark(n) {
        Some(name) => if name.len() > 0 {
            "proxy-"@ + spec_dec_digits(index) + "-"@ + name
        } else {
            "proxy-"@ + spec_dec_digits(index)
        },
        None => "proxy-"@ + spec_dec_digits(index),
    }
}

/// The tag of the outbound built from `node` at position `index`.
pub fn outbound_tag(node: &ProxyNode, index: usize) -> (r: String)
    ensures
        r@ == spec_outbound_tag(*node, index as nat),
{
    let mut s = String::from_str("proxy-");
    let digits = u64_to_string(index as u64);
    s.append(digits.as_str());
    match node.remark() {
        Some(name) => {
            if !name.is_empty() {
                s.append("-");
                s.append(name);
            }
        },
        None => {},
    }
    s
}

/// The tag that rules routing to the proxy use: the first outbound's.
pub fn first_proxy_tag() -> (r: String)
    ensures
        r@ == "proxy-0"@,
{
    String::from_str("proxy-0")
}

pub open spec fn spec_is_xtls_flow(s: Seq<char>) -> bool {
    "xtls-rprx-"@.len() <= s.len() && s.subrange(0, "xtls-rprx-"@.len() as int) == "xtls-rprx-"@
}

/// Whether a VLESS flow value selects an XTLS flow.
pub fn is_xtls_flow(flow: &str) -> (r: bool)
    ensures
        r == spec_is_xtls_flow(flow@),
{
    starts_with(flow, "xtls-rprx-")
}

/// Decides where each backend's generated configuration file goes.
#[derive(Debug, Clone, PartialEq)]
pub struct ConfigWriter {
    output_dir: String,
    geodata_dir: String,
}

pub open spec fn spec_config_filename(bt: BackendType) -> Seq<char> {
    match bt {
        BackendType::V2ray => "v2ray.json"@,
        BackendType::Xray => "xray.json"@,
        BackendType::SingBox => "sing-box.json"@,
    }
}

impl ConfigWriter {
    pub closed spec fn spec_output_dir(&self) -> Seq<char> {
        self.output_dir@
    }

    pub closed spec fn spec_geodata_dir(&self) -> Seq<char> {
        self.geodata_dir@
    }

    /// A writer honouring the user's output-directory override, falling
    /// back to `generated` under the data directory.
    pub fn new(settings: &AppSettings, paths: &AppPaths) -> (r: Self)
        ensures
            match settings.backend.config_output_dir {
                Some(d) => r.spec_output_dir() == d@,
                None => r.spec_output_dir() == paths.spec_data_dir() + "/"@ + "generated"@,
            },
            r.spec_geodata_dir() == paths.spec_data_dir() + "/"@ + "geodata"@,
    {
        let output_dir = match &settings.backend.config_output_dir {
            Some(d) => d.clone(),
            None => path_join(paths.data_dir(), "generated"),
        };
        ConfigWriter { output_dir, geodata_dir: paths.geodata_dir() }
    }

    /// A writer rooted at a fixed directory, with the geodata beside it.
    pub fn with_dir(dir: String) -> (r: Self)
        ensures
            r.spec_output_dir() == dir@,
            r.spec_geodata_dir() == dir@ + "/"@ + "geodata"@,
    {
        let geodata_dir = path_join(dir.as_str(), "geodata");
        ConfigWriter { output_dir: dir, geodata_dir }
    }

    /// The geodata directory handed to the generators.
    pub fn geodata_dir(&self) -> (r: &str)
        ensures
            r@ == self.spec_geodata_dir(),
    {
        self.geodata_dir.as_str()
    }

    /// The output directory.
    pub fn output_dir(&self) -> (r: &str)
        ensures
            r@ == self.spec_output_dir(),
    {
        self.output_dir.as_str()
    }

    /// Where `backend`'s generated configuration file goes.
    pub fn output_path(&self, backend: BackendType) -> (r: String)
        ensures
            r@ == self.spec_output_dir() + "/"@ + spec_config_filename(backend),
    {
        let filename = match backend {
            BackendType::V2ray => "v2ray.json",
            BackendType::Xray => "xray.json",
            BackendType::SingBox => "sing-box.json",
        };
        path_join(self.output_dir.as_str(), filename)
    }
}

} // verus!
