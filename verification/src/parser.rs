//! Parsing of share URIs into proxy nodes: `vless://`, `vmess://`, `ss://`
//! and `trojan://`. The URI structure, query handling and percent decoding
//! are this crate's own logic; base64 and JSON decoding are the outside
//! crates' work behind trusted wrappers.

use vstd::prelude::*;

verus! {

use vstd::string::StrSliceExecFns;
use vstd::string::StringExecFns;
use vstd::utf8::encode_utf8;
use crate::proxy::{
    GrpcSettings,
    H2Settings,
    ProxyNode,
    ShadowsocksConfig,
    TlsSettings,
    TransportSettings,
    TrojanConfig,
    VlessConfig,
    VmessConfig,
    WsSettings,
};
use crate::strutil::{
    eq_ignore_ascii_case,
    find_char,
    find_str,
    parse_u64_dec,
    rfind_char,
    str_eq,
    trim_ws,
};
use crate::subscription::SubscriptionNode;

/// How a share URI can be rejected.
#[derive(Debug, PartialEq)]
pub enum ParseError {
    /// The scheme (lowercase-folded) is none of the supported four.
    UnsupportedScheme(String),
    /// The URI has the right scheme but a broken shape; the payload says
    /// which part.
    InvalidFormat(String),
}

pub open spec fn spec_parse_error_message(e: ParseError) -> Seq<char> {
    match e {
        ParseError::UnsupportedScheme(s) => "unsupported URI scheme: "@ + s@,
        ParseError::InvalidFormat(s) => "invalid URI format: "@ + s@,
    }
}

impl ParseError {
    /// A human-readable description of the failure.
    pub fn message(&self) -> (r: String)
        ensures
            r@ == spec_parse_error_message(*self),
    {
        match self {
            ParseError::UnsupportedScheme(s) => {
                let mut m = String::from_str("unsupported URI scheme: ");
                m.append(s.as_str());
                m
            },
            ParseError::InvalidFormat(s) => {
                let mut m = String::from_str("invalid URI format: ");
                m.append(s.as_str());
                m
            },
        }
    }
}

pub open spec fn spec_is_hex_digit(b: u8) -> bool {
    (48 <= b && b <= 57) || (65 <= b && b <= 70) || (97 <= b && b <= 102)
}

pub open spec fn spec_hex_val(b: u8) -> nat {
    if 48 <= b && b <= 57 {
        (b - 48) as nat
    } else if 65 <= b && b <= 70 {
        (b - 55) as nat
    } else if 97 <= b && b <= 102 {
        (b - 87) as nat
    } else {
        0
    }
}

/// Percent decoding as query components use it: `%XX` becomes the byte,
/// `+` becomes a space, everything else stays; a `%` without two hex
/// digits after it stays literal.
pub open spec fn spec_pct_decode(b: Seq<u8>) -> Seq<u8>
    decreases b.len(),
{
    if b.len() == 0 {
        b
    } else if b[0] == 37 && b.len() >= 3 && spec_is_hex_digit(b[1]) && spec_is_hex_digit(b[2]) {
        seq![(spec_hex_val(b[1]) * 16 + spec_hex_val(b[2])) as u8] + spec_pct_decode(b.skip(3))
    } else if b[0] == 43 {
        seq![32u8] + spec_pct_decode(b.skip(1))
    } else {
        seq![b[0]] + spec_pct_decode(b.skip(1))
    }
}

fn hex_digit_val(b: u8) -> (r: Option<u8>)
    ensures
        match r {
            Some(v) => spec_is_hex_digit(b) && v as nat == spec_hex_val(b) && v < 16,
            None => !spec_is_hex_digit(b),
        },
{
    if 48 <= b && b <= 57 {
        Some(b - 48)
    } else if 65 <= b && b <= 70 {
        Some(b - 55)
    } else if 97 <= b && b <= 102 {
        Some(b - 87)
    } else {
        None
    }
}

/// Percent-decodes the bytes of a component.
fn pct_decode_bytes(b: &[u8]) -> (r: Vec<u8>)
    ensures
        r@ == spec_pct_decode(b@),
{
    let n = b.len();
    let mut out: Vec<u8> = Vec::new();
    let mut i: usize = 0;
    proof {
        assert(b@.skip(0) =~= b@);
        assert(out@ + spec_pct_decode(b@.skip(0)) =~= spec_pct_decode(b@));
    }
    while i < n
        invariant
            0 <= i <= n,
            n == b@.len(),
            spec_pct_decode(b@) == out@ + spec_pct_decode(b@.skip(i as int)),
        decreases n - i,
    {
        let ghost rest = b@.skip(i as int);
        proof {
            assert(rest[0] == b@[i as int]);
            if n - i > 2 {
                assert(rest[1] == b@[i + 1]);
                assert(rest[2] == b@[i + 2]);
            }
        }
        let c = b[i];
        if c == 37 && n - i > 2 {
            let h1 = hex_digit_val(b[i + 1]);
            let h2 = hex_digit_val(b[i + 2]);
            match (h1, h2) {
                (Some(v1), Some(v2)) => {
                    out.push(v1 * 16 + v2);
                    proof {
                        assert(rest.skip(3) =~= b@.skip(i + 3));
                        assert(out@ + spec_pct_decode(b@.skip(i + 3)) =~= spec_pct_decode(b@));
                    }
                    i += 3;
                },
                _ => {
                    out.push(c);
                    proof {
                        assert(rest.skip(1) =~= b@.skip(i + 1));
                        assert(out@ + spec_pct_decode(b@.skip(i + 1)) =~= spec_pct_decode(b@));
                    }
                    i += 1;
                },
            }
        } else if c == 43 {
            out.push(32);
            proof {
                assert(rest.skip(1) =~= b@.skip(i + 1));
                assert(out@ + spec_pct_decode(b@.skip(i + 1)) =~= spec_pct_decode(b@));
            }
            i += 1;
        } else {
            out.push(c);
            proof {
                if c == 37 {
                    assert(!(rest.len() >= 3 && spec_is_hex_digit(rest[1]) && spec_is_hex_digit(
                        rest[2],
                    )) || rest.len() < 3) by {
                        assert(rest.len() == n - i);
                    }
                }
                assert(rest.skip(1) =~= b@.skip(i + 1));
                assert(out@ + spec_pct_decode(b@.skip(i + 1)) =~= spec_pct_decode(b@));
            }
            i += 1;
        }
    }
    proof {
        assert(b@.skip(n as int) =~= Seq::<u8>::empty());
        assert(out@ + spec_pct_decode(b@.skip(n as int)) =~= out@);
    }
    out
}

/// What decoded bytes read as when they are not valid UTF-8 is the lossy
/// decoding's business; on plain ASCII it is the identity, stated below.
pub uninterp spec fn utf8_lossy_of(bytes: Seq<u8>) -> Seq<char>;

/// Relies on String::from_utf8_lossy: decodes the bytes, replacing invalid
/// sequences; bytes below 128 decode to themselves.
#[verifier::external_body]
fn string_from_utf8_lossy(bytes: &[u8]) -> (r: String)
    ensures
        r@ == utf8_lossy_of(bytes@),
        (forall|i: int| 0 <= i < bytes@.len() ==> bytes@[i] < 128) ==> r@ == Seq::new(
            bytes@.len(),
            |i: int| bytes@[i] as char,
        ),
{
    String::from_utf8_lossy(bytes).into_owned()
}

/// Relies on String::from_utf8: the characters whose UTF-8 encoding is
/// exactly these bytes, or nothing when there are none.
#[verifier::external_body]
fn string_from_utf8(bytes: Vec<u8>) -> (r: Option<String>)
    ensures
        r matches Some(s) ==> encode_utf8(s@) == bytes@,
{
    String::from_utf8(bytes).ok()
}

/// The decoded form of one URI component.
pub open spec fn spec_component_decoded(s: Seq<char>) -> Seq<char> {
    utf8_lossy_of(spec_pct_decode(encode_utf8(s)))
}

/// Percent-decodes one component of a URI.
fn decode_component(s: &str) -> (r: String)
    ensures
        r@ == spec_component_decoded(s@),
{
    let bytes = s.as_bytes_vec();
    let decoded = pct_decode_bytes(bytes.as_slice());
    string_from_utf8_lossy(decoded.as_slice())
}

/// The last value a key has among the query pairs, as a map built from the
/// pairs in order would hold it.
pub open spec fn spec_lookup(ps: Seq<(String, String)>, key: Seq<char>) -> Option<Seq<char>>
    decreases ps.len(),
{
    if ps.len() == 0 {
        None
    } else if ps.last().0@ == key {
        Some(ps.last().1@)
    } else {
        spec_lookup(ps.drop_last(), key)
    }
}

/// Looks a key up among the query pairs; with duplicates the last one
/// wins.
fn lookup_param<'a>(ps: &'a [(String, String)], key: &str) -> (r: Option<&'a String>)
    ensures
        match r {
            Some(v) => spec_lookup(ps@, key@) == Some(v@),
            None => spec_lookup(ps@, key@) is None,
        },
{
    let n = ps.len();
    let mut i: usize = n;
    proof {
        assert(ps@.subrange(0, n as int) =~= ps@);
    }
    while i > 0
        invariant
            0 <= i <= n,
            n == ps@.len(),
            spec_lookup(ps@, key@) == spec_lookup(ps@.subrange(0, i as int), key@),
        decreases i,
    {
        proof {
            let pre = ps@.subrange(0, i as int);
            assert(pre.last() == ps@[i - 1]);
            assert(pre.drop_last() =~= ps@.subrange(0, i - 1));
        }
        if str_eq(ps[i - 1].0.as_str(), key) {
            return Some(&ps[i - 1].1);
        }
        i -= 1;
    }
    None
}

/// The comma-separated pieces of `s`; an empty string is one empty piece.
pub open spec fn spec_split_commas(s: Seq<char>) -> Seq<Seq<char>>
    decreases s.len(),
{
    let i = crate::strutil::spec_first_idx(s, ',');
    if i < 0 || i >= s.len() {
        seq![s]
    } else {
        seq![s.subrange(0, i)] + spec_split_commas(s.subrange(i + 1, s.len() as int))
    }
}

/// The views of a vector of strings.
pub open spec fn spec_views(v: Seq<String>) -> Seq<Seq<char>> {
    v.map_values(|x: String| x@)
}

/// Splits on commas; the pieces are not percent-decoded.
fn split_commas(s: &str) -> (r: Vec<String>)
    ensures
        spec_views(r@) == spec_split_commas(s@),
{
    let mut out: Vec<String> = Vec::new();
    let mut rest: &str = s;
    proof {
        assert(spec_views(out@) + spec_split_commas(s@) =~= spec_split_commas(s@));
    }
    loop
        invariant
            spec_views(out@) + spec_split_commas(rest@) =~= spec_split_commas(s@),
        decreases rest@.len(),
    {
        let n = rest.unicode_len();
        match find_char(rest, ',') {
            Some(i) => {
                let piece = rest.substring_char(0, i);
                out.push(piece.to_owned());
                let next = rest.substring_char(i + 1, n);
                proof {
                    crate::strutil::lemma_first_idx_is(rest@, ',', i as int);
                    assert(spec_split_commas(rest@) =~= seq![rest@.subrange(0, i as int)]
                        + spec_split_commas(rest@.subrange(i + 1, rest@.len() as int)));
                    assert(spec_views(out@) =~= spec_views(out@.drop_last()).push(piece@));
                    assert(spec_views(out@) + spec_split_commas(next@) =~= spec_split_commas(s@));
                }
                rest = next;
            },
            None => {
                out.push(rest.to_owned());
                proof {
                    crate::strutil::lemma_first_idx_is(rest@, ',', rest@.len() as int);
                    assert(spec_split_commas(rest@) =~= seq![rest@]);
                    assert(spec_views(out@) =~= spec_views(out@.drop_last()).push(rest@));
                    assert(spec_views(out@) =~= spec_split_commas(s@));
                }
                return out;
            },
        }
    }
}

pub open spec fn spec_opt_or_empty(o: Option<Seq<char>>) -> Seq<char> {
    match o {
        Some(s) => s,
        None => Seq::<char>::empty(),
    }
}

pub open spec fn spec_opt_matches(a: Option<String>, b: Option<Seq<char>>) -> bool {
    match a {
        Some(s) => b == Some(s@),
        None => b is None,
    }
}

fn lookup_cloned(ps: &[(String, String)], key: &str) -> (r: Option<String>)
    ensures
        spec_opt_matches(r, spec_lookup(ps@, key@)),
{
    match lookup_param(ps, key) {
        Some(v) => Some(v.clone()),
        None => None,
    }
}

fn lookup_or_empty(ps: &[(String, String)], key: &str) -> (r: String)
    ensures
        r@ == spec_opt_or_empty(spec_lookup(ps@, key@)),
{
    match lookup_param(ps, key) {
        Some(v) => v.clone(),
        None => String::new(),
    }
}

/// Builds the transport settings a query describes: `type` picks the
/// transport, `path`, `host` and `serviceName` fill it in; everything else
/// is plain TCP. With duplicate keys the last value wins, as a map built
/// from the pairs would have it.
/// Whether `t` is the transport the query pairs describe.
pub open spec fn spec_transport_matches(t: TransportSettings, ps: Seq<(String, String)>) -> bool {
    match t {
        TransportSettings::Ws(w) => spec_lookup(ps, "type"@) == Some("ws"@) && w.path@
            == spec_opt_or_empty(spec_lookup(ps, "path"@)) && spec_opt_matches(
            w.host,
            spec_lookup(ps, "host"@),
        ),
        TransportSettings::Grpc(g) => spec_lookup(ps, "type"@) == Some("grpc"@) && g.service_name@
            == spec_opt_or_empty(spec_lookup(ps, "serviceName"@)) && g.multi_mode == false,
        TransportSettings::H2(h) => spec_lookup(ps, "type"@) == Some("h2"@) && (match spec_lookup(
            ps,
            "host"@,
        ) {
            Some(hh) => h.host@.len() == 1 && h.host@[0]@ == hh,
            None => h.host@.len() == 0,
        }) && h.path@ == spec_opt_or_empty(spec_lookup(ps, "path"@)),
        TransportSettings::Tcp => spec_lookup(ps, "type"@) != Some("ws"@) && spec_lookup(
            ps,
            "type"@,
        ) != Some("grpc"@) && spec_lookup(ps, "type"@) != Some("h2"@),
    }
}

pub fn parse_url_transport(params: &[(String, String)]) -> (r: TransportSettings)
    ensures
        spec_transport_matches(r, params@),
{
    let ty = lookup_param(params, "type");
    match ty {
        Some(t) => {
            if str_eq(t.as_str(), "ws") {
                TransportSettings::Ws(
                    WsSettings {
                        path: lookup_or_empty(params, "path"),
                        host: lookup_cloned(params, "host"),
                        headers: std::collections::HashMap::new(),
                    },
                )
            } else if str_eq(t.as_str(), "grpc") {
                TransportSettings::Grpc(
                    GrpcSettings {
                        service_name: lookup_or_empty(params, "serviceName"),
                        multi_mode: false,
                    },
                )
            } else if str_eq(t.as_str(), "h2") {
                let mut hosts: Vec<String> = Vec::new();
                match lookup_cloned(params, "host") {
                    Some(h) => {
                        hosts.push(h);
                    },
                    None => {},
                }
                TransportSettings::H2(
                    H2Settings { host: hosts, path: lookup_or_empty(params, "path") },
                )
            } else {
                TransportSettings::Tcp
            }
        },
        None => TransportSettings::Tcp,
    }
}

/// Builds the TLS settings a query describes: `security` of `tls` or
/// `reality` turns TLS on, with `sni`, comma-separated `alpn` and `fp`
/// filled in and verification on; anything else means no TLS.
/// Whether the query pairs ask for TLS at all.
pub open spec fn spec_tls_requested(ps: Seq<(String, String)>) -> bool {
    spec_lookup(ps, "security"@) == Some("tls"@) || spec_lookup(ps, "security"@) == Some(
        "reality"@,
    )
}

/// Whether `t` is the TLS block the query pairs describe.
pub open spec fn spec_tls_matches(t: Option<TlsSettings>, ps: Seq<(String, String)>) -> bool {
    match t {
        Some(t) => spec_tls_requested(ps) && spec_opt_matches(
            t.server_name,
            spec_lookup(ps, "sni"@),
        ) && (match spec_lookup(ps, "alpn"@) {
            Some(a) => spec_views(t.alpn@) == spec_split_commas(a),
            None => t.alpn@.len() == 0,
        }) && t.verify == true && spec_opt_matches(t.fingerprint, spec_lookup(ps, "fp"@)),
        None => !spec_tls_requested(ps),
    }
}

pub fn parse_url_tls(params: &[(String, String)]) -> (r: Option<TlsSettings>)
    ensures
        spec_tls_matches(r, params@),
{
    let sec = lookup_param(params, "security");
    match sec {
        Some(s) => {
            if str_eq(s.as_str(), "tls") || str_eq(s.as_str(), "reality") {
                let alpn = match lookup_param(params, "alpn") {
                    Some(a) => split_commas(a.as_str()),
                    None => Vec::new(),
                };
                Some(
                    TlsSettings {
                        server_name: lookup_cloned(params, "sni"),
                        alpn,
                        verify: true,
                        fingerprint: lookup_cloned(params, "fp"),
                    },
                )
            } else {
                None
            }
        },
        None => None,
    }
}

/// What a standard-alphabet base64 string decodes to, when it decodes.
pub uninterp spec fn b64_standard_decoded(s: Seq<char>) -> Option<Seq<u8>>;

/// What a URL-safe, unpadded base64 string decodes to, when it decodes.
pub uninterp spec fn b64_url_safe_decoded(s: Seq<char>) -> Option<Seq<u8>>;

/// Relies on base64's STANDARD engine: the decoded bytes, or the decode
/// error's description; the result depends on the characters alone.
#[verifier::external_body]
fn b64_standard_decode(s: &str) -> (r: Result<Vec<u8>, String>)
    ensures
        r matches Ok(v) ==> b64_standard_decoded(s@) == Some(v@),
        r is Err ==> b64_standard_decoded(s@) is None,
{
    base64::Engine::decode(&base64::engine::general_purpose::STANDARD, s).map_err(|e| e.to_string())
}

/// Relies on base64's URL_SAFE_NO_PAD engine: the decoded bytes, or the
/// decode error's description; the result depends on the characters alone.
#[verifier::external_body]
fn b64_url_safe_decode(s: &str) -> (r: Result<Vec<u8>, String>)
    ensures
        r matches Ok(v) ==> b64_url_safe_decoded(s@) == Some(v@),
        r is Err ==> b64_url_safe_decoded(s@) is None,
{
    base64::Engine::decode(&base64::engine::general_purpose::URL_SAFE_NO_PAD, s).map_err(|e|
        e.to_string()
    )
}

#[verifier::external_type_specification]
#[verifier::external_body]
pub struct ExJsonValue(serde_json::Value);

/// Relies on serde_json::from_slice: the parsed JSON document, or the parse
/// error's description.
#[verifier::external_body]
fn json_from_slice(bytes: &[u8]) -> (r: Result<serde_json::Value, String>) {
    serde_json::from_slice(bytes).map_err(|e| e.to_string())
}

/// Relies on serde_json::Value::get and Value::as_str: the named field when
/// the document is an object holding a string there.
#[verifier::external_body]
fn json_str_field(v: &serde_json::Value, key: &str) -> (r: Option<String>) {
    v.get(key).and_then(|x| x.as_str()).map(|s| s.to_owned())
}

/// Relies on serde_json::Value::get and Value::as_u64: the named field when
/// the document is an object holding an unsigned number there.
#[verifier::external_body]
fn json_u64_field(v: &serde_json::Value, key: &str) -> (r: Option<u64>) {
    v.get(key).and_then(|x| x.as_u64())
}

/// Builds a VMess node from its decoded JSON fields, applying the format's
/// defaults: `auto` security, alter id 0, TCP transport unless `net` picks
/// another, TLS only when `tls` is exactly `tls`, with `sni` falling back
/// to `host`.
pub fn vmess_from_fields(
    address: String,
    port: u16,
    uuid: String,
    alter_id: u32,
    security: Option<String>,
    net: Option<String>,
    host: Option<String>,
    path: Option<String>,
    tls: Option<String>,
    sni: Option<String>,
    remark: Option<String>,
) -> (r: VmessConfig)
    ensures
        r.address == address,
        r.port == port,
        r.uuid == uuid,
        r.alter_id == alter_id,
        match security {
            Some(s) => r.security == s,
            None => r.security@ == "auto"@,
        },
        match r.transport {
            TransportSettings::Ws(w) => spec_opt_matches(net, Some("ws"@)) && w.path@
                == spec_opt_or_empty(match path {
                Some(p) => Some(p@),
                None => None,
            }) && w.host == host,
            TransportSettings::Grpc(g) => spec_opt_matches(net, Some("grpc"@)) && g.service_name@
                == spec_opt_or_empty(match path {
                Some(p) => Some(p@),
                None => None,
            }) && g.multi_mode == false,
            TransportSettings::H2(h) => spec_opt_matches(net, Some("h2"@)) && (match host {
                Some(hh) => h.host@.len() == 1 && h.host@[0] == hh,
                None => h.host@.len() == 0,
            }) && h.path@ == spec_opt_or_empty(match path {
                Some(p) => Some(p@),
                None => None,
            }),
            TransportSettings::Tcp => !spec_opt_matches(net, Some("ws"@)) && !spec_opt_matches(
                net,
                Some("grpc"@),
            ) && !spec_opt_matches(net, Some("h2"@)),
        },
        match r.tls {
            Some(t) => spec_opt_matches(tls, Some("tls"@)) && (match (sni, host) {
                (Some(s), _) => t.server_name == Some(s),
                (None, Some(h)) => t.server_name == Some(h),
                (None, None) => t.server_name is None,
            }) && t.alpn@.len() == 0 && t.verify == true && t.fingerprint is None,
            None => !spec_opt_matches(tls, Some("tls"@)),
        },
        r.remark == remark,
{
    let transport = match &net {
        Some(n) => {
            if str_eq(n.as_str(), "ws") {
                TransportSettings::Ws(
                    WsSettings {
                        path: match &path {
                            Some(p) => p.clone(),
                            None => String::new(),
                        },
                        host: host.clone(),
                        headers: std::collections::HashMap::new(),
                    },
                )
            } else if str_eq(n.as_str(), "grpc") {
                TransportSettings::Grpc(
                    GrpcSettings {
                        service_name: match &path {
                            Some(p) => p.clone(),
                            None => String::new(),
                        },
                        multi_mode: false,
                    },
                )
            } else if str_eq(n.as_str(), "h2") {
                let mut hosts: Vec<String> = Vec::new();
                match &host {
                    Some(h) => {
                        hosts.push(h.clone());
                    },
                    None => {},
                }
                TransportSettings::H2(
                    H2Settings {
                        host: hosts,
                        path: match &path {
                            Some(p) => p.clone(),
                            None => String::new(),
                        },
                    },
                )
            } else {
                TransportSettings::Tcp
            }
        },
        None => TransportSettings::Tcp,
    };
    let is_tls = match &tls {
        Some(t) => str_eq(t.as_str(), "tls"),
        None => false,
    };
    let tls_settings = if is_tls {
        let server_name = match sni {
            Some(s) => Some(s),
            None => host,
        };
        Some(TlsSettings { server_name, alpn: Vec::new(), verify: true, fingerprint: None })
    } else {
        None
    };
    let security_value = match security {
        Some(s) => s,
        None => String::from_str("auto"),
    };
    VmessConfig {
        address,
        port,
        uuid,
        alter_id,
        security: security_value,
        transport,
        tls: tls_settings,
        remark,
    }
}

fn invalid(msg: &str) -> (r: ParseError)
    ensures
        r matches ParseError::InvalidFormat(s) && s@ == msg@,
{
    ParseError::InvalidFormat(String::from_str(msg))
}

/// Takes the fragment up to the first `=` or `&` and percent-decodes it:
/// what reading the fragment as the first key of a query gives.
fn decode_fragment(f: &str) -> (r: String) {
    let n = f.unicode_len();
    let cut_eq = match find_char(f, '=') {
        Some(i) => i,
        None => n,
    };
    let cut_amp = match find_char(f, '&') {
        Some(i) => i,
        None => n,
    };
    let cut = if cut_eq < cut_amp {
        cut_eq
    } else {
        cut_amp
    };
    decode_component(f.substring_char(0, cut))
}

/// Splits a query into percent-decoded key/value pairs: pairs are separated
/// by `&`, a key from its value by the first `=`; empty pairs are skipped
/// and a pair without `=` has an empty value.
fn parse_query_pairs(query: &str) -> (r: Vec<(String, String)>) {
    let mut out: Vec<(String, String)> = Vec::new();
    let mut rest: &str = query;
    loop
        decreases rest@.len(),
    {
        let n = rest.unicode_len();
        let (piece, more): (&str, bool) = match find_char(rest, '&') {
            Some(i) => (rest.substring_char(0, i), true),
            None => (rest, false),
        };
        if !piece.is_empty() {
            let m = piece.unicode_len();
            let (k, v): (&str, &str) = match find_char(piece, '=') {
                Some(j) => (piece.substring_char(0, j), piece.substring_char(j + 1, m)),
                None => (piece, ""),
            };
            out.push((decode_component(k), decode_component(v)));
        }
        if !more {
            return out;
        }
        let next = match find_char(rest, '&') {
            Some(i) => rest.substring_char(i + 1, n),
            None => rest,
        };
        rest = next;
    }
}

struct UriParts<'a> {
    userinfo: &'a str,
    host: &'a str,
    port: u16,
    fragment: Option<&'a str>,
    params: Vec<(String, String)>,
}

/// Splits `scheme://userinfo@host:port?query#fragment`; the userinfo may be
/// empty, the port is required, and with several `@` the last one counts.
fn split_authority_uri<'a>(uri: &'a str) -> (r: Result<UriParts<'a>, ParseError>)
    ensures
        r matches Err(e) ==> e is InvalidFormat,
{
    let n = uri.unicode_len();
    let k = match find_str(uri, "://") {
        Some(k) => k,
        None => {
            return Err(invalid("missing scheme"));
        },
    };
    proof {
        reveal_strlit("://");
        assert(k + 3 <= n);
    }
    let rest = uri.substring_char(k + 3, n);
    let rn = rest.unicode_len();
    let (main, fragment): (&str, Option<&str>) = match find_char(rest, '#') {
        Some(i) => (rest.substring_char(0, i), Some(rest.substring_char(i + 1, rn))),
        None => (rest, None),
    };
    let mn = main.unicode_len();
    let (auth, query): (&str, Option<&str>) = match find_char(main, '?') {
        Some(i) => (main.substring_char(0, i), Some(main.substring_char(i + 1, mn))),
        None => (main, None),
    };
    let an = auth.unicode_len();
    let (userinfo, hostport): (&str, &str) = match rfind_char(auth, '@') {
        Some(i) => (auth.substring_char(0, i), auth.substring_char(i + 1, an)),
        None => ("", auth),
    };
    let hn = hostport.unicode_len();
    let (host, port): (&str, u16) = match rfind_char(hostport, ':') {
        Some(i) => {
            let host = hostport.substring_char(0, i);
            let port_str = hostport.substring_char(i + 1, hn);
            match parse_u64_dec(port_str) {
                Some(v) => {
                    if v <= 65535 {
                        (host, v as u16)
                    } else {
                        return Err(invalid("invalid port"));
                    }
                },
                None => {
                    return Err(invalid("invalid port"));
                },
            }
        },
        None => {
            return Err(invalid("missing port"));
        },
    };
    let params = match query {
        Some(q) => parse_query_pairs(q),
        None => Vec::new(),
    };
    Ok(UriParts { userinfo, host, port, fragment, params })
}

/// Builds a VLESS node from the split URI parts: the userinfo is the UUID
/// and must be present, as must the host; `flow` and `encryption` come from
/// the query, and the transport and TLS blocks follow the query rules.
pub fn vless_from_parts(
    userinfo: &str,
    host: &str,
    port: u16,
    remark: Option<String>,
    params: &[(String, String)],
) -> (r: Result<VlessConfig, ParseError>)
    ensures
        match r {
            Ok(cfg) => userinfo@.len() > 0 && host@.len() > 0 && cfg.uuid@ == userinfo@
                && cfg.address@ == host@ && cfg.port == port && cfg.remark == remark
                && spec_opt_matches(cfg.encryption, spec_lookup(params@, "encryption"@))
                && spec_opt_matches(cfg.flow, spec_lookup(params@, "flow"@))
                && spec_transport_matches(cfg.transport, params@) && spec_tls_matches(
                cfg.tls,
                params@,
            ),
            Err(e) => e matches ParseError::InvalidFormat(m) && ((userinfo@.len() == 0 && m@
                == "missing UUID"@) || (userinfo@.len() > 0 && host@.len() == 0 && m@
                == "missing host"@)),
        },
{
    if userinfo.is_empty() {
        return Err(invalid("missing UUID"));
    }
    if host.is_empty() {
        return Err(invalid("missing host"));
    }
    Ok(
        VlessConfig {
            address: host.to_owned(),
            port,
            uuid: userinfo.to_owned(),
            encryption: lookup_cloned(params, "encryption"),
            flow: lookup_cloned(params, "flow"),
            transport: parse_url_transport(params),
            tls: parse_url_tls(params),
            remark,
        },
    )
}

/// Builds a Trojan node from the split URI parts: the userinfo is the
/// password and must be present, as must the host; when the query asks for
/// no TLS, port 443 still gets a default TLS block naming the host.
pub fn trojan_from_parts(
    userinfo: &str,
    host: &str,
    port: u16,
    remark: Option<String>,
    params: &[(String, String)],
) -> (r: Result<TrojanConfig, ParseError>)
    ensures
        match r {
            Ok(cfg) => userinfo@.len() > 0 && host@.len() > 0 && cfg.password@ == userinfo@
                && cfg.address@ == host@ && cfg.port == port && cfg.remark == remark
                && spec_transport_matches(cfg.transport, params@) && (if spec_tls_requested(
                params@,
            ) {
                spec_tls_matches(cfg.tls, params@)
            } else if port == 443 {
                cfg.tls matches Some(t) && (t.server_name matches Some(sn) && sn@ == host@)
                    && t.alpn@.len() == 0 && t.verify == true && t.fingerprint is None
            } else {
                cfg.tls is None
            }),
            Err(e) => e matches ParseError::InvalidFormat(m) && ((userinfo@.len() == 0 && m@
                == "missing password"@) || (userinfo@.len() > 0 && host@.len() == 0 && m@
                == "missing host"@)),
        },
{
    if userinfo.is_empty() {
        return Err(invalid("missing password"));
    }
    if host.is_empty() {
        return Err(invalid("missing host"));
    }
    let address = host.to_owned();
    let tls = match parse_url_tls(params) {
        Some(t) => Some(t),
        None => {
            if port == 443 {
                Some(
                    TlsSettings {
                        server_name: Some(address.clone()),
                        alpn: Vec::new(),
                        verify: true,
                        fingerprint: None,
                    },
                )
            } else {
                None
            }
        },
    };
    Ok(
        TrojanConfig {
            address,
            port,
            password: userinfo.to_owned(),
            transport: parse_url_transport(params),
            tls,
            remark,
        },
    )
}

/// Splits a decoded Shadowsocks userinfo into method and password at the
/// first colon.
pub fn ss_split_userinfo(userinfo: &str) -> (r: Result<(String, String), ParseError>)
    ensures
        ({
            let i = crate::strutil::spec_first_idx(userinfo@, ':');
            match r {
                Ok(mp) => i < userinfo@.len() && mp.0@ == userinfo@.subrange(0, i) && mp.1@
                    == userinfo@.subrange(i + 1, userinfo@.len() as int),
                Err(e) => i >= userinfo@.len() && (e matches ParseError::InvalidFormat(m) && m@
                    == "missing method:password"@),
            }
        }),
{
    let un = userinfo.unicode_len();
    match find_char(userinfo, ':') {
        Some(i) => {
            proof {
                crate::strutil::lemma_first_idx_is(userinfo@, ':', i as int);
            }
            let method = userinfo.substring_char(0, i);
            let password = userinfo.substring_char(i + 1, un);
            Ok((method.to_owned(), password.to_owned()))
        },
        None => {
            proof {
                crate::strutil::lemma_first_idx_is(userinfo@, ':', userinfo@.len() as int);
            }
            Err(invalid("missing method:password"))
        },
    }
}

fn parse_vless(uri: &str) -> (r: Result<ProxyNode, ParseError>)
    ensures
        r matches Ok(n) ==> n is Vless,
        r matches Err(e) ==> e is InvalidFormat,
{
    let parts = split_authority_uri(uri)?;
    let remark = match parts.fragment {
        Some(f) => Some(decode_fragment(f)),
        None => None,
    };
    let cfg = vless_from_parts(
        parts.userinfo,
        parts.host,
        parts.port,
        remark,
        parts.params.as_slice(),
    )?;
    Ok(ProxyNode::Vless(cfg))
}

fn parse_trojan(uri: &str) -> (r: Result<ProxyNode, ParseError>)
    ensures
        r matches Ok(n) ==> n is Trojan,
        r matches Err(e) ==> e is InvalidFormat,
{
    let parts = split_authority_uri(uri)?;
    let remark = match parts.fragment {
        Some(f) => Some(decode_fragment(f)),
        None => None,
    };
    let cfg = trojan_from_parts(
        parts.userinfo,
        parts.host,
        parts.port,
        remark,
        parts.params.as_slice(),
    )?;
    Ok(ProxyNode::Trojan(cfg))
}

fn parse_ss(uri: &str) -> (r: Result<ProxyNode, ParseError>)
    ensures
        r matches Ok(n) ==> n is Shadowsocks,
        r matches Err(e) ==> e is InvalidFormat,
{
    if !crate::strutil::starts_with(uri, "ss://") {
        return Err(invalid("missing ss:// prefix"));
    }
    let n = uri.unicode_len();
    proof {
        reveal_strlit("ss://");
        assert(5 <= n);
    }
    let without_scheme = uri.substring_char(5, n);
    let wn = without_scheme.unicode_len();
    let (userinfo_part, host_part): (&str, &str) = match find_char(without_scheme, '@') {
        Some(i) => (
            without_scheme.substring_char(0, i),
            without_scheme.substring_char(i + 1, wn),
        ),
        None => {
            return Err(invalid("missing '@' separator"));
        },
    };
    let trimmed = trim_ws(userinfo_part);
    let decoded_bytes = match b64_url_safe_decode(trimmed) {
        Ok(v) => v,
        Err(_) => match b64_standard_decode(trimmed) {
            Ok(v) => v,
            Err(e) => {
                let mut m = String::from_str("base64 decode failed: ");
                m.append(e.as_str());
                return Err(ParseError::InvalidFormat(m));
            },
        },
    };
    let userinfo = match string_from_utf8(decoded_bytes) {
        Some(s) => s,
        None => {
            return Err(invalid("invalid UTF-8 in user info"));
        },
    };
    let (method, password) = ss_split_userinfo(userinfo.as_str())?;
    let hn = host_part.unicode_len();
    let (host_port, fragment): (&str, Option<&str>) = match find_char(host_part, '#') {
        Some(i) => (host_part.substring_char(0, i), Some(host_part.substring_char(i + 1, hn))),
        None => (host_part, None),
    };
    let hpn = host_port.unicode_len();
    let (address, port): (&str, u16) = match rfind_char(host_port, ':') {
        Some(i) => {
            let addr = host_port.substring_char(0, i);
            let port_str = host_port.substring_char(i + 1, hpn);
            match parse_u64_dec(port_str) {
                Some(v) => {
                    if v <= 65535 {
                        (addr, v as u16)
                    } else {
                        return Err(invalid("invalid port"));
                    }
                },
                None => {
                    return Err(invalid("invalid port"));
                },
            }
        },
        None => {
            return Err(invalid("missing host:port"));
        },
    };
    let remark = match fragment {
        Some(f) => Some(decode_fragment(f)),
        None => None,
    };
    Ok(
        ProxyNode::Shadowsocks(
            ShadowsocksConfig { address: address.to_owned(), port, method, password, remark },
        ),
    )
}

fn parse_vmess(uri: &str) -> (r: Result<ProxyNode, ParseError>)
    ensures
        r matches Ok(n) ==> n is Vmess,
        r matches Err(e) ==> e is InvalidFormat,
{
    if !crate::strutil::starts_with(uri, "vmess://") {
        return Err(invalid("missing vmess:// prefix"));
    }
    let n = uri.unicode_len();
    proof {
        reveal_strlit("vmess://");
        assert(8 <= n);
    }
    let encoded = uri.substring_char(8, n);
    let trimmed = trim_ws(encoded);
    let decoded = match b64_standard_decode(trimmed) {
        Ok(v) => v,
        Err(e) => {
            let mut m = String::from_str("base64 decode failed: ");
            m.append(e.as_str());
            return Err(ParseError::InvalidFormat(m));
        },
    };
    let json = match json_from_slice(decoded.as_slice()) {
        Ok(v) => v,
        Err(e) => {
            let mut m = String::from_str("invalid JSON: ");
            m.append(e.as_str());
            return Err(ParseError::InvalidFormat(m));
        },
    };
    let address = match json_str_field(&json, "add") {
        Some(a) => a,
        None => {
            return Err(invalid("missing 'add' field"));
        },
    };
    let port_value = match json_u64_field(&json, "port") {
        Some(p) => p,
        None => {
            let from_str = match json_str_field(&json, "port") {
                Some(s) => parse_u64_dec(s.as_str()),
                None => None,
            };
            match from_str {
                Some(p) => p,
                None => {
                    return Err(invalid("missing 'port' field"));
                },
            }
        },
    };
    let port = #[verifier::truncate] (port_value as u16);
    let uuid = match json_str_field(&json, "id") {
        Some(u) => u,
        None => {
            return Err(invalid("missing 'id' field"));
        },
    };
    let alter_id_value = match json_u64_field(&json, "aid") {
        Some(a) => a,
        None => 0,
    };
    let alter_id = #[verifier::truncate] (alter_id_value as u32);
    let config = vmess_from_fields(
        address,
        port,
        uuid,
        alter_id,
        json_str_field(&json, "scy"),
        json_str_field(&json, "net"),
        json_str_field(&json, "host"),
        json_str_field(&json, "path"),
        json_str_field(&json, "tls"),
        json_str_field(&json, "sni"),
        json_str_field(&json, "ps"),
    );
    Ok(ProxyNode::Vmess(config))
}

/// A scheme prefix of a URI: everything before the first `://`, or the
/// whole URI when it has none.
pub open spec fn spec_is_scheme_prefix(u: Seq<char>, k: int) -> bool {
    &&& 0 <= k <= u.len()
    &&& (k + "://"@.len() <= u.len() ==> u.subrange(k, k + "://"@.len() as int) == "://"@)
    &&& (k + "://"@.len() > u.len() ==> k == u.len())
    &&& forall|j: int|
        0 <= j < k && j + "://"@.len() <= u.len() ==> #[trigger] u.subrange(
            j,
            j + "://"@.len() as int,
        ) != "://"@
}

pub proof fn lemma_scheme_prefix_unique(u: Seq<char>, k1: int, k2: int)
    requires
        spec_is_scheme_prefix(u, k1),
        spec_is_scheme_prefix(u, k2),
    ensures
        k1 == k2,
{
    if k1 < k2 {
        if k1 + "://"@.len() <= u.len() {
            assert(u.subrange(k1, k1 + "://"@.len() as int) == "://"@);
            assert(u.subrange(k1, k1 + "://"@.len() as int) != "://"@);
        } else {
            assert(k1 == u.len());
        }
    } else if k2 < k1 {
        if k2 + "://"@.len() <= u.len() {
            assert(u.subrange(k2, k2 + "://"@.len() as int) == "://"@);
            assert(u.subrange(k2, k2 + "://"@.len() as int) != "://"@);
        } else {
            assert(k2 == u.len());
        }
    }
}

/// What parsing must produce for a URI whose scheme prefix is `sch`: a
/// supported scheme yields its protocol's node or a format error; any other
/// scheme yields exactly the unsupported-scheme error carrying the
/// lowercase folding of `sch`.
pub open spec fn spec_scheme_dispatch(sch: Seq<char>, r: Result<ProxyNode, ParseError>) -> bool {
    if crate::strutil::spec_eq_ignore_ascii_case(sch, "vless"@) {
        (r matches Ok(n) && n is Vless) || (r matches Err(e) && e is InvalidFormat)
    } else if crate::strutil::spec_eq_ignore_ascii_case(sch, "vmess"@) {
        (r matches Ok(n) && n is Vmess) || (r matches Err(e) && e is InvalidFormat)
    } else if crate::strutil::spec_eq_ignore_ascii_case(sch, "ss"@) {
        (r matches Ok(n) && n is Shadowsocks) || (r matches Err(e) && e is InvalidFormat)
    } else if crate::strutil::spec_eq_ignore_ascii_case(sch, "trojan"@) {
        (r matches Ok(n) && n is Trojan) || (r matches Err(e) && e is InvalidFormat)
    } else {
        r matches Err(e) && (e matches ParseError::UnsupportedScheme(f) && f@
            == crate::strutil::lower_of(sch))
    }
}

/// The whole dispatch rule of `parse_uri`, stated for the URI's (unique)
/// scheme prefix.
pub open spec fn spec_parse_outcome(u: Seq<char>, r: Result<ProxyNode, ParseError>) -> bool {
    forall|k: int|
        #![trigger u.subrange(0, k)]
        spec_is_scheme_prefix(u, k) ==> spec_scheme_dispatch(u.subrange(0, k), r)
}

/// Parses one share URI. The scheme, compared ignoring ASCII case, picks
/// the protocol; a scheme that is none of `vless`, `vmess`, `ss` and
/// `trojan` is unsupported and is reported lowercase-folded.
pub fn parse_uri(uri: &str) -> (r: Result<ProxyNode, ParseError>)
    ensures
        spec_parse_outcome(uri@, r),
{
    let k_opt = find_str(uri, "://");
    let scheme: &str = match k_opt {
        Some(k) => uri.substring_char(0, k),
        None => uri,
    };
    let ghost kk: int = match k_opt {
        Some(k) => k as int,
        None => uri@.len() as int,
    };
    proof {
        reveal_strlit("://");
        if k_opt is None {
            assert(uri@.subrange(0, kk) =~= uri@);
        }
        assert(scheme@ == uri@.subrange(0, kk));
        assert(spec_is_scheme_prefix(uri@, kk));
        assert forall|k: int| spec_is_scheme_prefix(uri@, k) implies k == kk by {
            lemma_scheme_prefix_unique(uri@, k, kk);
        }
    }
    if eq_ignore_ascii_case(scheme, "vless") {
        let r = parse_vless(uri);
        proof {
            assert(spec_scheme_dispatch(uri@.subrange(0, kk), r));
        }
        r
    } else if eq_ignore_ascii_case(scheme, "vmess") {
        let r = parse_vmess(uri);
        proof {
            assert(spec_scheme_dispatch(uri@.subrange(0, kk), r));
        }
        r
    } else if eq_ignore_ascii_case(scheme, "ss") {
        let r = parse_ss(uri);
        proof {
            assert(spec_scheme_dispatch(uri@.subrange(0, kk), r));
        }
        r
    } else if eq_ignore_ascii_case(scheme, "trojan") {
        let r = parse_trojan(uri);
        proof {
            assert(spec_scheme_dispatch(uri@.subrange(0, kk), r));
        }
        r
    } else {
        let folded = crate::strutil::to_lowercase(scheme);
        let out = Err(ParseError::UnsupportedScheme(folded));
        proof {
            assert(spec_scheme_dispatch(uri@.subrange(0, kk), out));
        }
        out
    }
}

/// What importing a list of URIs produced: the nodes that parsed, and each
/// rejected URI with its error.
pub struct ImportResult {
    pub nodes: Vec<SubscriptionNode>,
    pub errors: Vec<(String, ParseError)>,
}

/// How an import decomposes: the URIs are scanned in order, and each one
/// contributes either the next node (an outcome of its own parse, per the
/// dispatch rule) or the next error, paired with the URI itself.
pub open spec fn spec_import_shape(
    uris: Seq<String>,
    nodes: Seq<SubscriptionNode>,
    errors: Seq<(String, ParseError)>,
) -> bool
    decreases uris.len(),
{
    if uris.len() == 0 {
        nodes.len() == 0 && errors.len() == 0
    } else {
        ||| (nodes.len() > 0 && spec_parse_outcome(
            uris.last()@,
            Ok::<ProxyNode, ParseError>(nodes.last().node),
        ) && spec_import_shape(uris.drop_last(), nodes.drop_last(), errors))
        ||| (errors.len() > 0 && errors.last().0@ == uris.last()@ && spec_parse_outcome(
            uris.last()@,
            Err::<ProxyNode, ParseError>(errors.last().1),
        ) && spec_import_shape(uris.drop_last(), nodes, errors.drop_last()))
    }
}

/// Parses every URI of a fetched subscription, in order: each one that
/// parses joins the node list enabled and unmeasured; each one that does
/// not is reported beside its error.
pub fn parse_subscription_uris(uris: &[String]) -> (r: ImportResult)
    ensures
        r.nodes@.len() + r.errors@.len() == uris@.len(),
        forall|i: int|
            0 <= i < r.nodes@.len() ==> (#[trigger] r.nodes@[i]).enabled == true
                && r.nodes@[i].last_latency_ms is None,
        spec_import_shape(uris@, r.nodes@, r.errors@),
{
    let mut nodes: Vec<SubscriptionNode> = Vec::new();
    let mut errors: Vec<(String, ParseError)> = Vec::new();
    let n = uris.len();
    let mut i: usize = 0;
    proof {
        assert(uris@.subrange(0, 0) =~= Seq::<String>::empty());
    }
    while i < n
        invariant
            0 <= i <= n,
            n == uris@.len(),
            nodes@.len() + errors@.len() == i,
            forall|j: int|
                0 <= j < nodes@.len() ==> (#[trigger] nodes@[j]).enabled == true
                    && nodes@[j].last_latency_ms is None,
            spec_import_shape(uris@.subrange(0, i as int), nodes@, errors@),
        decreases n - i,
    {
        let ghost pre = uris@.subrange(0, i + 1);
        proof {
            assert(pre.drop_last() =~= uris@.subrange(0, i as int));
            assert(pre.last() == uris@[i as int]);
        }
        match parse_uri(uris[i].as_str()) {
            Ok(node) => {
                let ghost prev_nodes = nodes@;
                nodes.push(SubscriptionNode { node, enabled: true, last_latency_ms: None });
                proof {
                    assert(nodes@.drop_last() =~= prev_nodes);
                    assert(nodes@.last().node == node);
                    assert(spec_import_shape(pre, nodes@, errors@));
                }
            },
            Err(e) => {
                let ghost prev_errors = errors@;
                errors.push((uris[i].clone(), e));
                proof {
                    assert(errors@.drop_last() =~= prev_errors);
                    assert(errors@.last().0@ == uris@[i as int]@);
                    assert(spec_import_shape(pre, nodes@, errors@));
                }
            },
        }
        i += 1;
    }
    proof {
        assert(uris@.subrange(0, n as int) =~= uris@);
    }
    ImportResult { nodes, errors }
}

} // verus!
