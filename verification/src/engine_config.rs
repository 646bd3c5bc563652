//! The synthesized engine configuration document.
//!
//! The engine reads one JSON document holding logging, DNS, inbound,
//! outbound and routing sections.  This module models that document as
//! plain data: the constant scaffold every synthesis starts from, the
//! two variable parts (the proxy-group member list and the node
//! outbounds), and the well-formedness invariant tying them together.
//! Turning the document into JSON text is the surrounding
//! application's serialization step.

use vstd::prelude::*;

use crate::descriptor::Outbound;

verus! {

/// Logging section.
pub struct LogSettings {
    pub disabled: bool,
    pub timestamp: bool,
    pub level: String,
}

/// The engine's live control API endpoint and its web UI directory.
pub struct ClashApiSettings {
    pub external_controller: String,
    pub external_ui: String,
}

/// One upstream DNS server entry.
pub struct DnsServer {
    pub tag: String,
    pub server_kind: String,
    pub address: String,
    pub detour: Option<String>,
}

/// One DNS routing rule.
pub struct DnsRule {
    pub rule_sets: Vec<String>,
    pub action: String,
    pub server: String,
}

/// DNS section.
pub struct DnsSettings {
    pub final_server: String,
    pub strategy: String,
    pub independent_cache: bool,
    pub servers: Vec<DnsServer>,
    pub rules: Vec<DnsRule>,
}

/// The TUN inbound the engine routes the host's traffic through.
pub struct TunInbound {
    pub tag: String,
    pub interface_name: String,
    pub addresses: Vec<String>,
    pub mtu: u32,
    pub auto_route: bool,
    pub strict_route: bool,
    pub auto_redirect: bool,
}

/// One routing rule.  Fields that a given rule does not use stay
/// empty; `outbound` is the route target when the rule routes.
pub struct RouteRule {
    pub action: String,
    pub protocols: Vec<String>,
    pub rule_sets: Vec<String>,
    pub ip_is_private: bool,
    pub outbound: Option<String>,
}

/// One remote rule-set source.
pub struct RuleSetSource {
    pub tag: String,
    pub format: String,
    pub url: String,
}

/// Routing section.
pub struct RouteSettings {
    pub final_outbound: String,
    pub auto_detect_interface: bool,
    pub default_domain_resolver: String,
    pub rules: Vec<RouteRule>,
    pub rule_sets: Vec<RuleSetSource>,
}

/// The whole document.  `group_members` is the member list of the
/// selector proxy group; `node_outbounds` are the outbound objects the
/// members reference by tag.
pub struct EngineConfig {
    pub log: LogSettings,
    pub clash_api: ClashApiSettings,
    pub dns: DnsSettings,
    pub inbound: TunInbound,
    pub group_tag: String,
    pub direct_tag: String,
    pub group_members: Vec<String>,
    pub node_outbounds: Vec<Outbound>,
    pub route: RouteSettings,
}

impl EngineConfig {
    /// The proxy-group member list references every node outbound
    /// actually present, in order, one member per outbound.
    pub open spec fn wf(self) -> bool {
        &&& self.group_members@.len() == self.node_outbounds@.len()
        &&& forall|i: int|
            0 <= i < self.group_members@.len() ==> #[trigger] self.group_members@[i]@
                == self.node_outbounds@[i].tag@
    }
}

/// The constant scaffold of the document: everything except the group
/// member list and the node outbounds.
pub open spec fn template_scaffold(c: EngineConfig) -> bool {
    &&& !c.log.disabled
    &&& c.log.timestamp
    &&& c.log.level@ == "info"@
    &&& c.clash_api.external_controller@ == "0.0.0.0:9090"@
    &&& c.clash_api.external_ui@ == "dashboard"@
    &&& c.dns.final_server@ == "googledns"@
    &&& c.dns.strategy@ == "prefer_ipv4"@
    &&& c.dns.independent_cache
    &&& c.dns.servers@.len() == 2
    &&& c.dns.servers@[0].tag@ == "googledns"@
    &&& c.dns.servers@[0].server_kind@ == "udp"@
    &&& c.dns.servers@[0].address@ == "8.8.8.8"@
    &&& c.dns.servers@[0].detour matches Some(d) && d@ == c.group_tag@
    &&& c.dns.servers@[1].tag@ == "local"@
    &&& c.dns.servers@[1].server_kind@ == "udp"@
    &&& c.dns.servers@[1].address@ == "223.5.5.5"@
    &&& c.dns.servers@[1].detour is None
    &&& c.dns.rules@.len() == 1
    &&& c.dns.rules@[0].rule_sets@.len() == 1
    &&& c.dns.rules@[0].rule_sets@[0]@ == "chinasite"@
    &&& c.dns.rules@[0].action@ == "route"@
    &&& c.dns.rules@[0].server@ == "local"@
    &&& c.inbound.tag@ == "tun-in"@
    &&& c.inbound.interface_name@ == "sing-tun"@
    &&& c.inbound.addresses@.len() == 1
    &&& c.inbound.addresses@[0]@ == "172.18.0.1/30"@
    &&& c.inbound.mtu == 9000
    &&& c.inbound.auto_route
    &&& c.inbound.strict_route
    &&& c.inbound.auto_redirect
    &&& c.group_tag@ == "proxy"@
    &&& c.direct_tag@ == "direct"@
    &&& c.route.final_outbound@ == c.group_tag@
    &&& c.route.auto_detect_interface
    &&& c.route.default_domain_resolver@ == "local"@
    &&& c.route.rules@.len() == 6
    &&& c.route.rules@[0].action@ == "sniff"@
    &&& c.route.rules@[1].action@ == "hijack-dns"@
    &&& c.route.rules@[1].protocols@.len() == 1 && c.route.rules@[1].protocols@[0]@ == "dns"@
    &&& c.route.rules@[2].action@ == "route"@
    &&& c.route.rules@[2].ip_is_private
    &&& c.route.rules@[2].outbound matches Some(o) && o@ == c.direct_tag@
    &&& c.route.rules@[3].action@ == "route"@
    &&& c.route.rules@[3].protocols@.len() == 1 && c.route.rules@[3].protocols@[0]@
        == "bittorrent"@
    &&& c.route.rules@[3].outbound matches Some(o) && o@ == c.direct_tag@
    &&& c.route.rules@[4].action@ == "route"@
    &&& c.route.rules@[4].rule_sets@.len() == 1 && c.route.rules@[4].rule_sets@[0]@
        == "chinasite"@
    &&& c.route.rules@[4].outbound matches Some(o) && o@ == c.direct_tag@
    &&& c.route.rules@[5].action@ == "route"@
    &&& c.route.rules@[5].rule_sets@.len() == 1 && c.route.rules@[5].rule_sets@[0]@ == "chinaip"@
    &&& c.route.rules@[5].outbound matches Some(o) && o@ == c.direct_tag@
    &&& c.route.rule_sets@.len() == 2
    &&& c.route.rule_sets@[0].tag@ == "chinasite"@
    &&& c.route.rule_sets@[0].format@ == "binary"@
    &&& c.route.rule_sets@[0].url@
        == "https://raw.githubusercontent.com/SagerNet/sing-geosite/rule-set/geosite-geolocation-cn.srs"@
    &&& c.route.rule_sets@[1].tag@ == "chinaip"@
    &&& c.route.rule_sets@[1].format@ == "binary"@
    &&& c.route.rule_sets@[1].url@
        == "https://raw.githubusercontent.com/SagerNet/sing-geoip/rule-set/geoip-cn.srs"@
}

/// An empty routing rule, ready to have its meaningful fields set.
fn blank_rule() -> (r: RouteRule)
    ensures
        r.action@ == ""@,
        r.protocols@.len() == 0,
        r.rule_sets@.len() == 0,
        !r.ip_is_private,
        r.outbound is None,
{
    RouteRule {
        action: "".to_owned(),
        protocols: Vec::new(),
        rule_sets: Vec::new(),
        ip_is_private: false,
        outbound: Option::None,
    }
}

/// The document every synthesis starts from: the constant scaffold
/// with no group members and no node outbounds yet.
pub fn config_template() -> (r: EngineConfig)
    ensures
        template_scaffold(r),
        r.group_members@.len() == 0,
        r.node_outbounds@.len() == 0,
        r.wf(),
{
    let mut dns_servers: Vec<DnsServer> = Vec::new();
    dns_servers.push(
        DnsServer {
            tag: "googledns".to_owned(),
            server_kind: "udp".to_owned(),
            address: "8.8.8.8".to_owned(),
            detour: Option::Some("proxy".to_owned()),
        },
    );
    dns_servers.push(
        DnsServer {
            tag: "local".to_owned(),
            server_kind: "udp".to_owned(),
            address: "223.5.5.5".to_owned(),
            detour: Option::None,
        },
    );
    let mut dns_rule_sets: Vec<String> = Vec::new();
    dns_rule_sets.push("chinasite".to_owned());
    let mut dns_rules: Vec<DnsRule> = Vec::new();
    dns_rules.push(
        DnsRule { rule_sets: dns_rule_sets, action: "route".to_owned(), server: "local".to_owned() },
    );
    let mut addresses: Vec<String> = Vec::new();
    addresses.push("172.18.0.1/30".to_owned());

    let mut rules: Vec<RouteRule> = Vec::new();
    let mut sniff = blank_rule();
    sniff.action = "sniff".to_owned();
    rules.push(sniff);
    let mut hijack = blank_rule();
    hijack.action = "hijack-dns".to_owned();
    hijack.protocols.push("dns".to_owned());
    rules.push(hijack);
    let mut private_rule = blank_rule();
    private_rule.action = "route".to_owned();
    private_rule.ip_is_private = true;
    private_rule.outbound = Option::Some("direct".to_owned());
    rules.push(private_rule);
    let mut torrent = blank_rule();
    torrent.action = "route".to_owned();
    torrent.protocols.push("bittorrent".to_owned());
    torrent.outbound = Option::Some("direct".to_owned());
    rules.push(torrent);
    let mut cn_site = blank_rule();
    cn_site.action = "route".to_owned();
    cn_site.rule_sets.push("chinasite".to_owned());
    cn_site.outbound = Option::Some("direct".to_owned());
    rules.push(cn_site);
    let mut cn_ip = blank_rule();
    cn_ip.action = "route".to_owned();
    cn_ip.rule_sets.push("chinaip".to_owned());
    cn_ip.outbound = Option::Some("direct".to_owned());
    rules.push(cn_ip);

    let mut rule_sets: Vec<RuleSetSource> = Vec::new();
    rule_sets.push(
        RuleSetSource {
            tag: "chinasite".to_owned(),
            format: "binary".to_owned(),
            url: "https://raw.githubusercontent.com/SagerNet/sing-geosite/rule-set/geosite-geolocation-cn.srs".to_owned(),
        },
    );
    rule_sets.push(
        RuleSetSource {
            tag: "chinaip".to_owned(),
            format: "binary".to_owned(),
            url: "https://raw.githubusercontent.com/SagerNet/sing-geoip/rule-set/geoip-cn.srs".to_owned(),
        },
    );

    EngineConfig {
        log: LogSettings { disabled: false, timestamp: true, level: "info".to_owned() },
        clash_api: ClashApiSettings {
            external_controller: "0.0.0.0:9090".to_owned(),
            external_ui: "dashboard".to_owned(),
        },
        dns: DnsSettings {
            final_server: "googledns".to_owned(),
            strategy: "prefer_ipv4".to_owned(),
            independent_cache: true,
            servers: dns_servers,
            rules: dns_rules,
        },
        inbound: TunInbound {
            tag: "tun-in".to_owned(),
            interface_name: "sing-tun".to_owned(),
            addresses,
            mtu: 9000,
            auto_route: true,
            strict_route: true,
            auto_redirect: true,
        },
        group_tag: "proxy".to_owned(),
        direct_tag: "direct".to_owned(),
        group_members: Vec::new(),
        node_outbounds: Vec::new(),
        route: RouteSettings {
            final_outbound: "proxy".to_owned(),
            auto_detect_interface: true,
            default_domain_resolver: "local".to_owned(),
            rules,
            rule_sets,
        },
    }
}

} // verus!
