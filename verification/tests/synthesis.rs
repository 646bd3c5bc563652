use singctl::descriptor::{ProxyKind, ProxyDescriptor};
use singctl::subscription::{FetchError, FetchFailure, FetchOutcome, SubscriptionFetch};
use singctl::synthesis::{synthesize, SynthesisError};

fn descriptor(kind: ProxyKind, name: &str, server: &str, port: u16) -> ProxyDescriptor {
    ProxyDescriptor {
        kind,
        name: name.to_string(),
        server: server.to_string(),
        port,
        password: "pw".to_string(),
        sni: None,
        cipher: None,
        insecure_tls: false,
    }
}

fn markers_japan_singapore() -> Vec<String> {
    vec!["JP".to_string(), "SG".to_string()]
}

#[test]
fn merged_member_list_is_manual_first_in_order() {
    let manual = vec![
        descriptor(ProxyKind::AnyTls, "home-a", "a.example", 443),
        descriptor(ProxyKind::Shadowsocks, "home-b", "b.example", 8388),
    ];
    let feed = vec![
        descriptor(ProxyKind::Hysteria2, "JP node 1", "jp1.example", 443),
        descriptor(ProxyKind::Hysteria2, "SG node 2", "sg2.example", 443),
    ];
    let fetches = vec![SubscriptionFetch {
        url: "https://feed.example/a".to_string(),
        outcome: FetchOutcome::Fetched(feed),
    }];
    let markers = markers_japan_singapore();
    let s = synthesize(&manual, &fetches, &markers);
    let config = s.outcome.ok().expect("merged set is non-empty");
    // Manual tag count + fetched tag count, manual first.
    assert_eq!(config.group_members.len(), 4);
    assert_eq!(config.group_members[0].as_str(), "home-a");
    assert_eq!(config.group_members[1].as_str(), "home-b");
    assert_eq!(config.group_members[2].as_str(), "JP node 1");
    assert_eq!(config.group_members[3].as_str(), "SG node 2");
    assert_eq!(config.node_outbounds.len(), 4);
    for (member, outbound) in config.group_members.iter().zip(config.node_outbounds.iter()) {
        assert_eq!(member, &outbound.tag);
    }
}

#[test]
fn empty_merged_set_fails_without_a_document() {
    let manual: Vec<ProxyDescriptor> = Vec::new();
    let fetches: Vec<SubscriptionFetch> = Vec::new();
    let markers = markers_japan_singapore();
    let s = synthesize(&manual, &fetches, &markers);
    assert!(matches!(s.outcome, Err(SynthesisError::NoNodesAvailable)));
    assert!(s.records.is_empty());
}

#[test]
fn all_subscriptions_failed_and_no_manual_nodes_fails() {
    let manual: Vec<ProxyDescriptor> = Vec::new();
    let fetches = vec![SubscriptionFetch {
        url: "https://feed.example/down".to_string(),
        outcome: FetchOutcome::Failed(FetchError {
            failure: FetchFailure::Network,
            message: "connect timed out".to_string(),
        }),
    }];
    let markers = markers_japan_singapore();
    let s = synthesize(&manual, &fetches, &markers);
    assert!(matches!(s.outcome, Err(SynthesisError::NoNodesAvailable)));
    // The failure is still recorded.
    assert_eq!(s.records.len(), 1);
    assert!(!s.records[0].status.success);
}

#[test]
fn one_feed_down_does_not_block_the_other() {
    // Subscription A returns three usable nodes, subscription B times
    // out: A's status is success with count 3, B's failure carries its
    // message, and the document holds exactly A's outbounds.
    let manual: Vec<ProxyDescriptor> = Vec::new();
    let feed_a = vec![
        descriptor(ProxyKind::Hysteria2, "JP alpha", "a1.example", 443),
        descriptor(ProxyKind::Hysteria2, "JP beta", "a2.example", 443),
        descriptor(ProxyKind::Hysteria2, "SG gamma", "a3.example", 443),
    ];
    let fetches = vec![
        SubscriptionFetch {
            url: "https://feed.example/a".to_string(),
            outcome: FetchOutcome::Fetched(feed_a),
        },
        SubscriptionFetch {
            url: "https://feed.example/b".to_string(),
            outcome: FetchOutcome::Failed(FetchError {
                failure: FetchFailure::Network,
                message: "timed out after 30s".to_string(),
            }),
        },
    ];
    let markers = markers_japan_singapore();
    let s = synthesize(&manual, &fetches, &markers);

    assert_eq!(s.records.len(), 2);
    assert_eq!(s.records[0].url.as_str(), "https://feed.example/a");
    assert!(s.records[0].status.success);
    assert_eq!(s.records[0].status.node_count, 3);
    assert!(s.records[0].status.error.is_none());
    assert_eq!(s.records[1].url.as_str(), "https://feed.example/b");
    assert!(!s.records[1].status.success);
    assert_eq!(s.records[1].status.node_count, 0);
    assert_eq!(
        s.records[1].status.error.as_ref().map(|m| m.as_str()),
        Some("timed out after 30s")
    );

    let config = s.outcome.ok().expect("feed A supplied nodes");
    assert_eq!(config.node_outbounds.len(), 3);
    assert_eq!(config.group_members.len(), 3);
    assert_eq!(config.group_members[0].as_str(), "JP alpha");
    assert_eq!(config.group_members[1].as_str(), "JP beta");
    assert_eq!(config.group_members[2].as_str(), "SG gamma");
}

#[test]
fn names_outside_the_policy_are_filtered_out() {
    let manual: Vec<ProxyDescriptor> = Vec::new();
    let feed = vec![
        descriptor(ProxyKind::Hysteria2, "US node", "us.example", 443),
        descriptor(ProxyKind::Hysteria2, "JP node", "jp.example", 443),
    ];
    let fetches = vec![SubscriptionFetch {
        url: "https://feed.example/a".to_string(),
        outcome: FetchOutcome::Fetched(feed),
    }];
    let markers = markers_japan_singapore();
    let s = synthesize(&manual, &fetches, &markers);
    let config = s.outcome.ok().expect("one node passes the policy");
    assert_eq!(config.group_members.len(), 1);
    assert_eq!(config.group_members[0].as_str(), "JP node");
    assert_eq!(s.records[0].status.node_count, 1);
}

#[test]
fn unsupported_kinds_in_a_feed_are_skipped_not_fatal() {
    let manual: Vec<ProxyDescriptor> = Vec::new();
    let feed = vec![
        descriptor(ProxyKind::Unsupported, "JP exotic", "x.example", 443),
        descriptor(ProxyKind::Hysteria2, "JP plain", "p.example", 443),
    ];
    let fetches = vec![SubscriptionFetch {
        url: "https://feed.example/a".to_string(),
        outcome: FetchOutcome::Fetched(feed),
    }];
    let markers = markers_japan_singapore();
    let s = synthesize(&manual, &fetches, &markers);
    let config = s.outcome.ok().expect("the supported entry remains");
    assert_eq!(config.group_members.len(), 1);
    assert_eq!(config.group_members[0].as_str(), "JP plain");
}

#[test]
fn manual_nodes_are_not_policy_filtered() {
    // The inclusion policy applies to feeds; a manual node keeps its
    // place whatever its name.
    let manual = vec![descriptor(ProxyKind::AnyTls, "basement box", "h.example", 443)];
    let fetches: Vec<SubscriptionFetch> = Vec::new();
    let markers = markers_japan_singapore();
    let s = synthesize(&manual, &fetches, &markers);
    let config = s.outcome.ok().expect("manual node present");
    assert_eq!(config.group_members.len(), 1);
    assert_eq!(config.group_members[0].as_str(), "basement box");
}

#[test]
fn synthesized_document_keeps_the_scaffold() {
    let manual = vec![descriptor(ProxyKind::Hysteria2, "only", "o.example", 443)];
    let fetches: Vec<SubscriptionFetch> = Vec::new();
    let markers: Vec<String> = Vec::new();
    let s = synthesize(&manual, &fetches, &markers);
    let config = s.outcome.ok().expect("one manual node");
    assert_eq!(config.log.level.as_str(), "info");
    assert!(!config.log.disabled);
    assert_eq!(config.clash_api.external_controller.as_str(), "0.0.0.0:9090");
    assert_eq!(config.group_tag.as_str(), "proxy");
    assert_eq!(config.direct_tag.as_str(), "direct");
    assert_eq!(config.route.final_outbound.as_str(), "proxy");
    assert_eq!(config.dns.final_server.as_str(), "googledns");
    assert_eq!(config.dns.servers.len(), 2);
    assert_eq!(config.inbound.tag.as_str(), "tun-in");
    assert_eq!(config.inbound.mtu, 9000);
    assert_eq!(config.route.rules.len(), 6);
    assert_eq!(config.route.rule_sets.len(), 2);
}
