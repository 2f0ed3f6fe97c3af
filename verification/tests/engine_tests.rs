use gateway_core::config::{
    import_config, get_config, ConfigCell, ConfigError, MappingRule, Service,
};
use gateway_core::service as control;

fn rule(pattern: &str, method: &str, metric: &str, delta: u32) -> MappingRule {
    MappingRule {
        pattern: pattern.to_string(),
        http_method: method.to_string(),
        metric_system_name: metric.to_string(),
        delta,
    }
}

fn widget_service() -> Service {
    Service {
        id: 1,
        hosts: vec!["shop.example.com".to_string()],
        policies: vec![],
        target_domain: "upstream.example.com".to_string(),
        proxy_rules: vec![rule("/widgets", "GET", "hits", 1)],
    }
}

#[test]
fn matching_rule_yields_metric() {
    let svc = widget_service();
    let (matched, metrics) = svc.match_mapping_rule("GET".to_string(), "/widgets".to_string());
    assert!(matched);
    assert_eq!(metrics, "{\"hits\":1}");
}

#[test]
fn method_mismatch_yields_no_match() {
    let mut svc = widget_service();
    svc.proxy_rules = vec![rule("/widgets", "POST", "hits", 1)];
    let (matched, metrics) = svc.match_mapping_rule("GET".to_string(), "/widgets".to_string());
    assert!(!matched);
    assert_eq!(metrics, "{}");
}

#[test]
fn path_is_matched_exactly_not_as_a_prefix() {
    let svc = widget_service();
    let (matched, metrics) = svc.match_mapping_rule("GET".to_string(), "/widgets/1".to_string());
    assert!(!matched);
    assert_eq!(metrics, "{}");
}

#[test]
fn empty_rule_set_never_matches() {
    let mut svc = widget_service();
    svc.proxy_rules = vec![];
    let (matched, metrics) = svc.match_mapping_rule("GET".to_string(), "/".to_string());
    assert!(!matched);
    assert_eq!(metrics, "{}");
}

#[test]
fn rule_matches_requires_both_method_and_path() {
    let r = rule("/a", "GET", "m", 2);
    assert!(r.matches("GET".to_string(), "/a".to_string()));
    assert!(!r.matches("POST".to_string(), "/a".to_string()));
    assert!(!r.matches("GET".to_string(), "/b".to_string()));
}

#[test]
fn same_metric_later_rule_overwrites() {
    let mut svc = widget_service();
    svc.proxy_rules = vec![
        rule("/widgets", "GET", "hits", 1),
        rule("/widgets", "GET", "hits", 5),
    ];
    let (matched, metrics) = svc.match_mapping_rule("GET".to_string(), "/widgets".to_string());
    assert!(matched);
    assert_eq!(metrics, "{\"hits\":5}");
}

#[test]
fn same_metric_three_rules_last_match_decides() {
    let mut svc = widget_service();
    svc.proxy_rules = vec![
        rule("/widgets", "GET", "hits", 1),
        rule("/widgets", "GET", "hits", 7),
        rule("/other", "GET", "hits", 9),
    ];
    // the third rule does not match, so the second one is the last match
    let (matched, metrics) = svc.match_mapping_rule("GET".to_string(), "/widgets".to_string());
    assert!(matched);
    assert_eq!(metrics, "{\"hits\":7}");
}

#[test]
fn distinct_metrics_accumulate_in_first_match_order() {
    let mut svc = widget_service();
    svc.proxy_rules = vec![
        rule("/widgets", "GET", "hits", 1),
        rule("/gadgets", "GET", "gadget_hits", 3),
        rule("/widgets", "GET", "reads", 2),
    ];
    let (matched, metrics) = svc.match_mapping_rule("GET".to_string(), "/widgets".to_string());
    assert!(matched);
    assert_eq!(metrics, "{\"hits\":1,\"reads\":2}");
    let parsed: serde_json::Value = serde_json::from_str(&metrics).unwrap();
    assert_eq!(parsed["hits"], 1);
    assert_eq!(parsed["reads"], 2);
}

const VALID_CONFIG: &str = "{\"id\":1,\"hosts\":[\"shop.example.com\"],\"policies\":[],\"target_domain\":\"upstream.example.com\",\"proxy_rules\":[{\"pattern\":\"/widgets\",\"http_method\":\"GET\",\"metric_system_name\":\"hits\",\"delta\":1}]}";

#[test]
fn import_installs_the_parsed_configuration() {
    let mut cell = ConfigCell::new();
    let svc = import_config(&mut cell, VALID_CONFIG).unwrap();
    assert_eq!(svc.id, 1);
    assert_eq!(svc.hosts, vec!["shop.example.com"]);
    assert_eq!(svc.target_domain, "upstream.example.com");
    assert_eq!(svc.proxy_rules.len(), 1);
    assert_eq!(svc.proxy_rules[0].pattern, "/widgets");
    assert_eq!(svc.proxy_rules[0].http_method, "GET");
    assert_eq!(svc.proxy_rules[0].metric_system_name, "hits");
    assert_eq!(svc.proxy_rules[0].delta, 1);
    let active = get_config(&cell);
    assert_eq!(active.id, 1);
    assert_eq!(active.proxy_rules.len(), 1);
}

#[test]
fn fresh_cell_holds_the_empty_configuration() {
    let cell = ConfigCell::new();
    let active = get_config(&cell);
    assert_eq!(active.id, 0);
    assert!(active.hosts.is_empty());
    assert!(active.proxy_rules.is_empty());
    let (matched, metrics) = active.match_mapping_rule("GET".to_string(), "/".to_string());
    assert!(!matched);
    assert_eq!(metrics, "{}");
}

#[test]
fn invalid_import_keeps_previous_configuration() {
    let mut cell = ConfigCell::new();
    import_config(&mut cell, VALID_CONFIG).unwrap();
    let before = get_config(&cell);
    let (matched_before, metrics_before) =
        before.match_mapping_rule("GET".to_string(), "/widgets".to_string());

    let result = import_config(&mut cell, "{\"id\":1,\"hosts\":");
    assert!(matches!(result, Err(ConfigError::ParseFailure)));

    let after = get_config(&cell);
    let (matched_after, metrics_after) =
        after.match_mapping_rule("GET".to_string(), "/widgets".to_string());
    assert_eq!(matched_before, matched_after);
    assert_eq!(metrics_before, metrics_after);
    assert_eq!(after.proxy_rules.len(), 1);
}

#[test]
fn import_rejects_malformed_documents() {
    let mut cell = ConfigCell::new();
    assert!(import_config(&mut cell, "").is_err());
    assert!(import_config(&mut cell, "not json").is_err());
    assert!(import_config(&mut cell, "{}").is_err());
    assert!(import_config(&mut cell, "[1,2,3]").is_err());
    // members out of order
    assert!(import_config(
        &mut cell,
        "{\"hosts\":[],\"id\":1,\"policies\":[],\"target_domain\":\"t\",\"proxy_rules\":[]}",
    )
    .is_err());
    // delta outside the unsigned 32-bit range
    assert!(import_config(
        &mut cell,
        "{\"id\":1,\"hosts\":[],\"policies\":[],\"target_domain\":\"t\",\"proxy_rules\":[{\"pattern\":\"/a\",\"http_method\":\"GET\",\"metric_system_name\":\"m\",\"delta\":4294967296}]}",
    )
    .is_err());
    // trailing garbage after the object
    assert!(import_config(
        &mut cell,
        "{\"id\":1,\"hosts\":[],\"policies\":[],\"target_domain\":\"t\",\"proxy_rules\":[]}x",
    )
    .is_err());
}

#[test]
fn import_accepts_largest_id_and_delta() {
    let mut cell = ConfigCell::new();
    let cfg = "{\"id\":4294967295,\"hosts\":[],\"policies\":[],\"target_domain\":\"t\",\"proxy_rules\":[{\"pattern\":\"/a\",\"http_method\":\"GET\",\"metric_system_name\":\"m\",\"delta\":4294967295}]}";
    let svc = import_config(&mut cell, cfg).unwrap();
    assert_eq!(svc.id, u32::MAX);
    assert_eq!(svc.proxy_rules[0].delta, u32::MAX);
}

#[test]
fn import_unescapes_strings() {
    let mut cell = ConfigCell::new();
    let cfg = "{\"id\":2,\"hosts\":[\"we\\\"ird\\\\host\"],\"policies\":[],\"target_domain\":\"t\",\"proxy_rules\":[]}";
    let svc = import_config(&mut cell, cfg).unwrap();
    assert_eq!(svc.hosts, vec!["we\"ird\\host"]);
}

#[test]
fn import_skips_unknown_trailing_members() {
    let mut cell = ConfigCell::new();
    let cfg = "{\"id\":3,\"hosts\":[],\"policies\":[],\"target_domain\":\"t\",\"proxy_rules\":[],\"oidc_issuer\":null,\"auth_config\":{\"path\":\"a/b.wasm\",\"wasm_config\":{\"backend\":{\"cluster_name\":\"bk\",\"url\":\"https://b/\"}}}}";
    let svc = import_config(&mut cell, cfg).unwrap();
    assert_eq!(svc.id, 3);
}

#[test]
fn round_trip_keeps_quotes_backslashes_and_raw_control_characters() {
    let control_svc = control::Service {
        id: 11,
        hosts: vec!["line\nbreak".to_string(), "q\"b\\".to_string()],
        policies: vec![],
        target_domain: "t".to_string(),
        proxy_rules: vec![],
        oidc_issuer: None,
        auth_config: None,
    };
    let wire = control_svc.config_json();
    let mut cell = ConfigCell::new();
    let svc = import_config(&mut cell, &wire).unwrap();
    assert_eq!(svc.hosts, vec!["line\nbreak", "q\"b\\"]);
}

#[test]
fn compiled_descriptor_round_trips_into_the_data_plane() {
    let control_svc = control::Service {
        id: 21,
        hosts: vec!["shop.example.com".to_string()],
        policies: vec![],
        target_domain: "upstream.example.com".to_string(),
        proxy_rules: vec![control::MappingRules {
            pattern: "/widgets".to_string(),
            http_method: "GET".to_string(),
            metric_system_name: "hits".to_string(),
            delta: 4,
        }],
        oidc_issuer: None,
        auth_config: None,
    };
    let wire = control_svc.config_json();
    let mut cell = ConfigCell::new();
    let svc = import_config(&mut cell, &wire).unwrap();
    assert_eq!(svc.id, 21);
    assert_eq!(svc.hosts, vec!["shop.example.com"]);
    assert_eq!(svc.proxy_rules[0].delta, 4);
    let (matched, metrics) = svc.match_mapping_rule("GET".to_string(), "/widgets".to_string());
    assert!(matched);
    assert_eq!(metrics, "{\"hits\":4}");
}
