use gateway_core::resources::{EnvoyResource, HttpFilterPayload, Listener};
use gateway_core::service::{
    ExportError, ExportInputs, MappingRules, OidcDiscovery, PoliciyConfig, Service,
};
use gateway_core::resources::Cluster;
use gateway_core::threescale::{Backend, ThreescaleAuth, WasmConfig};

fn minimal_service(id: u32) -> Service {
    Service {
        id,
        hosts: vec!["shop.example.com".to_string(), "api.example.com".to_string()],
        policies: vec![],
        target_domain: "upstream.example.com".to_string(),
        proxy_rules: vec![MappingRules {
            pattern: "/widgets".to_string(),
            http_method: "GET".to_string(),
            metric_system_name: "hits".to_string(),
            delta: 1,
        }],
        oidc_issuer: None,
        auth_config: None,
    }
}

fn auth_config() -> ThreescaleAuth {
    ThreescaleAuth {
        path: "bundles/threescale_wasm_auth.wasm".to_string(),
        wasm_config: WasmConfig {
            backend: Backend {
                cluster_name: "threescale_backend".to_string(),
                url: "https://su1.3scale.net/".to_string(),
                other: vec![],
            },
            other: vec![],
        },
    }
}

fn plain_inputs(asset: &[u8]) -> ExportInputs {
    ExportInputs {
        oidc: None,
        metering_asset: Ok(asset.to_vec()),
        auth_asset: None,
    }
}

fn listener_of(res: &EnvoyResource) -> &Listener {
    match res {
        EnvoyResource::Listener(l) => l,
        EnvoyResource::Cluster(_) => panic!("expected a listener"),
    }
}

fn http_filter_names(l: &Listener) -> Vec<String> {
    l.filter_chains[0].filters[0]
        .hcm
        .http_filters
        .iter()
        .map(|f| f.name.clone())
        .collect()
}

#[test]
fn minimal_bundle_has_two_entries_router_last() {
    let svc = minimal_service(42);
    let bundle = svc.export(plain_inputs(b"wasm-bytes")).unwrap();
    assert_eq!(bundle.len(), 2);
    assert_eq!(bundle[0].key, "service::id::42::cluster");
    assert_eq!(bundle[1].key, "service::id::42::listener");
    match &bundle[0].config {
        EnvoyResource::Cluster(c) => {
            assert_eq!(c.name, "Cluster::service::42");
            assert_eq!(c.target_address, "upstream.example.com");
        }
        EnvoyResource::Listener(_) => panic!("expected a cluster"),
    }
    let l = listener_of(&bundle[1].config);
    let names = http_filter_names(l);
    assert_eq!(names, vec!["envoy.filters.http.wasm", "envoy.filters.http.router"]);
    assert_eq!(names.last().unwrap(), "envoy.filters.http.router");
    assert_eq!(l.address.address, "0.0.0.0");
    assert_eq!(l.address.port, 80);
    assert_eq!(l.name, "service 42");
    let vh = &l.filter_chains[0].filters[0].hcm.route_config.virtual_hosts[0];
    assert_eq!(vh.domains, vec!["shop.example.com", "api.example.com"]);
    assert_eq!(vh.routes[0].prefix, "/");
    assert_eq!(vh.routes[0].cluster, "Cluster::service::42");
}

#[test]
fn full_bundle_has_four_entries_in_filter_order() {
    let mut svc = minimal_service(7);
    svc.oidc_issuer = Some("https://issuer.example.com/auth/realms/shop".to_string());
    svc.auth_config = Some(auth_config());
    let inputs = ExportInputs {
        oidc: Some(Ok(OidcDiscovery {
            jwt_config: vec![8, 1, 2],
            cluster: Cluster {
                name: "issuer_cluster".to_string(),
                target_address: "issuer.example.com".to_string(),
            },
        })),
        metering_asset: Ok(b"metering-code".to_vec()),
        auth_asset: Some(Ok(b"billing-code".to_vec())),
    };
    let bundle = svc.export(inputs).unwrap();
    assert_eq!(bundle.len(), 4);
    assert_eq!(bundle[0].key, "service::id::7::cluster");
    assert_eq!(bundle[1].key, "issuer_cluster");
    assert_eq!(bundle[2].key, "threescale_backend");
    assert_eq!(bundle[3].key, "service::id::7::listener");
    let l = listener_of(&bundle[3].config);
    let names = http_filter_names(l);
    assert_eq!(
        names,
        vec![
            "envoy.filters.http.jwt_authn",
            "envoy.filters.http.wasm",
            "envoy.filters.http.wasm",
            "envoy.filters.http.router",
        ]
    );
    let filters = &l.filter_chains[0].filters[0].hcm.http_filters;
    match &filters[0].payload {
        HttpFilterPayload::Jwt(b) => assert_eq!(b, &vec![8, 1, 2]),
        _ => panic!("expected the jwt payload"),
    }
    match &filters[1].payload {
        HttpFilterPayload::Wasm(w) => {
            assert_eq!(w.config.name, "Service::7");
            assert_eq!(
                w.config.vm.code.uri,
                "http://control-plane-main:5001/static/threescale_wasm_auth.wasm"
            );
            assert_eq!(w.config.vm.configuration.text, "vm config");
            assert_eq!(w.config.vm.code.timeout.seconds, 100);
            assert_eq!(
                w.config.configuration.as_ref().unwrap().text,
                "{\"backend\":{\"cluster_name\":\"threescale_backend\",\"url\":\"https://su1.3scale.net/\"}}"
            );
        }
        _ => panic!("expected the billing wasm payload"),
    }
    match &filters[2].payload {
        HttpFilterPayload::Wasm(w) => {
            assert_eq!(w.config.name, "Service::7");
            assert_eq!(
                w.config.vm.code.uri,
                "http://control-plane-main:5001/static/filter.wasm"
            );
            assert_eq!(
                w.config.vm.code.sha256,
                Service::get_wasm_filter_sha(&b"metering-code".to_vec())
            );
        }
        _ => panic!("expected the metering wasm payload"),
    }
    match &filters[3].payload {
        HttpFilterPayload::Router => {}
        _ => panic!("expected the router payload"),
    }
}

#[test]
fn export_is_deterministic() {
    let svc = minimal_service(9);
    let b1 = svc.export(plain_inputs(b"asset")).unwrap();
    let b2 = svc.export(plain_inputs(b"asset")).unwrap();
    assert_eq!(format!("{:?}", b1), format!("{:?}", b2));
}

#[test]
fn identity_adapter_failure_is_fatal_with_service_id() {
    let mut svc = minimal_service(13);
    svc.oidc_issuer = Some("https://broken.example.com".to_string());
    let inputs = ExportInputs {
        oidc: Some(Err("connection refused".to_string())),
        metering_asset: Ok(b"x".to_vec()),
        auth_asset: None,
    };
    match svc.export(inputs) {
        Err(ExportError::IdentityAdapterFailure { service_id, message }) => {
            assert_eq!(service_id, 13);
            assert_eq!(message, "connection refused");
        }
        other => panic!("expected an identity adapter failure, got {:?}", other),
    }
}

#[test]
fn missing_metering_asset_is_fatal() {
    let svc = minimal_service(5);
    let inputs = ExportInputs {
        oidc: None,
        metering_asset: Err("no such file".to_string()),
        auth_asset: None,
    };
    match svc.export(inputs) {
        Err(ExportError::AssetIntegrityFailure { service_id, message }) => {
            assert_eq!(service_id, 5);
            assert_eq!(message, "no such file");
        }
        other => panic!("expected an asset integrity failure, got {:?}", other),
    }
}

#[test]
fn billing_asset_failure_and_bad_path_are_fatal() {
    let mut svc = minimal_service(6);
    svc.auth_config = Some(auth_config());
    let inputs = ExportInputs {
        oidc: None,
        metering_asset: Ok(b"x".to_vec()),
        auth_asset: Some(Err("unreadable".to_string())),
    };
    match svc.export(inputs) {
        Err(ExportError::BillingAdapterFailure { service_id, message }) => {
            assert_eq!(service_id, 6);
            assert_eq!(message, "unreadable");
        }
        other => panic!("expected a billing adapter failure, got {:?}", other),
    }

    let mut bad = auth_config();
    bad.path = "bundles/".to_string();
    svc.auth_config = Some(bad);
    let inputs = ExportInputs {
        oidc: None,
        metering_asset: Ok(b"x".to_vec()),
        auth_asset: Some(Ok(b"y".to_vec())),
    };
    match svc.export(inputs) {
        Err(ExportError::BillingAdapterFailure { service_id, message }) => {
            assert_eq!(service_id, 6);
            assert_eq!(message, "failed to obtain file name of bundles/");
        }
        other => panic!("expected a billing adapter failure, got {:?}", other),
    }
}

#[test]
fn embedded_config_is_the_serialized_descriptor() {
    let mut svc = minimal_service(3);
    svc.hosts = vec!["a.example.com".to_string()];
    svc.policies = vec![PoliciyConfig {
        name: "p1".to_string(),
        configuration: "{\"x\":1}".to_string(),
    }];
    svc.oidc_issuer = Some("https://issuer.example.com".to_string());
    let expected = "{\"id\":3,\"hosts\":[\"a.example.com\"],\"policies\":[{\"name\":\"p1\",\"configuration\":{\"x\":1}}],\"target_domain\":\"upstream.example.com\",\"proxy_rules\":[{\"pattern\":\"/widgets\",\"http_method\":\"GET\",\"metric_system_name\":\"hits\",\"delta\":1}],\"oidc_issuer\":\"https://issuer.example.com\",\"auth_config\":null}";
    assert_eq!(svc.config_json(), expected);

    let bundle = svc
        .export(ExportInputs {
            oidc: Some(Ok(OidcDiscovery {
                jwt_config: vec![],
                cluster: Cluster {
                    name: "issuer_cluster".to_string(),
                    target_address: "issuer.example.com".to_string(),
                },
            })),
            metering_asset: Ok(b"code".to_vec()),
            auth_asset: None,
        })
        .unwrap();
    let l = listener_of(&bundle[2].config);
    let filters = &l.filter_chains[0].filters[0].hcm.http_filters;
    match &filters[1].payload {
        HttpFilterPayload::Wasm(w) => {
            assert_eq!(w.config.vm.configuration.text, expected);
            assert_eq!(
                w.config.vm.configuration.type_url,
                "type.googleapis.com/google.protobuf.StringValue"
            );
        }
        _ => panic!("expected the metering wasm payload"),
    }
}

#[test]
fn config_json_escapes_quotes_and_backslashes() {
    let mut svc = minimal_service(1);
    svc.hosts = vec!["we\"ird\\host".to_string()];
    svc.proxy_rules = vec![];
    let json = svc.config_json();
    assert!(json.contains("[\"we\\\"ird\\\\host\"]"));
    let parsed: serde_json::Value = serde_json::from_str(&json).unwrap();
    assert_eq!(parsed["hosts"][0], "we\"ird\\host");
    assert_eq!(parsed["id"], 1);
}

#[test]
fn config_json_is_valid_json() {
    let mut svc = minimal_service(2100000000);
    svc.auth_config = Some(ThreescaleAuth {
        path: "a/b.wasm".to_string(),
        wasm_config: WasmConfig {
            backend: Backend {
                cluster_name: "bk".to_string(),
                url: "https://backend.example.com/".to_string(),
                other: vec![("service_token".to_string(), "\"SECRET-REDACTED\"".to_string())],
            },
            other: vec![("mode".to_string(), "{\"kind\":\"strict\"}".to_string())],
        },
    });
    let json = svc.config_json();
    let parsed: serde_json::Value = serde_json::from_str(&json).unwrap();
    assert_eq!(parsed["id"], 2100000000u32);
    assert_eq!(parsed["auth_config"]["path"], "a/b.wasm");
    assert_eq!(
        parsed["auth_config"]["wasm_config"]["backend"]["service_token"],
        "SECRET-REDACTED"
    );
    assert_eq!(parsed["auth_config"]["wasm_config"]["mode"]["kind"], "strict");
}

#[test]
fn wasm_filter_sha_matches_known_digests() {
    assert_eq!(
        Service::get_wasm_filter_sha(&Vec::new()),
        "e3b0c44298fc1c149afbf4c8996fb92427ae41e4649b934ca495991b7852b855"
    );
    assert_eq!(
        Service::get_wasm_filter_sha(&b"hello".to_vec()),
        "2cf24dba5fb0a30e26e83b2ac5b9e29e1b161e5c1fa7425e73043362938b9824"
    );
}
