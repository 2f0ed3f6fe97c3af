//! The export engine: compiles one `Service` descriptor into the ordered,
//! uniquely-keyed bundle of proxy resources the data plane consumes. Every
//! derived resource name is a function of the service id alone, so unique
//! ids give unique keys. The engine itself performs no I/O: the identity
//! discovery outcome and the plugin code assets are handed in as plain
//! values, and the whole bundle is a function of the service and those
//! inputs.

use vstd::prelude::*;
use crate::config::MappingRuleView;
use crate::digest::{sha_hex, sha_hex_of};
use crate::json::{
    join_from, json_arr_of, json_str_arr_of, json_str_of, push_json_str, push_json_str_arr,
};
use crate::resources::{
    Cluster, ClusterView, EnvoyExport, EnvoyExportView, EnvoyResource, EnvoyResourceView,
    FilterChain, FilterChainView, HttpConnectionManager, HttpConnectionManagerView, HttpFilter,
    HttpFilterPayload, HttpFilterPayloadView, HttpFilterView, Listener, ListenerView,
    NetworkFilter, NetworkFilterView, PluginConfig, PluginConfigView, ProtoDuration,
    RemoteSource, RemoteSourceView, Route, RouteConfiguration, RouteConfigurationView, RouteView,
    SocketAddress, SocketAddressView, TextConfig, TextConfigView, VirtualHost, VirtualHostView,
    VmConfig, VmConfigView, WasmFilter, WasmFilterView, get_envoy_cluster,
};
use crate::text::{chars_to_string, clone_string_vec, dec_of, push_dec_u32, push_str_chars};
use crate::threescale::{
    json_of_wasm_config, spec_auth_wasm, vm_name, vm_name_of, ThreescaleAuth, ThreescaleAuthView,
    file_name_of,
};

verus! {

/// One usage-mapping rule as authored in the control plane.
#[derive(Clone, Debug)]
pub struct MappingRules {
    pub pattern: String,
    pub http_method: String,
    pub metric_system_name: String,
    pub delta: u32,
}

impl View for MappingRules {
    type V = MappingRuleView;

    open spec fn view(&self) -> MappingRuleView {
        MappingRuleView {
            pattern: self.pattern@,
            http_method: self.http_method@,
            metric_system_name: self.metric_system_name@,
            delta: self.delta,
        }
    }
}

impl DeepView for MappingRules {
    type V = MappingRuleView;

    open spec fn deep_view(&self) -> MappingRuleView {
        self.view()
    }
}

/// A named policy configuration: an opaque name plus a free-form structured
/// configuration, carried as raw JSON text and not interpreted here.
#[derive(Clone, Debug)]
pub struct PoliciyConfig {
    pub name: String,
    pub configuration: String,
}

#[verifier::ext_equal]
pub struct PolicyConfigView {
    pub name: Seq<char>,
    pub configuration: Seq<char>,
}

impl View for PoliciyConfig {
    type V = PolicyConfigView;

    open spec fn view(&self) -> PolicyConfigView {
        PolicyConfigView { name: self.name@, configuration: self.configuration@ }
    }
}

impl DeepView for PoliciyConfig {
    type V = PolicyConfigView;

    open spec fn deep_view(&self) -> PolicyConfigView {
        self.view()
    }
}

/// The unit of configuration the export engine compiles.
#[derive(Clone, Debug)]
pub struct Service {
    pub id: u32,
    pub hosts: Vec<String>,
    pub policies: Vec<PoliciyConfig>,
    pub target_domain: String,
    pub proxy_rules: Vec<MappingRules>,
    pub oidc_issuer: Option<String>,
    pub auth_config: Option<ThreescaleAuth>,
}

#[verifier::ext_equal]
pub struct ServiceView {
    pub id: u32,
    pub hosts: Seq<Seq<char>>,
    pub policies: Seq<PolicyConfigView>,
    pub target_domain: Seq<char>,
    pub proxy_rules: Seq<MappingRuleView>,
    pub oidc_issuer: Option<Seq<char>>,
    pub auth_config: Option<ThreescaleAuthView>,
}

impl View for Service {
    type V = ServiceView;

    open spec fn view(&self) -> ServiceView {
        ServiceView {
            id: self.id,
            hosts: self.hosts.deep_view(),
            policies: self.policies.deep_view(),
            target_domain: self.target_domain@,
            proxy_rules: self.proxy_rules.deep_view(),
            oidc_issuer: (match self.oidc_issuer {
                Some(s) => Some(s@),
                None => None,
            }),
            auth_config: (match self.auth_config {
                Some(a) => Some(a@),
                None => None,
            }),
        }
    }
}

/// The JSON rendering of one mapping rule.
pub open spec fn json_of_rule(r: MappingRuleView) -> Seq<char> {
    "{\"pattern\":"@ + json_str_of(r.pattern) + ",\"http_method\":"@ + json_str_of(r.http_method)
        + ",\"metric_system_name\":"@ + json_str_of(r.metric_system_name) + ",\"delta\":"@
        + dec_of(r.delta as nat) + "}"@
}

/// The JSON rendering of one policy configuration; the free-form
/// configuration is spliced in as it stands.
pub open spec fn json_of_policy(p: PolicyConfigView) -> Seq<char> {
    "{\"name\":"@ + json_str_of(p.name) + ",\"configuration\":"@ + p.configuration + "}"@
}

/// An optional string member: `null` when absent.
pub open spec fn json_of_opt_str(o: Option<Seq<char>>) -> Seq<char> {
    match o {
        None => "null"@,
        Some(v) => json_str_of(v),
    }
}

/// The JSON rendering of a billing/auth configuration.
pub open spec fn json_of_auth(a: ThreescaleAuthView) -> Seq<char> {
    "{\"path\":"@ + json_str_of(a.path) + ",\"wasm_config\":"@ + json_of_wasm_config(
        a.wasm_config,
    ) + "}"@
}

/// An optional billing/auth member: `null` when absent.
pub open spec fn json_of_opt_auth(o: Option<ThreescaleAuthView>) -> Seq<char> {
    match o {
        None => "null"@,
        Some(a) => json_of_auth(a),
    }
}

/// The serialized `Service` descriptor: the compact JSON wire form embedded
/// as the metering filter's plugin configuration, members in declaration
/// order.
pub open spec fn json_of_service(s: ServiceView) -> Seq<char> {
    "{\"id\":"@ + dec_of(s.id as nat) + ",\"hosts\":"@ + json_str_arr_of(s.hosts)
        + ",\"policies\":"@ + json_arr_of(
        s.policies.map_values(|p: PolicyConfigView| json_of_policy(p)),
    ) + ",\"target_domain\":"@ + json_str_of(s.target_domain) + ",\"proxy_rules\":"@
        + json_arr_of(s.proxy_rules.map_values(|r: MappingRuleView| json_of_rule(r)))
        + ",\"oidc_issuer\":"@ + json_of_opt_str(s.oidc_issuer) + ",\"auth_config\":"@
        + json_of_opt_auth(s.auth_config) + "}"@
}

fn push_rule_json(out: &mut Vec<char>, r: &MappingRules)
    ensures
        final(out)@ == old(out)@ + json_of_rule(r@),
{
    push_str_chars(out, "{\"pattern\":");
    push_json_str(out, r.pattern.as_str());
    push_str_chars(out, ",\"http_method\":");
    push_json_str(out, r.http_method.as_str());
    push_str_chars(out, ",\"metric_system_name\":");
    push_json_str(out, r.metric_system_name.as_str());
    push_str_chars(out, ",\"delta\":");
    push_dec_u32(out, r.delta);
    push_str_chars(out, "}");
    assert(final(out)@ =~= old(out)@ + json_of_rule(r@));
}

fn push_policy_json(out: &mut Vec<char>, p: &PoliciyConfig)
    ensures
        final(out)@ == old(out)@ + json_of_policy(p@),
{
    push_str_chars(out, "{\"name\":");
    push_json_str(out, p.name.as_str());
    push_str_chars(out, ",\"configuration\":");
    push_str_chars(out, p.configuration.as_str());
    push_str_chars(out, "}");
    assert(final(out)@ =~= old(out)@ + json_of_policy(p@));
}

fn push_policy_arr(out: &mut Vec<char>, a: &Vec<PoliciyConfig>)
    ensures
        final(out)@ == old(out)@ + json_arr_of(
            a.deep_view().map_values(|p: PolicyConfigView| json_of_policy(p)),
        ),
{
    let ghost items = a.deep_view().map_values(|p: PolicyConfigView| json_of_policy(p));
    out.push('[');
    let mut i: usize = 0;
    while i < a.len()
        invariant
            items == a.deep_view().map_values(|p: PolicyConfigView| json_of_policy(p)),
            items.len() == a@.len(),
            i <= a@.len(),
            out@ + join_from(items, i as int) == old(out)@ + seq!['['] + join_from(items, 0),
        decreases a@.len() - i,
    {
        proof {
            assert(items[i as int] == json_of_policy(a@[i as int].deep_view()));
        }
        push_policy_json(out, &a[i]);
        if i + 1 < a.len() {
            out.push(',');
        }
        i = i + 1;
        assert(out@ + join_from(items, i as int) =~= old(out)@ + seq!['['] + join_from(items, 0));
    }
    out.push(']');
    assert(final(out)@ =~= old(out)@ + json_arr_of(items));
}

fn push_rule_arr(out: &mut Vec<char>, a: &Vec<MappingRules>)
    ensures
        final(out)@ == old(out)@ + json_arr_of(
            a.deep_view().map_values(|r: MappingRuleView| json_of_rule(r)),
        ),
{
    let ghost items = a.deep_view().map_values(|r: MappingRuleView| json_of_rule(r));
    out.push('[');
    let mut i: usize = 0;
    while i < a.len()
        invariant
            items == a.deep_view().map_values(|r: MappingRuleView| json_of_rule(r)),
            items.len() == a@.len(),
            i <= a@.len(),
            out@ + join_from(items, i as int) == old(out)@ + seq!['['] + join_from(items, 0),
        decreases a@.len() - i,
    {
        proof {
            assert(items[i as int] == json_of_rule(a@[i as int].deep_view()));
        }
        push_rule_json(out, &a[i]);
        if i + 1 < a.len() {
            out.push(',');
        }
        i = i + 1;
        assert(out@ + join_from(items, i as int) =~= old(out)@ + seq!['['] + join_from(items, 0));
    }
    out.push(']');
    assert(final(out)@ =~= old(out)@ + json_arr_of(items));
}

fn push_auth_json(out: &mut Vec<char>, a: &ThreescaleAuth)
    ensures
        final(out)@ == old(out)@ + json_of_auth(a@),
{
    push_str_chars(out, "{\"path\":");
    push_json_str(out, a.path.as_str());
    push_str_chars(out, ",\"wasm_config\":");
    crate::threescale::push_wasm_config_json(out, &a.wasm_config);
    push_str_chars(out, "}");
    assert(final(out)@ =~= old(out)@ + json_of_auth(a@));
}

impl Service {
    /// The serialized descriptor of this service, as embedded in the
    /// metering filter's plugin configuration.
    pub fn config_json(&self) -> (r: String)
        ensures
            r@ == json_of_service(self@),
    {
        let mut out: Vec<char> = Vec::new();
        push_str_chars(&mut out, "{\"id\":");
        push_dec_u32(&mut out, self.id);
        push_str_chars(&mut out, ",\"hosts\":");
        push_json_str_arr(&mut out, &self.hosts);
        push_str_chars(&mut out, ",\"policies\":");
        push_policy_arr(&mut out, &self.policies);
        push_str_chars(&mut out, ",\"target_domain\":");
        push_json_str(&mut out, self.target_domain.as_str());
        push_str_chars(&mut out, ",\"proxy_rules\":");
        push_rule_arr(&mut out, &self.proxy_rules);
        push_str_chars(&mut out, ",\"oidc_issuer\":");
        match &self.oidc_issuer {
            None => push_str_chars(&mut out, "null"),
            Some(v) => push_json_str(&mut out, v.as_str()),
        }
        push_str_chars(&mut out, ",\"auth_config\":");
        match &self.auth_config {
            None => push_str_chars(&mut out, "null"),
            Some(a) => push_auth_json(&mut out, a),
        }
        push_str_chars(&mut out, "}");
        assert(out@ =~= json_of_service(self@));
        chars_to_string(&out)
    }
}

/// The name of a service's own routing cluster.
pub open spec fn cluster_name_of(id: u32) -> Seq<char> {
    "Cluster::service::"@ + dec_of(id as nat)
}

/// The bundle key reserved for a service's routing cluster.
pub open spec fn cluster_key_of(id: u32) -> Seq<char> {
    "service::id::"@ + dec_of(id as nat) + "::cluster"@
}

/// The bundle key reserved for a service's listener.
pub open spec fn listener_key_of(id: u32) -> Seq<char> {
    "service::id::"@ + dec_of(id as nat) + "::listener"@
}

/// Every resource name the engine derives is a function of the service id
/// alone: distinct ids give distinct cluster names, cluster keys and
/// listener keys, and one service's two reserved keys never collide.
pub proof fn lemma_derived_names_unique(id1: u32, id2: u32)
    ensures
        cluster_key_of(id1) == cluster_key_of(id2) ==> id1 == id2,
        listener_key_of(id1) == listener_key_of(id2) ==> id1 == id2,
        cluster_name_of(id1) == cluster_name_of(id2) ==> id1 == id2,
        cluster_key_of(id1) != listener_key_of(id1),
{
    reveal_strlit("service::id::");
    reveal_strlit("::cluster");
    reveal_strlit("::listener");
    reveal_strlit("Cluster::service::");
    let d1 = dec_of(id1 as nat);
    let d2 = dec_of(id2 as nat);
    crate::text::lemma_dec_of_len(id1 as nat);
    crate::text::lemma_dec_of_len(id2 as nat);
    if cluster_key_of(id1) == cluster_key_of(id2) {
        assert(cluster_key_of(id1).len() == 13 + d1.len() + 9);
        assert(cluster_key_of(id2).len() == 13 + d2.len() + 9);
        assert(d1.len() == d2.len());
        assert(d1 =~= cluster_key_of(id1).subrange(13, 13 + d1.len() as int));
        assert(d2 =~= cluster_key_of(id2).subrange(13, 13 + d2.len() as int));
        crate::text::lemma_dec_of_injective(id1 as nat, id2 as nat);
    }
    if listener_key_of(id1) == listener_key_of(id2) {
        assert(listener_key_of(id1).len() == 13 + d1.len() + 10);
        assert(listener_key_of(id2).len() == 13 + d2.len() + 10);
        assert(d1.len() == d2.len());
        assert(d1 =~= listener_key_of(id1).subrange(13, 13 + d1.len() as int));
        assert(d2 =~= listener_key_of(id2).subrange(13, 13 + d2.len() as int));
        crate::text::lemma_dec_of_injective(id1 as nat, id2 as nat);
    }
    if cluster_name_of(id1) == cluster_name_of(id2) {
        assert(cluster_name_of(id1).len() == 18 + d1.len());
        assert(cluster_name_of(id2).len() == 18 + d2.len());
        assert(d1.len() == d2.len());
        assert(d1 =~= cluster_name_of(id1).subrange(18, 18 + d1.len() as int));
        assert(d2 =~= cluster_name_of(id2).subrange(18, 18 + d2.len() as int));
        crate::text::lemma_dec_of_injective(id1 as nat, id2 as nat);
    }
    assert(cluster_key_of(id1).len() == 13 + d1.len() + 9);
    assert(listener_key_of(id1).len() == 13 + d1.len() + 10);
}

fn make_name(prefix: &str, id: u32, suffix: &str) -> (r: String)
    ensures
        r@ == prefix@ + dec_of(id as nat) + suffix@,
{
    let mut out: Vec<char> = Vec::new();
    push_str_chars(&mut out, prefix);
    push_dec_u32(&mut out, id);
    push_str_chars(&mut out, suffix);
    chars_to_string(&out)
}

/// The identity discovery outcome for one issuer: the encoded
/// JWT-authentication filter configuration and the cluster needed to reach
/// the provider.
#[derive(Clone, Debug)]
pub struct OidcDiscovery {
    pub jwt_config: Vec<u8>,
    pub cluster: Cluster,
}

#[verifier::ext_equal]
pub struct OidcDiscoveryView {
    pub jwt_config: Seq<u8>,
    pub cluster: ClusterView,
}

impl View for OidcDiscovery {
    type V = OidcDiscoveryView;

    open spec fn view(&self) -> OidcDiscoveryView {
        OidcDiscoveryView { jwt_config: self.jwt_config@, cluster: self.cluster@ }
    }
}

/// The outside-world inputs one export consumes: the identity discovery
/// outcome (present exactly when `oidc_issuer` is set), the bytes of the
/// bundled metering plugin asset, and the bytes of the billing plugin asset
/// (present exactly when `auth_config` is set). Each carries the failure
/// message of the adapter or read that produced it.
pub struct ExportInputs {
    pub oidc: Option<Result<OidcDiscovery, String>>,
    pub metering_asset: Result<Vec<u8>, String>,
    pub auth_asset: Option<Result<Vec<u8>, String>>,
}

#[verifier::ext_equal]
pub struct ExportInputsView {
    pub oidc: Option<Result<OidcDiscoveryView, Seq<char>>>,
    pub metering_asset: Result<Seq<u8>, Seq<char>>,
    pub auth_asset: Option<Result<Seq<u8>, Seq<char>>>,
}

impl View for ExportInputs {
    type V = ExportInputsView;

    open spec fn view(&self) -> ExportInputsView {
        ExportInputsView {
            oidc: (match self.oidc {
                None => None,
                Some(Ok(d)) => Some(Ok(d@)),
                Some(Err(m)) => Some(Err(m@)),
            }),
            metering_asset: (match self.metering_asset {
                Ok(b) => Ok(b@),
                Err(m) => Err(m@),
            }),
            auth_asset: (match self.auth_asset {
                None => None,
                Some(Ok(b)) => Some(Ok(b@)),
                Some(Err(m)) => Some(Err(m@)),
            }),
        }
    }
}

/// Why one service's export failed. Every failure is fatal to that
/// service's export and names the owning service; there is no partial
/// bundle.
#[derive(Clone, Debug)]
pub enum ExportError {
    /// Identity discovery failed for the configured issuer.
    IdentityAdapterFailure { service_id: u32, message: String },
    /// The billing/auth plugin could not be built from its configuration
    /// or its code asset.
    BillingAdapterFailure { service_id: u32, message: String },
    /// The bundled metering asset could not be read or hashed.
    AssetIntegrityFailure { service_id: u32, message: String },
}

#[verifier::ext_equal]
pub enum ExportErrorView {
    IdentityAdapterFailure { service_id: u32, message: Seq<char> },
    BillingAdapterFailure { service_id: u32, message: Seq<char> },
    AssetIntegrityFailure { service_id: u32, message: Seq<char> },
}

impl View for ExportError {
    type V = ExportErrorView;

    open spec fn view(&self) -> ExportErrorView {
        match self {
            ExportError::IdentityAdapterFailure { service_id, message } =>
                ExportErrorView::IdentityAdapterFailure {
                    service_id: *service_id,
                    message: message@,
                },
            ExportError::BillingAdapterFailure { service_id, message } =>
                ExportErrorView::BillingAdapterFailure {
                    service_id: *service_id,
                    message: message@,
                },
            ExportError::AssetIntegrityFailure { service_id, message } =>
                ExportErrorView::AssetIntegrityFailure {
                    service_id: *service_id,
                    message: message@,
                },
        }
    }
}

/// The JWT-authentication filter entry wrapping an adapter-provided encoded
/// configuration.
pub open spec fn jwt_filter_view(jwt: Seq<u8>) -> HttpFilterView {
    HttpFilterView {
        name: "envoy.filters.http.jwt_authn"@,
        type_url: "type.googleapis.com/envoy.extensions.filters.http.jwt_authn.v3.JwtAuthentication"@,
        payload: HttpFilterPayloadView::Jwt(jwt),
    }
}

/// A WASM filter entry wrapping a plugin descriptor.
pub open spec fn wasm_filter_entry(w: WasmFilterView) -> HttpFilterView {
    HttpFilterView {
        name: "envoy.filters.http.wasm"@,
        type_url: "type.googleapis.com/envoy.extensions.filters.http.wasm.v3.Wasm"@,
        payload: HttpFilterPayloadView::Wasm(w),
    }
}

/// The terminal router filter entry.
pub open spec fn router_filter_view() -> HttpFilterView {
    HttpFilterView {
        name: "envoy.filters.http.router"@,
        type_url: "type.googleapis.com/envoy.extensions.filters.http.router.v3.Router"@,
        payload: HttpFilterPayloadView::Router,
    }
}

/// The bundled metering filter descriptor: named after the service, its
/// code fetched from the packaged asset route and verified against the
/// SHA-256 of `asset`, with the serialized `Service` descriptor embedded as
/// the VM configuration.
pub open spec fn spec_metering_wasm(s: ServiceView, asset: Seq<u8>) -> WasmFilterView {
    WasmFilterView {
        config: PluginConfigView {
            name: vm_name_of(s.id),
            root_id: vm_name_of(s.id),
            vm: VmConfigView {
                vm_id: vm_name_of(s.id),
                runtime: "envoy.wasm.runtime.v8"@,
                configuration: TextConfigView {
                    type_url: "type.googleapis.com/google.protobuf.StringValue"@,
                    text: json_of_service(s),
                },
                code: RemoteSourceView {
                    uri: "http://control-plane-main:5001/static/filter.wasm"@,
                    timeout: ProtoDuration { seconds: 100, nanos: 0 },
                    upstream_cluster: "wasm_files"@,
                    sha256: sha_hex_of(asset),
                },
            },
            configuration: None,
        },
    }
}

/// The ordered HTTP filter chain of one listener: the JWT filter if
/// present, then the billing filter if present, then the metering filter,
/// then the terminal router — always in this order, the router always
/// last.
pub open spec fn spec_http_filters(
    jwt: Option<Seq<u8>>,
    auth_wasm: Option<WasmFilterView>,
    metering: WasmFilterView,
) -> Seq<HttpFilterView> {
    (match jwt {
        Some(j) => seq![jwt_filter_view(j)],
        None => Seq::<HttpFilterView>::empty(),
    }) + (match auth_wasm {
        Some(w) => seq![wasm_filter_entry(w)],
        None => Seq::<HttpFilterView>::empty(),
    }) + seq![wasm_filter_entry(metering), router_filter_view()]
}

/// The listener of one service: bound to the wildcard address on the fixed
/// ingress port, one filter chain, one HTTP connection manager carrying the
/// ordered filters and a route configuration with one virtual host matching
/// the service's hosts and a single catch-all route to its own cluster.
pub open spec fn spec_listener(s: ServiceView, filters: Seq<HttpFilterView>) -> ListenerView {
    ListenerView {
        name: "service "@ + dec_of(s.id as nat),
        address: SocketAddressView { address: "0.0.0.0"@, port: 80 },
        filter_chains: seq![
            FilterChainView {
                filters: seq![
                    NetworkFilterView {
                        name: "envoy.filters.network.http_connection_manager"@,
                        type_url: "type.googleapis.com/envoy.extensions.filters.network.http_connection_manager.v3.HttpConnectionManager"@,
                        hcm: HttpConnectionManagerView {
                            stat_prefix: "ingress_http"@,
                            http_filters: filters,
                            route_config: RouteConfigurationView {
                                name: "service_"@ + dec_of(s.id as nat) + "_route"@,
                                virtual_hosts: seq![
                                    VirtualHostView {
                                        name: "service_"@ + dec_of(s.id as nat) + "_vhost"@,
                                        domains: s.hosts,
                                        routes: seq![
                                            RouteView {
                                                prefix: "/"@,
                                                cluster: cluster_name_of(s.id),
                                            },
                                        ],
                                    },
                                ],
                            },
                        },
                    },
                ],
            },
        ],
    }
}

/// The ordered, keyed bundle of one successful export: the service's own
/// cluster first, then the identity provider's cluster if discovered, then
/// the billing backend's cluster if configured, then the listener.
pub open spec fn spec_bundle(
    s: ServiceView,
    oidc: Option<OidcDiscoveryView>,
    auth_wasm: Option<WasmFilterView>,
    asset: Seq<u8>,
) -> Seq<EnvoyExportView> {
    seq![
        EnvoyExportView {
            key: cluster_key_of(s.id),
            config: EnvoyResourceView::Cluster(
                ClusterView { name: cluster_name_of(s.id), target_address: s.target_domain },
            ),
        },
    ] + (match oidc {
        Some(d) => seq![
            EnvoyExportView { key: d.cluster.name, config: EnvoyResourceView::Cluster(d.cluster) },
        ],
        None => Seq::<EnvoyExportView>::empty(),
    }) + (match s.auth_config {
        Some(a) => seq![
            EnvoyExportView {
                key: a.wasm_config.backend.cluster_name,
                config: EnvoyResourceView::Cluster(
                    ClusterView {
                        name: a.wasm_config.backend.cluster_name,
                        target_address: a.wasm_config.backend.url,
                    },
                ),
            },
        ],
        None => Seq::<EnvoyExportView>::empty(),
    }) + seq![
        EnvoyExportView {
            key: listener_key_of(s.id),
            config: EnvoyResourceView::Listener(
                spec_listener(
                    s,
                    spec_http_filters(
                        (match oidc {
                            Some(d) => Some(d.jwt_config),
                            None => None,
                        }),
                        auth_wasm,
                        spec_metering_wasm(s, asset),
                    ),
                ),
            ),
        },
    ]
}

/// What the billing half of an export yields once the metering asset is in
/// hand: the billing plugin descriptor, or the failure that stops the
/// export.
pub open spec fn spec_export_billing(
    s: ServiceView,
    inp: ExportInputsView,
    oidc: Option<OidcDiscoveryView>,
    asset: Seq<u8>,
) -> Result<Seq<EnvoyExportView>, ExportErrorView> {
    match s.auth_config {
        None => Ok(spec_bundle(s, oidc, None, asset)),
        Some(a) => match inp.auth_asset {
            Some(Err(m)) => Err(
                ExportErrorView::BillingAdapterFailure { service_id: s.id, message: m },
            ),
            Some(Ok(aasset)) => if file_name_of(a.path).len() == 0 {
                Err(
                    ExportErrorView::BillingAdapterFailure {
                        service_id: s.id,
                        message: "failed to obtain file name of "@ + a.path,
                    },
                )
            } else {
                Ok(spec_bundle(s, oidc, Some(spec_auth_wasm(a, s.id, aasset)), asset))
            },
            None => Err(
                ExportErrorView::BillingAdapterFailure {
                    service_id: s.id,
                    message: Seq::<char>::empty(),
                },
            ),
        },
    }
}

/// The export of one service as a function of the service and its
/// outside-world inputs: the full keyed bundle, or the first failure in
/// adapter order — identity discovery, then the metering asset, then the
/// billing plugin.
pub open spec fn spec_export(s: ServiceView, inp: ExportInputsView) -> Result<
    Seq<EnvoyExportView>,
    ExportErrorView,
> {
    match (s.oidc_issuer, inp.oidc) {
        (Some(_), Some(Err(m))) => Err(
            ExportErrorView::IdentityAdapterFailure { service_id: s.id, message: m },
        ),
        (Some(_), Some(Ok(d))) => match inp.metering_asset {
            Err(m) => Err(ExportErrorView::AssetIntegrityFailure { service_id: s.id, message: m }),
            Ok(asset) => spec_export_billing(s, inp, Some(d), asset),
        },
        _ => match inp.metering_asset {
            Err(m) => Err(ExportErrorView::AssetIntegrityFailure { service_id: s.id, message: m }),
            Ok(asset) => spec_export_billing(s, inp, None, asset),
        },
    }
}

impl Service {
    /// The routing cluster of this service: its derived name, targeting
    /// `target_domain`.
    fn export_clusters(&self) -> (r: Cluster)
        ensures
            r@ == (ClusterView {
                name: cluster_name_of(self@.id),
                target_address: self@.target_domain,
            }),
    {
        let r = get_envoy_cluster(
            make_name("Cluster::service::", self.id, ""),
            self.target_domain.clone(),
        );
        proof {
            reveal_strlit("");
            assert(r@.name =~= cluster_name_of(self@.id));
        }
        r
    }

    /// Compiles this service into its keyed resource bundle. The identity
    /// discovery outcome and the plugin code assets arrive as plain values;
    /// any failure among them aborts the whole export with an error naming
    /// this service — there is no partial bundle.
    pub fn export(&self, inputs: ExportInputs) -> (r: Result<Vec<EnvoyExport>, ExportError>)
        requires
            (self.oidc_issuer is Some) <==> (inputs.oidc is Some),
            (self.auth_config is Some) <==> (inputs.auth_asset is Some),
        ensures
            (match r {
                Ok(v) => spec_export(self@, inputs@) == Ok::<
                    Seq<EnvoyExportView>,
                    ExportErrorView,
                >(v.deep_view()),
                Err(e) => spec_export(self@, inputs@) == Err::<
                    Seq<EnvoyExportView>,
                    ExportErrorView,
                >(e@),
            }),
    {
        let ghost iv = inputs@;
        let ExportInputs { oidc, metering_asset, auth_asset } = inputs;
        proof {
            reveal_strlit("");
        }
        let ghost oidcv: Option<OidcDiscoveryView> = (match iv.oidc {
            Some(Ok(d)) => Some(d),
            _ => None,
        });
        let mut result: Vec<EnvoyExport> = Vec::new();

        let cluster = self.export_clusters();
        result.push(
            EnvoyExport {
                key: make_name("service::id::", self.id, "::cluster"),
                config: EnvoyResource::Cluster(cluster),
            },
        );

        let jwt_bytes: Option<Vec<u8>> = match oidc {
            Some(Ok(d)) => {
                let ghost dv = d@;
                let key = d.cluster.name.clone();
                result.push(EnvoyExport { key, config: EnvoyResource::Cluster(d.cluster) });
                assert(result.deep_view()[1] =~~= (EnvoyExportView {
                    key: dv.cluster.name,
                    config: EnvoyResourceView::Cluster(dv.cluster),
                }));
                Some(d.jwt_config)
            },
            Some(Err(m)) => {
                return Err(
                    ExportError::IdentityAdapterFailure { service_id: self.id, message: m },
                );
            },
            None => None,
        };

        let asset: Vec<u8> = match metering_asset {
            Ok(b) => b,
            Err(m) => {
                return Err(ExportError::AssetIntegrityFailure { service_id: self.id, message: m });
            },
        };

        let auth_wasm: Option<WasmFilter> = match &self.auth_config {
            Some(a) => {
                result.push(
                    EnvoyExport {
                        key: a.wasm_config.backend.cluster_name.clone(),
                        config: EnvoyResource::Cluster(a.cluster()),
                    },
                );
                let ab: Vec<u8> = match auth_asset {
                    Some(Ok(b)) => b,
                    Some(Err(m)) => {
                        return Err(
                            ExportError::BillingAdapterFailure {
                                service_id: self.id,
                                message: m,
                            },
                        );
                    },
                    None => {
                        // excluded by the requires: an asset outcome
                        // accompanies every configured billing backend
                        assert(false);
                        Vec::new()
                    },
                };
                match a.build_wasm(self.id, &ab) {
                    Ok(w) => Some(w),
                    Err(m) => {
                        return Err(
                            ExportError::BillingAdapterFailure {
                                service_id: self.id,
                                message: m,
                            },
                        );
                    },
                }
            },
            None => None,
        };

        let ghost jwtv: Option<Seq<u8>> = jwt_bytes.deep_view();
        let ghost authv: Option<WasmFilterView> = (match &auth_wasm {
            Some(w) => Some(w@),
            None => None,
        });
        let listener = self.export_listener(jwt_bytes, auth_wasm, &asset);
        result.push(
            EnvoyExport {
                key: make_name("service::id::", self.id, "::listener"),
                config: EnvoyResource::Listener(listener),
            },
        );
        proof {
            assert(spec_export(self@, iv) == Ok::<Seq<EnvoyExportView>, ExportErrorView>(
                spec_bundle(self@, oidcv, authv, asset@),
            ));
            assert(result.deep_view() =~~= spec_bundle(self@, oidcv, authv, asset@));
        }
        Ok(result)
    }

    /// Assembles the listener for this service: the ordered HTTP filter
    /// chain — JWT filter if discovered, billing filter if configured, the
    /// bundled metering filter, and the terminal router — inside one HTTP
    /// connection manager, with the domain-based virtual host and the
    /// catch-all route to the service's own cluster.
    fn export_listener(
        &self,
        jwt_bytes: Option<Vec<u8>>,
        auth_wasm: Option<WasmFilter>,
        asset: &Vec<u8>,
    ) -> (r: Listener)
        ensures
            r@ == spec_listener(
                self@,
                spec_http_filters(
                    jwt_bytes.deep_view(),
                    (match auth_wasm {
                        Some(w) => Some(w@),
                        None => None,
                    }),
                    spec_metering_wasm(self@, asset@),
                ),
            ),
    {
        proof {
            reveal_strlit("");
        }
        let ghost jwtv: Option<Seq<u8>> = jwt_bytes.deep_view();
        let ghost authv: Option<WasmFilterView> = (match &auth_wasm {
            Some(w) => Some(w@),
            None => None,
        });
        let mut http_filters: Vec<HttpFilter> = Vec::new();
        match jwt_bytes {
            Some(b) => {
                http_filters.push(
                    HttpFilter {
                        name: String::from_str("envoy.filters.http.jwt_authn"),
                        type_url: String::from_str(
                            "type.googleapis.com/envoy.extensions.filters.http.jwt_authn.v3.JwtAuthentication",
                        ),
                        payload: HttpFilterPayload::Jwt(b),
                    },
                );
            },
            None => {},
        }
        match auth_wasm {
            Some(w) => {
                http_filters.push(
                    HttpFilter {
                        name: String::from_str("envoy.filters.http.wasm"),
                        type_url: String::from_str(
                            "type.googleapis.com/envoy.extensions.filters.http.wasm.v3.Wasm",
                        ),
                        payload: HttpFilterPayload::Wasm(w),
                    },
                );
            },
            None => {},
        }
        let metering = WasmFilter {
            config: PluginConfig {
                name: vm_name(self.id),
                root_id: vm_name(self.id),
                vm: VmConfig {
                    vm_id: vm_name(self.id),
                    runtime: String::from_str("envoy.wasm.runtime.v8"),
                    configuration: TextConfig {
                        type_url: String::from_str(
                            "type.googleapis.com/google.protobuf.StringValue",
                        ),
                        text: self.config_json(),
                    },
                    code: RemoteSource {
                        uri: String::from_str("http://control-plane-main:5001/static/filter.wasm"),
                        timeout: ProtoDuration { seconds: 100, nanos: 0 },
                        upstream_cluster: String::from_str("wasm_files"),
                        sha256: sha_hex(&asset),
                    },
                },
                configuration: None,
            },
        };
        assert(metering@ =~~= spec_metering_wasm(self@, asset@));
        http_filters.push(
            HttpFilter {
                name: String::from_str("envoy.filters.http.wasm"),
                type_url: String::from_str(
                    "type.googleapis.com/envoy.extensions.filters.http.wasm.v3.Wasm",
                ),
                payload: HttpFilterPayload::Wasm(metering),
            },
        );
        http_filters.push(
            HttpFilter {
                name: String::from_str("envoy.filters.http.router"),
                type_url: String::from_str(
                    "type.googleapis.com/envoy.extensions.filters.http.router.v3.Router",
                ),
                payload: HttpFilterPayload::Router,
            },
        );
        let ghost filtersv = http_filters.deep_view();
        assert(filtersv =~~= spec_http_filters(jwtv, authv, spec_metering_wasm(self@, asset@)));

        let mut routes: Vec<Route> = Vec::new();
        routes.push(
            Route {
                prefix: String::from_str("/"),
                cluster: make_name("Cluster::service::", self.id, ""),
            },
        );
        let mut vhosts: Vec<VirtualHost> = Vec::new();
        vhosts.push(
            VirtualHost {
                name: make_name("service_", self.id, "_vhost"),
                domains: clone_string_vec(&self.hosts),
                routes,
            },
        );
        let hcm = HttpConnectionManager {
            stat_prefix: String::from_str("ingress_http"),
            http_filters,
            route_config: RouteConfiguration {
                name: make_name("service_", self.id, "_route"),
                virtual_hosts: vhosts,
            },
        };
        let mut net_filters: Vec<NetworkFilter> = Vec::new();
        net_filters.push(
            NetworkFilter {
                name: String::from_str("envoy.filters.network.http_connection_manager"),
                type_url: String::from_str(
                    "type.googleapis.com/envoy.extensions.filters.network.http_connection_manager.v3.HttpConnectionManager",
                ),
                hcm,
            },
        );
        let mut chains: Vec<FilterChain> = Vec::new();
        chains.push(FilterChain { filters: net_filters });
        let listener = Listener {
            name: make_name("service ", self.id, ""),
            address: SocketAddress { address: String::from_str("0.0.0.0"), port: 80 },
            filter_chains: chains,
        };
        assert(listener@ =~~= spec_listener(self@, filtersv));
        listener
    }

    /// The lowercase hexadecimal SHA-256 digest of the metering plugin
    /// asset's bytes: the content hash the data plane verifies before
    /// activating fetched code.
    pub fn get_wasm_filter_sha(bytes: &Vec<u8>) -> (r: String)
        ensures
            r@ == sha_hex_of(bytes@),
    {
        sha_hex(bytes)
    }
}

/// A service with neither identity nor billing configured exports exactly
/// two entries — its cluster and its listener, under their reserved keys —
/// and the listener's filter chain ends with the terminal router filter.
pub proof fn lemma_bundle_minimal(s: ServiceView, inp: ExportInputsView)
    requires
        s.oidc_issuer is None,
        s.auth_config is None,
        inp.oidc is None,
        inp.auth_asset is None,
        inp.metering_asset is Ok,
    ensures
        spec_export(s, inp) is Ok,
        ({
            let b = spec_export(s, inp)->Ok_0;
            &&& b.len() == 2
            &&& b[0].key == cluster_key_of(s.id)
            &&& b[1].key == listener_key_of(s.id)
            &&& b[1].config is Listener
            &&& ({
                let fs = b[1].config->Listener_0.filter_chains[0].filters[0].hcm.http_filters;
                fs.len() == 2 && fs.last() == router_filter_view()
            })
        }),
{
    let asset = inp.metering_asset->Ok_0;
    let b = spec_bundle(s, None, None, asset);
    assert(spec_export(s, inp) == Ok::<Seq<EnvoyExportView>, ExportErrorView>(b));
    assert(b.len() == 2);
    assert(b[1].config is Listener);
    let fs = b[1].config->Listener_0.filter_chains[0].filters[0].hcm.http_filters;
    assert(fs =~= spec_http_filters(None, None, spec_metering_wasm(s, asset)));
    assert(fs.len() == 2);
    assert(fs.last() == router_filter_view());
}

/// A service with both identity and billing configured exports exactly
/// four entries — its cluster, the identity provider's cluster, the
/// billing backend's cluster, and its listener — and the HTTP filter order
/// is: JWT filter, billing filter, metering filter, router. The router is
/// always last.
pub proof fn lemma_bundle_full(
    s: ServiceView,
    inp: ExportInputsView,
    d: OidcDiscoveryView,
    aasset: Seq<u8>,
)
    requires
        s.oidc_issuer is Some,
        s.auth_config is Some,
        inp.oidc == Some(Ok::<OidcDiscoveryView, Seq<char>>(d)),
        inp.auth_asset == Some(Ok::<Seq<u8>, Seq<char>>(aasset)),
        inp.metering_asset is Ok,
        file_name_of(s.auth_config->0.path).len() > 0,
    ensures
        spec_export(s, inp) is Ok,
        ({
            let b = spec_export(s, inp)->Ok_0;
            &&& b.len() == 4
            &&& b[0].key == cluster_key_of(s.id)
            &&& b[1].key == d.cluster.name
            &&& b[2].key == s.auth_config->0.wasm_config.backend.cluster_name
            &&& b[3].key == listener_key_of(s.id)
            &&& b[3].config is Listener
            &&& ({
                let fs = b[3].config->Listener_0.filter_chains[0].filters[0].hcm.http_filters;
                &&& fs.len() == 4
                &&& fs[0] == jwt_filter_view(d.jwt_config)
                &&& fs[1] == wasm_filter_entry(
                    spec_auth_wasm(s.auth_config->0, s.id, aasset),
                )
                &&& fs[2] == wasm_filter_entry(
                    spec_metering_wasm(s, inp.metering_asset->Ok_0),
                )
                &&& fs.last() == router_filter_view()
            })
        }),
{
    let asset = inp.metering_asset->Ok_0;
    let a = s.auth_config->0;
    let b = spec_bundle(s, Some(d), Some(spec_auth_wasm(a, s.id, aasset)), asset);
    assert(spec_export(s, inp) == Ok::<Seq<EnvoyExportView>, ExportErrorView>(b));
    assert(b.len() == 4);
    assert(b[3].config is Listener);
    let fs = b[3].config->Listener_0.filter_chains[0].filters[0].hcm.http_filters;
    assert(fs =~= spec_http_filters(
        Some(d.jwt_config),
        Some(spec_auth_wasm(a, s.id, aasset)),
        spec_metering_wasm(s, asset),
    ));
    assert(fs.len() == 4);
    assert(fs.last() == router_filter_view());
}

/// Exporting is a function of the service and its inputs: the same service
/// compiled twice over the same inputs yields the identical bundle, keys
/// and embedded payloads alike. `export` promises exactly
/// `spec_export(self@, inputs@)`, so two runs cannot differ.
pub proof fn lemma_export_deterministic(
    s1: ServiceView,
    inp1: ExportInputsView,
    s2: ServiceView,
    inp2: ExportInputsView,
)
    requires
        s1 == s2,
        inp1 == inp2,
    ensures
        spec_export(s1, inp1) == spec_export(s2, inp2),
{
}

/// The content hash embedded in the metering plugin descriptor is the
/// lowercase hexadecimal SHA-256 of the served asset's bytes — exactly the
/// value `Service::get_wasm_filter_sha` recomputes from those bytes.
pub proof fn lemma_metering_hash_integrity(s: ServiceView, inp: ExportInputsView, asset: Seq<u8>)
    requires
        inp.metering_asset == Ok::<Seq<u8>, Seq<char>>(asset),
        spec_export(s, inp) is Ok,
    ensures
        ({
            let b = spec_export(s, inp)->Ok_0;
            let fs = b.last().config->Listener_0.filter_chains[0].filters[0].hcm.http_filters;
            fs[fs.len() - 2].payload->Wasm_0.config.vm.code.sha256 == sha_hex_of(asset)
        }),
{
    let b = spec_export(s, inp)->Ok_0;
    match (s.oidc_issuer, inp.oidc) {
        (Some(_), Some(Ok(d))) => {
            assert(b == spec_export_billing(s, inp, Some(d), asset)->Ok_0);
            lemma_billing_bundle_hash(s, inp, Some(d), asset);
        },
        (Some(_), Some(Err(m))) => {
            assert(false);
        },
        _ => {
            assert(b == spec_export_billing(s, inp, None, asset)->Ok_0);
            lemma_billing_bundle_hash(s, inp, None, asset);
        },
    }
}

proof fn lemma_billing_bundle_hash(
    s: ServiceView,
    inp: ExportInputsView,
    oidc: Option<OidcDiscoveryView>,
    asset: Seq<u8>,
)
    requires
        spec_export_billing(s, inp, oidc, asset) is Ok,
    ensures
        ({
            let b = spec_export_billing(s, inp, oidc, asset)->Ok_0;
            let fs = b.last().config->Listener_0.filter_chains[0].filters[0].hcm.http_filters;
            fs[fs.len() - 2].payload->Wasm_0.config.vm.code.sha256 == sha_hex_of(asset)
        }),
{
    let b = spec_export_billing(s, inp, oidc, asset)->Ok_0;
    let jwt: Option<Seq<u8>> = (match oidc {
        Some(d) => Some(d.jwt_config),
        None => None,
    });
    match s.auth_config {
        None => {
            assert(b == spec_bundle(s, oidc, None, asset));
            let fs = b.last().config->Listener_0.filter_chains[0].filters[0].hcm.http_filters;
            assert(fs =~= spec_http_filters(jwt, None, spec_metering_wasm(s, asset)));
            assert(fs[fs.len() - 2] == wasm_filter_entry(spec_metering_wasm(s, asset)));
        },
        Some(a) => {
            let aw = spec_auth_wasm(a, s.id, inp.auth_asset->0->Ok_0);
            assert(b == spec_bundle(s, oidc, Some(aw), asset));
            let fs = b.last().config->Listener_0.filter_chains[0].filters[0].hcm.http_filters;
            assert(fs =~= spec_http_filters(jwt, Some(aw), spec_metering_wasm(s, asset)));
            assert(fs[fs.len() - 2] == wasm_filter_entry(spec_metering_wasm(s, asset)));
        },
    }
}

} // verus!
