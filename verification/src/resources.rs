//! The proxy resource model: the typed configuration tree the export engine
//! assembles for one service. Encoding these resources to their protobuf
//! wire form is the distribution layer's concern; the engine's own invariants
//! (resource keys, filter-chain order, embedded hashes) are all visible here
//! as plain values.

use vstd::prelude::*;

verus! {

/// A protobuf-style duration, in whole seconds and nanoseconds.
#[derive(Clone, Copy, PartialEq, Eq, Structural, Debug)]
pub struct ProtoDuration {
    pub seconds: i64,
    pub nanos: i32,
}

/// A type-tagged text payload (a wrapped `google.protobuf.StringValue`).
#[derive(Clone, Debug)]
pub struct TextConfig {
    pub type_url: String,
    pub text: String,
}

#[verifier::ext_equal]
pub struct TextConfigView {
    pub type_url: Seq<char>,
    pub text: Seq<char>,
}

impl View for TextConfig {
    type V = TextConfigView;

    open spec fn view(&self) -> TextConfigView {
        TextConfigView { type_url: self.type_url@, text: self.text@ }
    }
}

impl DeepView for TextConfig {
    type V = TextConfigView;

    open spec fn deep_view(&self) -> TextConfigView {
        self.view()
    }
}

/// Where the data plane fetches remote plugin code, how long it may take,
/// and the content hash it must verify before activating the code.
#[derive(Clone, Debug)]
pub struct RemoteSource {
    pub uri: String,
    pub timeout: ProtoDuration,
    pub upstream_cluster: String,
    pub sha256: String,
}

#[verifier::ext_equal]
pub struct RemoteSourceView {
    pub uri: Seq<char>,
    pub timeout: ProtoDuration,
    pub upstream_cluster: Seq<char>,
    pub sha256: Seq<char>,
}

impl View for RemoteSource {
    type V = RemoteSourceView;

    open spec fn view(&self) -> RemoteSourceView {
        RemoteSourceView {
            uri: self.uri@,
            timeout: self.timeout,
            upstream_cluster: self.upstream_cluster@,
            sha256: self.sha256@,
        }
    }
}

/// The virtual machine a sandboxed plugin runs in.
#[derive(Clone, Debug)]
pub struct VmConfig {
    pub vm_id: String,
    pub runtime: String,
    pub configuration: TextConfig,
    pub code: RemoteSource,
}

#[verifier::ext_equal]
pub struct VmConfigView {
    pub vm_id: Seq<char>,
    pub runtime: Seq<char>,
    pub configuration: TextConfigView,
    pub code: RemoteSourceView,
}

impl View for VmConfig {
    type V = VmConfigView;

    open spec fn view(&self) -> VmConfigView {
        VmConfigView {
            vm_id: self.vm_id@,
            runtime: self.runtime@,
            configuration: self.configuration@,
            code: self.code@,
        }
    }
}

/// A loadable plugin: its VM plus an optional plugin-level configuration.
#[derive(Clone, Debug)]
pub struct PluginConfig {
    pub name: String,
    pub root_id: String,
    pub vm: VmConfig,
    pub configuration: Option<TextConfig>,
}

#[verifier::ext_equal]
pub struct PluginConfigView {
    pub name: Seq<char>,
    pub root_id: Seq<char>,
    pub vm: VmConfigView,
    pub configuration: Option<TextConfigView>,
}

impl View for PluginConfig {
    type V = PluginConfigView;

    open spec fn view(&self) -> PluginConfigView {
        PluginConfigView {
            name: self.name@,
            root_id: self.root_id@,
            vm: self.vm@,
            configuration: self.configuration.deep_view(),
        }
    }
}

/// A WASM HTTP filter descriptor.
#[derive(Clone, Debug)]
pub struct WasmFilter {
    pub config: PluginConfig,
}

#[verifier::ext_equal]
pub struct WasmFilterView {
    pub config: PluginConfigView,
}

impl View for WasmFilter {
    type V = WasmFilterView;

    open spec fn view(&self) -> WasmFilterView {
        WasmFilterView { config: self.config@ }
    }
}

/// The typed payload of one HTTP filter entry. A JWT-authentication payload
/// arrives already encoded from the identity discovery adapter; the two WASM
/// payloads and the router payload are built here.
#[derive(Clone, Debug)]
pub enum HttpFilterPayload {
    Jwt(Vec<u8>),
    Wasm(WasmFilter),
    Router,
}

#[verifier::ext_equal]
pub enum HttpFilterPayloadView {
    Jwt(Seq<u8>),
    Wasm(WasmFilterView),
    Router,
}

impl View for HttpFilterPayload {
    type V = HttpFilterPayloadView;

    open spec fn view(&self) -> HttpFilterPayloadView {
        match self {
            HttpFilterPayload::Jwt(b) => HttpFilterPayloadView::Jwt(b@),
            HttpFilterPayload::Wasm(w) => HttpFilterPayloadView::Wasm(w@),
            HttpFilterPayload::Router => HttpFilterPayloadView::Router,
        }
    }
}

/// One entry of a listener's HTTP filter chain: name, type identifier and
/// typed payload.
#[derive(Clone, Debug)]
pub struct HttpFilter {
    pub name: String,
    pub type_url: String,
    pub payload: HttpFilterPayload,
}

#[verifier::ext_equal]
pub struct HttpFilterView {
    pub name: Seq<char>,
    pub type_url: Seq<char>,
    pub payload: HttpFilterPayloadView,
}

impl View for HttpFilter {
    type V = HttpFilterView;

    open spec fn view(&self) -> HttpFilterView {
        HttpFilterView { name: self.name@, type_url: self.type_url@, payload: self.payload@ }
    }
}

impl DeepView for HttpFilter {
    type V = HttpFilterView;

    open spec fn deep_view(&self) -> HttpFilterView {
        self.view()
    }
}

/// One route: a path-prefix match sent to a named cluster.
#[derive(Clone, Debug)]
pub struct Route {
    pub prefix: String,
    pub cluster: String,
}

#[verifier::ext_equal]
pub struct RouteView {
    pub prefix: Seq<char>,
    pub cluster: Seq<char>,
}

impl View for Route {
    type V = RouteView;

    open spec fn view(&self) -> RouteView {
        RouteView { prefix: self.prefix@, cluster: self.cluster@ }
    }
}

impl DeepView for Route {
    type V = RouteView;

    open spec fn deep_view(&self) -> RouteView {
        self.view()
    }
}

/// A virtual host: the domains it matches and its routes.
#[derive(Clone, Debug)]
pub struct VirtualHost {
    pub name: String,
    pub domains: Vec<String>,
    pub routes: Vec<Route>,
}

#[verifier::ext_equal]
pub struct VirtualHostView {
    pub name: Seq<char>,
    pub domains: Seq<Seq<char>>,
    pub routes: Seq<RouteView>,
}

impl View for VirtualHost {
    type V = VirtualHostView;

    open spec fn view(&self) -> VirtualHostView {
        VirtualHostView {
            name: self.name@,
            domains: self.domains.deep_view(),
            routes: self.routes.deep_view(),
        }
    }
}

impl DeepView for VirtualHost {
    type V = VirtualHostView;

    open spec fn deep_view(&self) -> VirtualHostView {
        self.view()
    }
}

/// A named route configuration.
#[derive(Clone, Debug)]
pub struct RouteConfiguration {
    pub name: String,
    pub virtual_hosts: Vec<VirtualHost>,
}

#[verifier::ext_equal]
pub struct RouteConfigurationView {
    pub name: Seq<char>,
    pub virtual_hosts: Seq<VirtualHostView>,
}

impl View for RouteConfiguration {
    type V = RouteConfigurationView;

    open spec fn view(&self) -> RouteConfigurationView {
        RouteConfigurationView { name: self.name@, virtual_hosts: self.virtual_hosts.deep_view() }
    }
}

/// The HTTP connection manager: stat prefix, ordered HTTP filters, and the
/// route configuration.
#[derive(Clone, Debug)]
pub struct HttpConnectionManager {
    pub stat_prefix: String,
    pub http_filters: Vec<HttpFilter>,
    pub route_config: RouteConfiguration,
}

#[verifier::ext_equal]
pub struct HttpConnectionManagerView {
    pub stat_prefix: Seq<char>,
    pub http_filters: Seq<HttpFilterView>,
    pub route_config: RouteConfigurationView,
}

impl View for HttpConnectionManager {
    type V = HttpConnectionManagerView;

    open spec fn view(&self) -> HttpConnectionManagerView {
        HttpConnectionManagerView {
            stat_prefix: self.stat_prefix@,
            http_filters: self.http_filters.deep_view(),
            route_config: self.route_config@,
        }
    }
}

/// One network filter of a listener: here always the HTTP connection
/// manager, wrapped with its type identifier.
#[derive(Clone, Debug)]
pub struct NetworkFilter {
    pub name: String,
    pub type_url: String,
    pub hcm: HttpConnectionManager,
}

#[verifier::ext_equal]
pub struct NetworkFilterView {
    pub name: Seq<char>,
    pub type_url: Seq<char>,
    pub hcm: HttpConnectionManagerView,
}

impl View for NetworkFilter {
    type V = NetworkFilterView;

    open spec fn view(&self) -> NetworkFilterView {
        NetworkFilterView { name: self.name@, type_url: self.type_url@, hcm: self.hcm@ }
    }
}

impl DeepView for NetworkFilter {
    type V = NetworkFilterView;

    open spec fn deep_view(&self) -> NetworkFilterView {
        self.view()
    }
}

/// A listener's filter chain.
#[derive(Clone, Debug)]
pub struct FilterChain {
    pub filters: Vec<NetworkFilter>,
}

#[verifier::ext_equal]
pub struct FilterChainView {
    pub filters: Seq<NetworkFilterView>,
}

impl View for FilterChain {
    type V = FilterChainView;

    open spec fn view(&self) -> FilterChainView {
        FilterChainView { filters: self.filters.deep_view() }
    }
}

impl DeepView for FilterChain {
    type V = FilterChainView;

    open spec fn deep_view(&self) -> FilterChainView {
        self.view()
    }
}

/// A bindable socket address.
#[derive(Clone, Debug)]
pub struct SocketAddress {
    pub address: String,
    pub port: u32,
}

#[verifier::ext_equal]
pub struct SocketAddressView {
    pub address: Seq<char>,
    pub port: u32,
}

impl View for SocketAddress {
    type V = SocketAddressView;

    open spec fn view(&self) -> SocketAddressView {
        SocketAddressView { address: self.address@, port: self.port }
    }
}

/// A proxy-side network entry point.
#[derive(Clone, Debug)]
pub struct Listener {
    pub name: String,
    pub address: SocketAddress,
    pub filter_chains: Vec<FilterChain>,
}

#[verifier::ext_equal]
pub struct ListenerView {
    pub name: Seq<char>,
    pub address: SocketAddressView,
    pub filter_chains: Seq<FilterChainView>,
}

impl View for Listener {
    type V = ListenerView;

    open spec fn view(&self) -> ListenerView {
        ListenerView {
            name: self.name@,
            address: self.address@,
            filter_chains: self.filter_chains.deep_view(),
        }
    }
}

/// A named upstream target.
#[derive(Clone, Debug)]
pub struct Cluster {
    pub name: String,
    pub target_address: String,
}

#[verifier::ext_equal]
pub struct ClusterView {
    pub name: Seq<char>,
    pub target_address: Seq<char>,
}

impl View for Cluster {
    type V = ClusterView;

    open spec fn view(&self) -> ClusterView {
        ClusterView { name: self.name@, target_address: self.target_address@ }
    }
}

/// One compiled proxy resource.
#[derive(Clone, Debug)]
pub enum EnvoyResource {
    Cluster(Cluster),
    Listener(Listener),
}

#[verifier::ext_equal]
pub enum EnvoyResourceView {
    Cluster(ClusterView),
    Listener(ListenerView),
}

impl View for EnvoyResource {
    type V = EnvoyResourceView;

    open spec fn view(&self) -> EnvoyResourceView {
        match self {
            EnvoyResource::Cluster(c) => EnvoyResourceView::Cluster(c@),
            EnvoyResource::Listener(l) => EnvoyResourceView::Listener(l@),
        }
    }
}

/// One keyed entry of the compiled bundle. The key is globally unique within
/// a deployment; the distribution layer deduplicates resources by it.
#[derive(Clone, Debug)]
pub struct EnvoyExport {
    pub key: String,
    pub config: EnvoyResource,
}

#[verifier::ext_equal]
pub struct EnvoyExportView {
    pub key: Seq<char>,
    pub config: EnvoyResourceView,
}

impl View for EnvoyExport {
    type V = EnvoyExportView;

    open spec fn view(&self) -> EnvoyExportView {
        EnvoyExportView { key: self.key@, config: self.config@ }
    }
}

impl DeepView for EnvoyExport {
    type V = EnvoyExportView;

    open spec fn deep_view(&self) -> EnvoyExportView {
        self.view()
    }
}

/// Builds a generic upstream-cluster resource from a name and a target
/// address.
pub fn get_envoy_cluster(name: String, target_address: String) -> (r: Cluster)
    ensures
        r@.name == name@,
        r@.target_address == target_address@,
{
    Cluster { name, target_address }
}

} // verus!
