//! The billing/auth backend configuration: the backend's upstream cluster
//! and the in-proxy auth/metering plugin descriptor built from it. The
//! plugin-level configuration embeds the backend configuration in the same
//! compact JSON wire form the rest of the system uses; free-form members are
//! carried as raw, already-rendered JSON text and spliced in unchanged.

use vstd::prelude::*;
use crate::digest::{sha_hex, sha_hex_of};
use crate::json::{json_str_of, push_json_str};
use crate::resources::{
    Cluster, ClusterView, PluginConfigView, ProtoDuration, RemoteSourceView, TextConfig,
    TextConfigView, VmConfigView, WasmFilter, WasmFilterView, get_envoy_cluster, PluginConfig,
    RemoteSource, VmConfig,
};
use crate::text::{chars_of_str, chars_to_string, dec_of, push_dec_u32, push_str_chars};

verus! {

/// A billing/auth backend: its cluster name, its URL, and any further
/// free-form members, each carried as raw JSON text.
#[derive(Clone, Debug)]
pub struct Backend {
    pub cluster_name: String,
    pub url: String,
    pub other: Vec<(String, String)>,
}

#[verifier::ext_equal]
pub struct BackendView {
    pub cluster_name: Seq<char>,
    pub url: Seq<char>,
    pub other: Seq<(Seq<char>, Seq<char>)>,
}

impl View for Backend {
    type V = BackendView;

    open spec fn view(&self) -> BackendView {
        BackendView {
            cluster_name: self.cluster_name@,
            url: self.url@,
            other: self.other.deep_view(),
        }
    }
}

/// The plugin-level configuration handed to the backend's WASM filter: the
/// backend itself plus further free-form members.
#[derive(Clone, Debug)]
pub struct WasmConfig {
    pub backend: Backend,
    pub other: Vec<(String, String)>,
}

#[verifier::ext_equal]
pub struct WasmConfigView {
    pub backend: BackendView,
    pub other: Seq<(Seq<char>, Seq<char>)>,
}

impl View for WasmConfig {
    type V = WasmConfigView;

    open spec fn view(&self) -> WasmConfigView {
        WasmConfigView { backend: self.backend@, other: self.other.deep_view() }
    }
}

/// The billing/auth capability of one service: where its WASM filter code
/// lives and the configuration handed to it.
#[derive(Clone, Debug)]
pub struct ThreescaleAuth {
    pub path: String,
    pub wasm_config: WasmConfig,
}

#[verifier::ext_equal]
pub struct ThreescaleAuthView {
    pub path: Seq<char>,
    pub wasm_config: WasmConfigView,
}

impl View for ThreescaleAuth {
    type V = ThreescaleAuthView;

    open spec fn view(&self) -> ThreescaleAuthView {
        ThreescaleAuthView { path: self.path@, wasm_config: self.wasm_config@ }
    }
}

/// Further members of a JSON object: a leading comma, the quoted key, and
/// the raw value text, for each pair in order.
pub open spec fn raw_members(other: Seq<(Seq<char>, Seq<char>)>) -> Seq<char>
    decreases other.len(),
{
    if other.len() == 0 {
        Seq::<char>::empty()
    } else {
        seq![','] + json_str_of(other[0].0) + seq![':'] + other[0].1 + raw_members(
            other.drop_first(),
        )
    }
}

/// The JSON rendering of a backend.
pub open spec fn json_of_backend(b: BackendView) -> Seq<char> {
    "{\"cluster_name\":"@ + json_str_of(b.cluster_name) + ",\"url\":"@ + json_str_of(b.url)
        + raw_members(b.other) + "}"@
}

/// The JSON rendering of a backend's plugin-level configuration.
pub open spec fn json_of_wasm_config(w: WasmConfigView) -> Seq<char> {
    "{\"backend\":"@ + json_of_backend(w.backend) + raw_members(w.other) + "}"@
}

/// Everything after the last `/` of a path; empty when the path is empty or
/// ends with a `/`.
pub open spec fn file_name_of(p: Seq<char>) -> Seq<char>
    decreases p.len(),
{
    if p.len() == 0 {
        p
    } else if p[p.len() - 1] == '/' {
        Seq::<char>::empty()
    } else {
        file_name_of(p.drop_last()).push(p[p.len() - 1])
    }
}

proof fn lemma_file_name_suffix(p: Seq<char>, k: int)
    requires
        0 <= k <= p.len(),
        forall|m: int| k <= m < p.len() ==> p[m] != '/',
        k == 0 || p[k - 1] == '/',
    ensures
        file_name_of(p) == p.subrange(k, p.len() as int),
    decreases p.len(),
{
    if p.len() == k {
        if k == 0 {
        } else {
            assert(p[p.len() - 1] == '/');
        }
        assert(file_name_of(p) =~= p.subrange(k, p.len() as int));
    } else {
        assert(p[p.len() - 1] != '/');
        lemma_file_name_suffix(p.drop_last(), k);
        assert(file_name_of(p) =~= p.subrange(k, p.len() as int));
    }
}

fn file_name_x(p: &Vec<char>) -> (r: Vec<char>)
    ensures
        r@ == file_name_of(p@),
{
    let mut k: usize = p.len();
    while k > 0 && p[k - 1] != '/'
        invariant
            k <= p@.len(),
            forall|m: int| k <= m < p@.len() ==> p@[m] != '/',
        decreases k,
    {
        k = k - 1;
    }
    let mut out: Vec<char> = Vec::new();
    let mut j: usize = k;
    while j < p.len()
        invariant
            k <= j <= p@.len(),
            out@ == p@.subrange(k as int, j as int),
        decreases p@.len() - j,
    {
        out.push(p[j]);
        assert(out@ =~= p@.subrange(k as int, j as int + 1));
        j = j + 1;
    }
    proof {
        lemma_file_name_suffix(p@, k as int);
    }
    out
}

/// Appends the further free-form members to `out`.
fn push_raw_members(out: &mut Vec<char>, other: &Vec<(String, String)>)
    ensures
        final(out)@ == old(out)@ + raw_members(other.deep_view()),
{
    let ghost all = other.deep_view();
    let mut i: usize = 0;
    assert(all.subrange(0, all.len() as int) =~= all);
    while i < other.len()
        invariant
            all == other.deep_view(),
            all.len() == other@.len(),
            i <= other@.len(),
            out@ + raw_members(all.subrange(i as int, all.len() as int)) == old(out)@
                + raw_members(all),
        decreases other@.len() - i,
    {
        proof {
            assert(all[i as int] == other@[i as int].deep_view());
            assert(all.subrange(i as int, all.len() as int).drop_first() =~= all.subrange(
                i as int + 1,
                all.len() as int,
            ));
        }
        out.push(',');
        push_json_str(out, other[i].0.as_str());
        out.push(':');
        push_str_chars(out, other[i].1.as_str());
        i = i + 1;
        assert(out@ + raw_members(all.subrange(i as int, all.len() as int)) =~= old(out)@
            + raw_members(all));
    }
    assert(final(out)@ =~= old(out)@ + raw_members(all));
}

/// Appends the JSON rendering of a backend to `out`.
fn push_backend_json(out: &mut Vec<char>, b: &Backend)
    ensures
        final(out)@ == old(out)@ + json_of_backend(b@),
{
    push_str_chars(out, "{\"cluster_name\":");
    push_json_str(out, b.cluster_name.as_str());
    push_str_chars(out, ",\"url\":");
    push_json_str(out, b.url.as_str());
    push_raw_members(out, &b.other);
    push_str_chars(out, "}");
    assert(final(out)@ =~= old(out)@ + json_of_backend(b@));
}

/// Appends the JSON rendering of a plugin-level configuration to `out`.
pub(crate) fn push_wasm_config_json(out: &mut Vec<char>, w: &WasmConfig)
    ensures
        final(out)@ == old(out)@ + json_of_wasm_config(w@),
{
    push_str_chars(out, "{\"backend\":");
    push_backend_json(out, &w.backend);
    push_raw_members(out, &w.other);
    push_str_chars(out, "}");
    assert(final(out)@ =~= old(out)@ + json_of_wasm_config(w@));
}

/// The name shared by a service's plugin, its root context and its VM.
pub open spec fn vm_name_of(id: u32) -> Seq<char> {
    "Service::"@ + dec_of(id as nat)
}

/// A WASM filter descriptor for one service: named after the service,
/// fetching its code from the static asset route under the file name taken
/// from `path`, verified against the SHA-256 of `asset`, and carrying `cfg`
/// as its plugin-level configuration.
pub open spec fn spec_wasm_filter(
    path: Seq<char>,
    cfg: Seq<char>,
    id: u32,
    asset: Seq<u8>,
) -> WasmFilterView {
    WasmFilterView {
        config: PluginConfigView {
            name: vm_name_of(id),
            root_id: vm_name_of(id),
            vm: VmConfigView {
                vm_id: vm_name_of(id),
                runtime: "envoy.wasm.runtime.v8"@,
                configuration: TextConfigView {
                    type_url: "type.googleapis.com/google.protobuf.StringValue"@,
                    text: "vm config"@,
                },
                code: RemoteSourceView {
                    uri: "http://control-plane-main:5001/static/"@ + file_name_of(path),
                    timeout: ProtoDuration { seconds: 100, nanos: 0 },
                    upstream_cluster: "wasm_files"@,
                    sha256: sha_hex_of(asset),
                },
            },
            configuration: Some(
                TextConfigView {
                    type_url: "type.googleapis.com/google.protobuf.StringValue"@,
                    text: cfg,
                },
            ),
        },
    }
}

/// The billing/auth plugin descriptor of one service: its backend
/// configuration rendered as JSON and embedded as the plugin-level
/// configuration.
pub open spec fn spec_auth_wasm(a: ThreescaleAuthView, id: u32, asset: Seq<u8>) -> WasmFilterView {
    spec_wasm_filter(a.path, json_of_wasm_config(a.wasm_config), id, asset)
}

/// Builds the string `Service::<id>`.
pub fn vm_name(id: u32) -> (r: String)
    ensures
        r@ == vm_name_of(id),
{
    let mut out: Vec<char> = Vec::new();
    push_str_chars(&mut out, "Service::");
    push_dec_u32(&mut out, id);
    chars_to_string(&out)
}

impl Backend {
    /// The backend's upstream cluster: its configured name, targeting its
    /// URL.
    pub fn cluster(&self) -> (r: Cluster)
        ensures
            r@ == (ClusterView { name: self@.cluster_name, target_address: self@.url }),
    {
        get_envoy_cluster(self.cluster_name.clone(), self.url.clone())
    }
}

impl ThreescaleAuth {
    /// The upstream cluster needed to reach the configured backend.
    pub fn cluster(&self) -> (r: Cluster)
        ensures
            r@ == (ClusterView {
                name: self@.wasm_config.backend.cluster_name,
                target_address: self@.wasm_config.backend.url,
            }),
    {
        self.wasm_config.backend.cluster()
    }

    /// Builds the billing/auth WASM filter descriptor for the service with
    /// the given id, from the bytes of the plugin code asset at `path`.
    /// Fails exactly when no file name can be taken from `path`, with a
    /// message naming the path.
    pub fn build_wasm(&self, id: u32, asset: &Vec<u8>) -> (r: Result<WasmFilter, String>)
        ensures
            (match r {
                Ok(w) => file_name_of(self@.path).len() > 0 && w@ == spec_auth_wasm(
                    self@,
                    id,
                    asset@,
                ),
                Err(m) => file_name_of(self@.path).len() == 0 && m@
                    == "failed to obtain file name of "@ + self@.path,
            }),
    {
        let mut cfg: Vec<char> = Vec::new();
        push_wasm_config_json(&mut cfg, &self.wasm_config);
        get_wasm_filter(&self.path, &chars_to_string(&cfg), id, asset)
    }
}

/// Assembles a remote-code WASM filter descriptor from a code asset path,
/// a plugin-level configuration text, the owning service's id and the
/// asset's bytes.
fn get_wasm_filter(path: &String, auth_config: &String, id: u32, asset: &Vec<u8>) -> (r: Result<
    WasmFilter,
    String,
>)
    ensures
        (match r {
            Ok(w) => file_name_of(path@).len() > 0 && w@ == spec_wasm_filter(
                path@,
                auth_config@,
                id,
                asset@,
            ),
            Err(m) => file_name_of(path@).len() == 0 && m@ == "failed to obtain file name of "@
                + path@,
        }),
{
    let path_chars = chars_of_str(path.as_str());
    let fname = file_name_x(&path_chars);
    if fname.len() == 0 {
        let mut msg: Vec<char> = Vec::new();
        push_str_chars(&mut msg, "failed to obtain file name of ");
        push_str_chars(&mut msg, path.as_str());
        return Err(chars_to_string(&msg));
    }
    let mut uri: Vec<char> = Vec::new();
    push_str_chars(&mut uri, "http://control-plane-main:5001/static/");
    let mut k: usize = 0;
    while k < fname.len()
        invariant
            k <= fname@.len(),
            uri@ == "http://control-plane-main:5001/static/"@ + fname@.subrange(0, k as int),
        decreases fname@.len() - k,
    {
        uri.push(fname[k]);
        assert(uri@ =~= "http://control-plane-main:5001/static/"@ + fname@.subrange(
            0,
            k as int + 1,
        ));
        k = k + 1;
    }
    assert(fname@.subrange(0, fname@.len() as int) =~= fname@);
    let name = vm_name(id);
    let root_id = vm_name(id);
    let vm_id = vm_name(id);
    let w = WasmFilter {
        config: PluginConfig {
            name,
            root_id,
            vm: VmConfig {
                vm_id,
                runtime: String::from_str("envoy.wasm.runtime.v8"),
                configuration: TextConfig {
                    type_url: String::from_str("type.googleapis.com/google.protobuf.StringValue"),
                    text: String::from_str("vm config"),
                },
                code: RemoteSource {
                    uri: chars_to_string(&uri),
                    timeout: ProtoDuration { seconds: 100, nanos: 0 },
                    upstream_cluster: String::from_str("wasm_files"),
                    sha256: sha_hex(asset),
                },
            },
            configuration: Some(
                TextConfig {
                    type_url: String::from_str("type.googleapis.com/google.protobuf.StringValue"),
                    text: auth_config.clone(),
                },
            ),
        },
    };
    assert(w@ =~~= spec_wasm_filter(path@, auth_config@, id, asset@));
    Ok(w)
}

} // verus!
