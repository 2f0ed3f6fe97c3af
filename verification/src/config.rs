//! The request-time mapping-rule engine. It holds one replaceable copy of
//! the active `Service` configuration and classifies each inbound request
//! against the service's usage-mapping rules, accumulating metering deltas.
//!
//! Two rules that share a `metric_system_name` and both match one request do
//! not sum: the later rule's delta overwrites the earlier one's, and the
//! member keeps the position of its first occurrence in the rendered
//! metrics object.

use vstd::prelude::*;
use crate::json::{json_u32_obj_of, push_json_u32_obj};
use crate::parse::{parse_service, spec_parse_service};
use crate::text::{chars_to_string, clone_string_vec};

verus! {

/// One usage-mapping rule: an exact request path, an exact HTTP method, the
/// metering counter it feeds and the increment applied when it matches.
#[derive(Clone, Debug)]
pub struct MappingRule {
    pub pattern: String,
    pub http_method: String,
    pub metric_system_name: String,
    pub delta: u32,
}

#[verifier::ext_equal]
pub struct MappingRuleView {
    pub pattern: Seq<char>,
    pub http_method: Seq<char>,
    pub metric_system_name: Seq<char>,
    pub delta: u32,
}

impl View for MappingRule {
    type V = MappingRuleView;

    open spec fn view(&self) -> MappingRuleView {
        MappingRuleView {
            pattern: self.pattern@,
            http_method: self.http_method@,
            metric_system_name: self.metric_system_name@,
            delta: self.delta,
        }
    }
}

impl DeepView for MappingRule {
    type V = MappingRuleView;

    open spec fn deep_view(&self) -> MappingRuleView {
        self.view()
    }
}

/// The service configuration as the data plane sees it.
#[derive(Clone, Debug)]
pub struct Service {
    pub id: u32,
    pub hosts: Vec<String>,
    pub policies: Vec<String>,
    pub target_domain: String,
    pub proxy_rules: Vec<MappingRule>,
}

#[verifier::ext_equal]
pub struct ServiceView {
    pub id: u32,
    pub hosts: Seq<Seq<char>>,
    pub policies: Seq<Seq<char>>,
    pub target_domain: Seq<char>,
    pub proxy_rules: Seq<MappingRuleView>,
}

impl View for Service {
    type V = ServiceView;

    open spec fn view(&self) -> ServiceView {
        ServiceView {
            id: self.id,
            hosts: self.hosts.deep_view(),
            policies: self.policies.deep_view(),
            target_domain: self.target_domain@,
            proxy_rules: self.proxy_rules.deep_view(),
        }
    }
}

/// Whether one rule matches a request: exact equality on the method and
/// exact equality of the pattern against the path.
pub open spec fn rule_matches(r: MappingRuleView, method: Seq<char>, path: Seq<char>) -> bool {
    r.http_method == method && r.pattern == path
}

/// The position of `key` in the accumulated metrics, or a negative value if
/// it is absent.
pub open spec fn find_key(acc: Seq<(Seq<char>, u32)>, key: Seq<char>) -> int
    decreases acc.len(),
{
    if acc.len() == 0 {
        -1
    } else if acc[0].0 == key {
        0
    } else {
        let r = find_key(acc.drop_first(), key);
        if r < 0 {
            -1
        } else {
            r + 1
        }
    }
}

pub proof fn lemma_find_key(acc: Seq<(Seq<char>, u32)>, key: Seq<char>)
    ensures
        -1 <= find_key(acc, key) < acc.len(),
        find_key(acc, key) >= 0 ==> acc[find_key(acc, key)].0 == key,
        find_key(acc, key) >= 0 ==> forall|j: int|
            0 <= j < find_key(acc, key) ==> acc[j].0 != key,
        find_key(acc, key) < 0 ==> forall|j: int| 0 <= j < acc.len() ==> acc[j].0 != key,
    decreases acc.len(),
{
    if acc.len() == 0 {
    } else if acc[0].0 == key {
    } else {
        lemma_find_key(acc.drop_first(), key);
        assert(forall|j: int|
            1 <= j < acc.len() ==> acc[j] == acc.drop_first()[j - 1]);
    }
}

/// Inserting one metering delta: a new member is appended, an existing one
/// keeps its position and takes the new value.
pub open spec fn upsert(acc: Seq<(Seq<char>, u32)>, key: Seq<char>, val: u32) -> Seq<
    (Seq<char>, u32),
> {
    let k = find_key(acc, key);
    if k < 0 {
        acc.push((key, val))
    } else {
        acc.update(k, (key, val))
    }
}

/// The metering deltas accumulated over the first `n` rules.
pub open spec fn metrics_upto(
    rules: Seq<MappingRuleView>,
    method: Seq<char>,
    path: Seq<char>,
    n: int,
) -> Seq<(Seq<char>, u32)>
    decreases n,
{
    if n <= 0 {
        Seq::<(Seq<char>, u32)>::empty()
    } else {
        let prev = metrics_upto(rules, method, path, n - 1);
        if rule_matches(rules[n - 1], method, path) {
            upsert(prev, rules[n - 1].metric_system_name, rules[n - 1].delta)
        } else {
            prev
        }
    }
}

/// The metering deltas a request accumulates over a whole rule set.
pub open spec fn spec_metrics(
    rules: Seq<MappingRuleView>,
    method: Seq<char>,
    path: Seq<char>,
) -> Seq<(Seq<char>, u32)> {
    metrics_upto(rules, method, path, rules.len() as int)
}

/// Matching never fails: some metering delta is recorded exactly when some
/// rule among the first `n` matches; in particular, a request no rule
/// matches yields the empty metrics object.
pub proof fn lemma_metrics_nonempty_iff_match(
    rules: Seq<MappingRuleView>,
    method: Seq<char>,
    path: Seq<char>,
    n: int,
)
    requires
        0 <= n <= rules.len(),
    ensures
        metrics_upto(rules, method, path, n).len() > 0 <==> exists|k: int|
            0 <= k < n && rule_matches(rules[k], method, path),
    decreases n,
{
    if n > 0 {
        lemma_metrics_nonempty_iff_match(rules, method, path, n - 1);
        let prev = metrics_upto(rules, method, path, n - 1);
        if rule_matches(rules[n - 1], method, path) {
            lemma_find_key(prev, rules[n - 1].metric_system_name);
        }
    }
}

impl MappingRule {
    /// Whether this rule matches the request.
    pub fn matches(&self, method: String, path: String) -> (r: bool)
        ensures
            r == rule_matches(self@, method@, path@),
    {
        if self.http_method != method {
            return false;
        }
        if self.pattern != path {
            return false;
        }
        true
    }
}

/// Replaces the value of `key`, or appends a new member.
fn upsert_metric(entries: &mut Vec<(String, u32)>, key: &String, val: u32)
    ensures
        final(entries).deep_view() == upsert(old(entries).deep_view(), key@, val),
{
    proof {
        lemma_find_key(entries.deep_view(), key@);
    }
    let ghost k = find_key(old(entries).deep_view(), key@);
    let mut j: usize = 0;
    while j < entries.len()
        invariant
            entries == old(entries),
            k == find_key(entries.deep_view(), key@),
            -1 <= k < entries@.len(),
            k >= 0 ==> entries.deep_view()[k].0 == key@,
            k >= 0 ==> forall|m: int| 0 <= m < k ==> entries.deep_view()[m].0 != key@,
            k < 0 ==> forall|m: int|
                0 <= m < entries@.len() ==> entries.deep_view()[m].0 != key@,
            j <= entries@.len(),
            forall|m: int| 0 <= m < j ==> entries.deep_view()[m].0 != key@,
        decreases entries@.len() - j,
    {
        let hit: bool = entries[j].0 == *key;
        proof {
            assert(entries.deep_view()[j as int] == entries@[j as int].deep_view());
            assert(entries@[j as int].deep_view().0 == entries@[j as int].0@);
        }
        if hit {
            assert(entries.deep_view()[j as int].0 == key@);
            assert(j == k);
            let prev = entries.remove(j);
            entries.insert(j, (prev.0, val));
            assert(final(entries).deep_view() =~= upsert(old(entries).deep_view(), key@, val));
            return;
        }
        j = j + 1;
    }
    assert(k < 0);
    entries.push((key.clone(), val));
    assert(final(entries).deep_view() =~= upsert(old(entries).deep_view(), key@, val));
}

impl Service {
    /// Classifies one request against this service's rules, in declaration
    /// order. Returns whether at least one rule matched and the serialized
    /// metrics object (possibly empty). Never fails: an absent match is
    /// `(false, "{}")`.
    pub fn match_mapping_rule(&self, method: String, path: String) -> (r: (bool, String))
        ensures
            r.0 == exists|k: int|
                0 <= k < self@.proxy_rules.len() && rule_matches(
                    self@.proxy_rules[k],
                    method@,
                    path@,
                ),
            r.1@ == json_u32_obj_of(spec_metrics(self@.proxy_rules, method@, path@)),
    {
        let ghost rules = self@.proxy_rules;
        let mut entries: Vec<(String, u32)> = Vec::new();
        let mut i: usize = 0;
        assert(entries.deep_view() =~= metrics_upto(rules, method@, path@, 0));
        while i < self.proxy_rules.len()
            invariant
                rules == self@.proxy_rules,
                i <= rules.len(),
                entries.deep_view() == metrics_upto(rules, method@, path@, i as int),
            decreases rules.len() - i,
        {
            let rule = &self.proxy_rules[i];
            assert(rule@ == rules[i as int]);
            if rule.matches(method.clone(), path.clone()) {
                upsert_metric(&mut entries, &rule.metric_system_name, rule.delta);
            }
            i = i + 1;
        }
        proof {
            lemma_metrics_nonempty_iff_match(rules, method@, path@, rules.len() as int);
        }
        let matched: bool = entries.len() > 0;
        let mut out: Vec<char> = Vec::new();
        push_json_u32_obj(&mut out, &entries);
        (matched, chars_to_string(&out))
    }
}

/// The index of the last rule among the first `n` that matches the request
/// and feeds `key`, or a negative value if none does.
pub open spec fn last_match_for(
    rules: Seq<MappingRuleView>,
    method: Seq<char>,
    path: Seq<char>,
    n: int,
    key: Seq<char>,
) -> int
    decreases n,
{
    if n <= 0 {
        -1
    } else if rule_matches(rules[n - 1], method, path) && rules[n - 1].metric_system_name == key {
        n - 1
    } else {
        last_match_for(rules, method, path, n - 1, key)
    }
}

proof fn lemma_find_key_push(acc: Seq<(Seq<char>, u32)>, e: (Seq<char>, u32), key: Seq<char>)
    ensures
        find_key(acc.push(e), key) == (if find_key(acc, key) >= 0 {
            find_key(acc, key)
        } else if e.0 == key {
            acc.len() as int
        } else {
            -1
        }),
        forall|j: int| 0 <= j < acc.len() ==> acc.push(e)[j] == acc[j],
        acc.push(e)[acc.len() as int] == e,
    decreases acc.len(),
{
    if acc.len() == 0 {
        assert(acc.push(e)[0] == e);
        assert(acc.push(e).drop_first() =~= Seq::<(Seq<char>, u32)>::empty());
        assert(find_key(Seq::<(Seq<char>, u32)>::empty(), key) == -1);
        assert(find_key(acc.push(e), key) == (if e.0 == key {
            0
        } else {
            -1
        }));
        assert(find_key(acc, key) == -1);
    } else if acc[0].0 == key {
        assert(acc.push(e)[0] == acc[0]);
        assert(find_key(acc.push(e), key) == 0);
    } else {
        assert(acc.push(e)[0] == acc[0]);
        assert(acc.push(e).drop_first() =~= acc.drop_first().push(e));
        lemma_find_key_push(acc.drop_first(), e, key);
        assert(find_key(acc.push(e).drop_first(), key) == find_key(acc.drop_first().push(e), key));
    }
}

proof fn lemma_find_key_update(
    acc: Seq<(Seq<char>, u32)>,
    k: int,
    e: (Seq<char>, u32),
    key: Seq<char>,
)
    requires
        0 <= k < acc.len(),
        acc[k].0 == e.0,
        e.0 != key,
    ensures
        find_key(acc.update(k, e), key) == find_key(acc, key),
        find_key(acc, key) >= 0 ==> acc.update(k, e)[find_key(acc, key)] == acc[find_key(
            acc,
            key,
        )],
    decreases acc.len(),
{
    lemma_find_key(acc, key);
    if k == 0 {
        assert(acc.update(0, e)[0].0 == e.0);
        assert(acc.update(0, e).drop_first() =~= acc.drop_first());
    } else {
        assert(acc.update(k, e)[0] == acc[0]);
        if acc[0].0 == key {
        } else {
            assert(acc.update(k, e).drop_first() =~= acc.drop_first().update(k - 1, e));
            lemma_find_key_update(acc.drop_first(), k - 1, e, key);
        }
    }
}

proof fn lemma_metric_value_upto(
    rules: Seq<MappingRuleView>,
    method: Seq<char>,
    path: Seq<char>,
    n: int,
    key: Seq<char>,
)
    requires
        0 <= n <= rules.len(),
    ensures
        ({
            let lm = last_match_for(rules, method, path, n, key);
            let acc = metrics_upto(rules, method, path, n);
            &&& (lm < 0 ==> find_key(acc, key) < 0)
            &&& (lm >= 0 ==> find_key(acc, key) >= 0 && acc[find_key(acc, key)] == (
                key,
                rules[lm].delta,
            ))
        }),
    decreases n,
{
    if n > 0 {
        lemma_metric_value_upto(rules, method, path, n - 1, key);
        let prev = metrics_upto(rules, method, path, n - 1);
        let r = rules[n - 1];
        if rule_matches(r, method, path) {
            lemma_find_key(prev, r.metric_system_name);
            lemma_find_key(prev, key);
            let k = find_key(prev, r.metric_system_name);
            if r.metric_system_name == key {
                if k < 0 {
                    lemma_find_key_push(prev, (key, r.delta), key);
                } else {
                    lemma_find_key_update_same(prev, k, (key, r.delta), key);
                }
            } else {
                if k < 0 {
                    lemma_find_key_push(prev, (r.metric_system_name, r.delta), key);
                } else {
                    lemma_find_key_update(prev, k, (r.metric_system_name, r.delta), key);
                }
            }
        }
    }
}

proof fn lemma_find_key_update_same(
    acc: Seq<(Seq<char>, u32)>,
    k: int,
    e: (Seq<char>, u32),
    key: Seq<char>,
)
    requires
        0 <= k < acc.len(),
        k == find_key(acc, key),
        e.0 == key,
    ensures
        find_key(acc.update(k, e), key) == k,
        acc.update(k, e)[k] == e,
    decreases acc.len(),
{
    lemma_find_key(acc, key);
    if k == 0 {
        assert(acc.update(0, e)[0].0 == key);
    } else {
        assert(acc.update(k, e)[0] == acc[0]);
        assert(acc[0].0 != key);
        assert(acc.update(k, e).drop_first() =~= acc.drop_first().update(k - 1, e));
        assert(find_key(acc.drop_first(), key) == k - 1);
        lemma_find_key_update_same(acc.drop_first(), k - 1, e, key);
    }
}

/// Among overlapping rules that feed one metric, the last matching rule
/// decides: the metric's recorded value is exactly that rule's delta —
/// deltas do not sum.
pub proof fn lemma_last_matching_rule_wins(
    rules: Seq<MappingRuleView>,
    method: Seq<char>,
    path: Seq<char>,
    key: Seq<char>,
)
    ensures
        ({
            let lm = last_match_for(rules, method, path, rules.len() as int, key);
            let acc = spec_metrics(rules, method, path);
            &&& (lm < 0 ==> find_key(acc, key) < 0)
            &&& (lm >= 0 ==> find_key(acc, key) >= 0 && acc[find_key(acc, key)] == (
                key,
                rules[lm].delta,
            ))
        }),
{
    lemma_metric_value_upto(rules, method, path, rules.len() as int, key);
}

/// Two rules that share a metric and both match one request do not sum:
/// the later rule's delta overwrites the earlier one's.
pub proof fn lemma_same_metric_last_wins(
    r0: MappingRuleView,
    r1: MappingRuleView,
    method: Seq<char>,
    path: Seq<char>,
)
    requires
        rule_matches(r0, method, path),
        rule_matches(r1, method, path),
        r0.metric_system_name == r1.metric_system_name,
    ensures
        spec_metrics(seq![r0, r1], method, path) == seq![(r0.metric_system_name, r1.delta)],
{
    let rules = seq![r0, r1];
    let key = r0.metric_system_name;
    let m0 = metrics_upto(rules, method, path, 0);
    let m1 = metrics_upto(rules, method, path, 1);
    let m2 = metrics_upto(rules, method, path, 2);
    assert(m0 =~= Seq::<(Seq<char>, u32)>::empty());
    assert(find_key(m0, key) < 0);
    assert(m1 =~= seq![(key, r0.delta)]);
    assert(find_key(m1, key) == 0);
    assert(m2 =~= seq![(key, r1.delta)]);
}

/// The empty configuration a fresh engine starts from: no hosts, no rules.
pub open spec fn empty_service_view() -> ServiceView {
    ServiceView {
        id: 0,
        hosts: Seq::<Seq<char>>::empty(),
        policies: Seq::<Seq<char>>::empty(),
        target_domain: Seq::<char>::empty(),
        proxy_rules: Seq::<MappingRuleView>::empty(),
    }
}

impl Default for Service {
    /// A service with no hosts, no rules and an empty target domain.
    fn default() -> (r: Self)
        ensures
            r@ == empty_service_view(),
    {
        let r = Service {
            id: 0,
            hosts: Vec::new(),
            policies: Vec::new(),
            target_domain: String::new(),
            proxy_rules: Vec::new(),
        };
        assert(r@ =~~= empty_service_view());
        r
    }
}

fn clone_rules(v: &Vec<MappingRule>) -> (r: Vec<MappingRule>)
    ensures
        r.deep_view() == v.deep_view(),
{
    let mut out: Vec<MappingRule> = Vec::new();
    let mut j: usize = 0;
    while j < v.len()
        invariant
            j <= v@.len(),
            out.deep_view().len() == j,
            forall|m: int| 0 <= m < j ==> out.deep_view()[m] == v.deep_view()[m],
        decreases v@.len() - j,
    {
        let rule = MappingRule {
            pattern: v[j].pattern.clone(),
            http_method: v[j].http_method.clone(),
            metric_system_name: v[j].metric_system_name.clone(),
            delta: v[j].delta,
        };
        out.push(rule);
        j = j + 1;
    }
    assert(out.deep_view() =~= v.deep_view());
    out
}

fn copy_service(s: &Service) -> (r: Service)
    ensures
        r@ == s@,
{
    let r = Service {
        id: s.id,
        hosts: clone_string_vec(&s.hosts),
        policies: clone_string_vec(&s.policies),
        target_domain: s.target_domain.clone(),
        proxy_rules: clone_rules(&s.proxy_rules),
    };
    assert(r@ =~~= s@);
    r
}

/// The data-plane import failure: malformed configuration is rejected and
/// the previous configuration is retained.
#[derive(Clone, Copy, PartialEq, Eq, Structural, Debug)]
pub enum ConfigError {
    ParseFailure,
}

/// The single replaceable cell holding the active configuration. One cell
/// belongs to one execution context; replacement is all-or-nothing.
pub struct ConfigCell {
    current: Service,
}

impl View for ConfigCell {
    type V = ServiceView;

    closed spec fn view(&self) -> ServiceView {
        self.current@
    }
}

impl ConfigCell {
    /// A fresh cell holding the empty configuration.
    pub fn new() -> (r: Self)
        ensures
            r@ == empty_service_view(),
    {
        ConfigCell { current: Service::default() }
    }
}

/// What an import attempt leaves in the cell: the parsed configuration, or
/// the previous one when the input is rejected.
pub open spec fn spec_import(cell: ServiceView, cfg: Seq<char>) -> (ServiceView, bool) {
    match spec_parse_service(cfg) {
        Some(v) => (v, true),
        None => (cell, false),
    }
}

/// A rejected import changes nothing that `match_mapping_rule` can observe:
/// for every request, the metering outcome over the retained configuration
/// is the outcome over the configuration held before the attempt.
pub proof fn lemma_invalid_import_preserves_match(
    cell: ServiceView,
    cfg: Seq<char>,
    method: Seq<char>,
    path: Seq<char>,
)
    requires
        spec_parse_service(cfg) is None,
    ensures
        spec_import(cell, cfg).0 == cell,
        spec_metrics(spec_import(cell, cfg).0.proxy_rules, method, path) == spec_metrics(
            cell.proxy_rules,
            method,
            path,
        ),
{
}

/// A copy of the active configuration.
pub fn get_config(cell: &ConfigCell) -> (r: Service)
    ensures
        r@ == cell@,
{
    copy_service(&cell.current)
}

/// Parses `config` and atomically replaces the active configuration.
/// Replacement is all-or-nothing: a parse failure reports an error and
/// leaves the previous configuration intact.
pub fn import_config(cell: &mut ConfigCell, config: &str) -> (r: Result<Service, ConfigError>)
    ensures
        final(cell)@ == spec_import(old(cell)@, config@).0,
        (match spec_parse_service(config@) {
            Some(v) => r is Ok && r->Ok_0@ == v && final(cell)@ == v,
            None => r == Result::<Service, ConfigError>::Err(ConfigError::ParseFailure)
                && *final(cell) == *old(cell),
        }),
{
    match parse_service(config) {
        Some(svc) => {
            let copy = copy_service(&svc);
            cell.current = svc;
            Ok(copy)
        },
        None => Err(ConfigError::ParseFailure),
    }
}

} // verus!
