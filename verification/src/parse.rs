//! Parser for the serialized `Service` descriptor the data plane imports:
//! the compact JSON wire form the control plane embeds as the metering
//! filter's plugin configuration. The five known members must appear first,
//! in their serialization order; any further members are skipped with only
//! their bracket and string structure checked. Strings understand the two
//! escapes the writer emits, `\"` and `\\`.

use vstd::prelude::*;
use crate::config::{MappingRule, MappingRuleView, Service, ServiceView};
use crate::text::chars_to_string;

verus! {

/// A literal at position `i`: the index just past it, or nothing.
pub open spec fn parse_lit(s: Seq<char>, i: int, lit: Seq<char>) -> Option<int> {
    if 0 <= i && i + lit.len() <= s.len() && s.subrange(i, i + lit.len()) == lit {
        Some(i + lit.len())
    } else {
        None
    }
}

/// The body of a JSON string after the opening quote: the unescaped
/// characters and the index just past the closing quote.
pub open spec fn parse_str_body(s: Seq<char>, i: int) -> Option<(Seq<char>, int)>
    decreases s.len() - i,
{
    if i < 0 || i >= s.len() {
        None
    } else if s[i] == '"' {
        Some((Seq::<char>::empty(), i + 1))
    } else if s[i] == '\\' {
        if i + 1 < s.len() && (s[i + 1] == '"' || s[i + 1] == '\\') {
            match parse_str_body(s, i + 2) {
                None => None,
                Some((v, e)) => Some((seq![s[i + 1]] + v, e)),
            }
        } else {
            None
        }
    } else {
        match parse_str_body(s, i + 1) {
            None => None,
            Some((v, e)) => Some((seq![s[i]] + v, e)),
        }
    }
}

/// A JSON string at position `i`.
pub open spec fn parse_string(s: Seq<char>, i: int) -> Option<(Seq<char>, int)> {
    if 0 <= i < s.len() && s[i] == '"' {
        parse_str_body(s, i + 1)
    } else {
        None
    }
}

pub proof fn lemma_parse_str_body_bounds(s: Seq<char>, i: int)
    ensures
        parse_str_body(s, i) matches Some(r) ==> i < r.1 <= s.len(),
    decreases s.len() - i,
{
    if 0 <= i < s.len() {
        lemma_parse_str_body_bounds(s, i + 1);
        if i + 1 < s.len() {
            lemma_parse_str_body_bounds(s, i + 2);
        }
    }
}

pub proof fn lemma_parse_string_bounds(s: Seq<char>, i: int)
    ensures
        parse_string(s, i) matches Some(r) ==> i < r.1 <= s.len(),
{
    lemma_parse_str_body_bounds(s, i + 1);
}

pub open spec fn is_digit(c: char) -> bool {
    c == '0' || c == '1' || c == '2' || c == '3' || c == '4' || c == '5' || c == '6' || c == '7'
        || c == '8' || c == '9'
}

pub open spec fn digit_val(c: char) -> int {
    if c == '0' {
        0
    } else if c == '1' {
        1
    } else if c == '2' {
        2
    } else if c == '3' {
        3
    } else if c == '4' {
        4
    } else if c == '5' {
        5
    } else if c == '6' {
        6
    } else if c == '7' {
        7
    } else if c == '8' {
        8
    } else {
        9
    }
}

/// Digits from position `i` onward, folded left onto `acc`; nothing if the
/// value leaves the unsigned 32-bit range.
pub open spec fn parse_digits(s: Seq<char>, i: int, acc: u32) -> Option<(u32, int)>
    decreases s.len() - i,
{
    if i < 0 || i >= s.len() || !is_digit(s[i]) {
        Some((acc, i))
    } else {
        let v = acc * 10 + digit_val(s[i]);
        if v > 0xFFFF_FFFF {
            None
        } else {
            parse_digits(s, i + 1, v as u32)
        }
    }
}

/// An unsigned decimal number at position `i`.
pub open spec fn parse_u32(s: Seq<char>, i: int) -> Option<(u32, int)> {
    if 0 <= i < s.len() && is_digit(s[i]) {
        parse_digits(s, i + 1, digit_val(s[i]) as u32)
    } else {
        None
    }
}

pub proof fn lemma_parse_digits_bounds(s: Seq<char>, i: int, acc: u32)
    ensures
        parse_digits(s, i, acc) matches Some(r) ==> i <= r.1 && r.1 <= s.len() || r.1 == i,
    decreases s.len() - i,
{
    if 0 <= i < s.len() && is_digit(s[i]) {
        let v = acc * 10 + digit_val(s[i]);
        if v <= 0xFFFF_FFFF {
            lemma_parse_digits_bounds(s, i + 1, v as u32);
        }
    }
}

pub proof fn lemma_parse_u32_bounds(s: Seq<char>, i: int)
    ensures
        parse_u32(s, i) matches Some(r) ==> i < r.1 <= s.len(),
{
    if 0 <= i < s.len() && is_digit(s[i]) {
        lemma_parse_digits_bounds(s, i + 1, digit_val(s[i]) as u32);
    }
}

/// The members of a string array after the opening bracket, accumulated
/// onto `acc`.
pub open spec fn parse_str_items(s: Seq<char>, i: int, acc: Seq<Seq<char>>) -> Option<
    (Seq<Seq<char>>, int),
>
    decreases s.len() - i,
{
    match parse_string(s, i) {
        None => None,
        Some((v, j)) => if j < s.len() && s[j] == ',' {
            proof {
                lemma_parse_string_bounds(s, i);
            }
            parse_str_items(s, j + 1, acc.push(v))
        } else if j < s.len() && s[j] == ']' {
            Some((acc.push(v), j + 1))
        } else {
            None
        },
    }
}

/// A JSON array of strings at position `i`.
pub open spec fn parse_str_arr(s: Seq<char>, i: int) -> Option<(Seq<Seq<char>>, int)> {
    if 0 <= i < s.len() && s[i] == '[' {
        if i + 1 < s.len() && s[i + 1] == ']' {
            Some((Seq::<Seq<char>>::empty(), i + 2))
        } else {
            parse_str_items(s, i + 1, Seq::<Seq<char>>::empty())
        }
    } else {
        None
    }
}

/// One mapping rule object, with its four members in serialization order.
pub open spec fn parse_rule(s: Seq<char>, i: int) -> Option<(MappingRuleView, int)> {
    match parse_lit(s, i, "{\"pattern\":"@) {
        None => None,
        Some(j1) => match parse_string(s, j1) {
            None => None,
            Some((pattern, j2)) => match parse_lit(s, j2, ",\"http_method\":"@) {
                None => None,
                Some(j3) => match parse_string(s, j3) {
                    None => None,
                    Some((http_method, j4)) => match parse_lit(
                        s,
                        j4,
                        ",\"metric_system_name\":"@,
                    ) {
                        None => None,
                        Some(j5) => match parse_string(s, j5) {
                            None => None,
                            Some((metric_system_name, j6)) => match parse_lit(
                                s,
                                j6,
                                ",\"delta\":"@,
                            ) {
                                None => None,
                                Some(j7) => match parse_u32(s, j7) {
                                    None => None,
                                    Some((delta, j8)) => match parse_lit(s, j8, "}"@) {
                                        None => None,
                                        Some(j9) => Some(
                                            (
                                                MappingRuleView {
                                                    pattern,
                                                    http_method,
                                                    metric_system_name,
                                                    delta,
                                                },
                                                j9,
                                            ),
                                        ),
                                    },
                                },
                            },
                        },
                    },
                },
            },
        },
    }
}

pub proof fn lemma_parse_rule_bounds(s: Seq<char>, i: int)
    ensures
        parse_rule(s, i) matches Some(r) ==> i < r.1 <= s.len(),
{
    if parse_rule(s, i) is Some {
        let j1 = parse_lit(s, i, "{\"pattern\":"@)->Some_0;
        lemma_parse_string_bounds(s, j1);
        let j2 = parse_string(s, j1)->Some_0.1;
        let j3 = parse_lit(s, j2, ",\"http_method\":"@)->Some_0;
        lemma_parse_string_bounds(s, j3);
        let j4 = parse_string(s, j3)->Some_0.1;
        let j5 = parse_lit(s, j4, ",\"metric_system_name\":"@)->Some_0;
        lemma_parse_string_bounds(s, j5);
        let j6 = parse_string(s, j5)->Some_0.1;
        let j7 = parse_lit(s, j6, ",\"delta\":"@)->Some_0;
        lemma_parse_u32_bounds(s, j7);
    }
}

/// The members of a rule array after the opening bracket, accumulated onto
/// `acc`.
pub open spec fn parse_rule_items(s: Seq<char>, i: int, acc: Seq<MappingRuleView>) -> Option<
    (Seq<MappingRuleView>, int),
>
    decreases s.len() - i,
{
    match parse_rule(s, i) {
        None => None,
        Some((v, j)) => if j < s.len() && s[j] == ',' {
            proof {
                lemma_parse_rule_bounds(s, i);
            }
            parse_rule_items(s, j + 1, acc.push(v))
        } else if j < s.len() && s[j] == ']' {
            Some((acc.push(v), j + 1))
        } else {
            None
        },
    }
}

/// A JSON array of mapping rules at position `i`.
pub open spec fn parse_rule_arr(s: Seq<char>, i: int) -> Option<(Seq<MappingRuleView>, int)> {
    if 0 <= i < s.len() && s[i] == '[' {
        if i + 1 < s.len() && s[i + 1] == ']' {
            Some((Seq::<MappingRuleView>::empty(), i + 2))
        } else {
            parse_rule_items(s, i + 1, Seq::<MappingRuleView>::empty())
        }
    } else {
        None
    }
}

/// Scans past a composite value one character at a time, tracking bracket
/// depth and string state. Closing brackets are not matched against their
/// opening kind: this skips, it does not validate.
pub open spec fn skip_scan(s: Seq<char>, i: int, depth: nat, in_str: bool, esc: bool) -> Option<
    int,
>
    decreases s.len() - i,
{
    if i < 0 || i >= s.len() {
        None
    } else if in_str {
        if esc {
            skip_scan(s, i + 1, depth, true, false)
        } else if s[i] == '\\' {
            skip_scan(s, i + 1, depth, true, true)
        } else if s[i] == '"' {
            if depth == 0 {
                Some(i + 1)
            } else {
                skip_scan(s, i + 1, depth, false, false)
            }
        } else {
            skip_scan(s, i + 1, depth, true, false)
        }
    } else {
        if s[i] == '{' || s[i] == '[' {
            skip_scan(s, i + 1, depth + 1, false, false)
        } else if s[i] == '}' || s[i] == ']' {
            if depth <= 1 {
                Some(i + 1)
            } else {
                skip_scan(s, i + 1, (depth - 1) as nat, false, false)
            }
        } else if s[i] == '"' {
            skip_scan(s, i + 1, depth, true, false)
        } else {
            skip_scan(s, i + 1, depth, false, false)
        }
    }
}

pub proof fn lemma_skip_scan_bounds(s: Seq<char>, i: int, depth: nat, in_str: bool, esc: bool)
    ensures
        skip_scan(s, i, depth, in_str, esc) matches Some(e) ==> i < e <= s.len(),
    decreases s.len() - i,
{
    if 0 <= i < s.len() {
        lemma_skip_scan_bounds(s, i + 1, depth, true, false);
        lemma_skip_scan_bounds(s, i + 1, depth, true, true);
        lemma_skip_scan_bounds(s, i + 1, depth, false, false);
        lemma_skip_scan_bounds(s, i + 1, (depth + 1) as nat, false, false);
        if depth >= 1 {
            lemma_skip_scan_bounds(s, i + 1, (depth - 1) as nat, false, false);
        }
    }
}

/// Scans past the rest of a primitive value: everything up to the next
/// comma or closing bracket.
pub open spec fn skip_prim_rest(s: Seq<char>, i: int) -> Option<int>
    decreases s.len() - i,
{
    if i < 0 || i > s.len() {
        None
    } else if i == s.len() || s[i] == ',' || s[i] == '}' || s[i] == ']' {
        Some(i)
    } else {
        skip_prim_rest(s, i + 1)
    }
}

pub proof fn lemma_skip_prim_rest_bounds(s: Seq<char>, i: int)
    ensures
        skip_prim_rest(s, i) matches Some(e) ==> i <= e <= s.len(),
    decreases s.len() - i,
{
    if 0 <= i < s.len() {
        lemma_skip_prim_rest_bounds(s, i + 1);
    }
}

/// Scans past one JSON value of any kind.
pub open spec fn skip_value(s: Seq<char>, i: int) -> Option<int> {
    if i < 0 || i >= s.len() {
        None
    } else if s[i] == '"' {
        skip_scan(s, i + 1, 0, true, false)
    } else if s[i] == '{' || s[i] == '[' {
        skip_scan(s, i + 1, 1, false, false)
    } else if s[i] == ',' || s[i] == '}' || s[i] == ']' || s[i] == ':' {
        None
    } else {
        skip_prim_rest(s, i + 1)
    }
}

pub proof fn lemma_skip_value_bounds(s: Seq<char>, i: int)
    ensures
        skip_value(s, i) matches Some(e) ==> i < e <= s.len(),
{
    lemma_skip_scan_bounds(s, i + 1, 0, true, false);
    lemma_skip_scan_bounds(s, i + 1, 1, false, false);
    lemma_skip_prim_rest_bounds(s, i + 1);
}

/// After the five known members: either the closing brace, or further
/// members that are skipped.
pub open spec fn parse_extras(s: Seq<char>, i: int) -> Option<int>
    decreases s.len() - i,
{
    if i < 0 || i >= s.len() {
        None
    } else if s[i] == '}' {
        Some(i + 1)
    } else if s[i] == ',' {
        match parse_string(s, i + 1) {
            None => None,
            Some((k, j)) => if j < s.len() && s[j] == ':' {
                match skip_value(s, j + 1) {
                    None => None,
                    Some(e) => {
                        proof {
                            lemma_parse_string_bounds(s, i + 1);
                            lemma_skip_value_bounds(s, j + 1);
                        }
                        parse_extras(s, e)
                    },
                }
            } else {
                None
            },
        }
    } else {
        None
    }
}

/// A full `Service` descriptor object starting at position `i`.
pub open spec fn parse_service_at(s: Seq<char>, i: int) -> Option<(ServiceView, int)> {
    match parse_lit(s, i, "{\"id\":"@) {
        None => None,
        Some(j1) => match parse_u32(s, j1) {
            None => None,
            Some((id, j2)) => match parse_lit(s, j2, ",\"hosts\":"@) {
                None => None,
                Some(j3) => match parse_str_arr(s, j3) {
                    None => None,
                    Some((hosts, j4)) => match parse_lit(s, j4, ",\"policies\":"@) {
                        None => None,
                        Some(j5) => match parse_str_arr(s, j5) {
                            None => None,
                            Some((policies, j6)) => match parse_lit(
                                s,
                                j6,
                                ",\"target_domain\":"@,
                            ) {
                                None => None,
                                Some(j7) => match parse_string(s, j7) {
                                    None => None,
                                    Some((target_domain, j8)) => match parse_lit(
                                        s,
                                        j8,
                                        ",\"proxy_rules\":"@,
                                    ) {
                                        None => None,
                                        Some(j9) => match parse_rule_arr(s, j9) {
                                            None => None,
                                            Some((proxy_rules, j10)) => match parse_extras(
                                                s,
                                                j10,
                                            ) {
                                                None => None,
                                                Some(j11) => Some(
                                                    (
                                                        ServiceView {
                                                            id,
                                                            hosts,
                                                            policies,
                                                            target_domain,
                                                            proxy_rules,
                                                        },
                                                        j11,
                                                    ),
                                                ),
                                            },
                                        },
                                    },
                                },
                            },
                        },
                    },
                },
            },
        },
    }
}

/// A complete `Service` descriptor: the object must span the whole input.
pub open spec fn spec_parse_service(s: Seq<char>) -> Option<ServiceView> {
    match parse_service_at(s, 0) {
        None => None,
        Some((v, e)) => if e == s.len() {
            Some(v)
        } else {
            None
        },
    }
}

fn lit_at(s: &Vec<char>, i: usize, lit: &str) -> (r: Option<usize>)
    ensures
        (match r {
            Some(j) => parse_lit(s@, i as int, lit@) == Some(j as int) && i <= j <= s@.len()
                && j == i + lit@.len(),
            None => parse_lit(s@, i as int, lit@) is None,
        }),
{
    let n: usize = lit.unicode_len();
    if n > s.len() || i > s.len() - n {
        assert(parse_lit(s@, i as int, lit@) is None);
        return None;
    }
    let mut k: usize = 0;
    while k < n
        invariant
            n == lit@.len(),
            i + n <= s@.len(),
            s@.len() <= usize::MAX,
            k <= n,
            forall|m: int| 0 <= m < k ==> s@[i + m] == lit@[m],
        decreases n - k,
    {
        assert(i + k < s@.len());
        if s[i + k] != lit.get_char(k) {
            assert(s@.subrange(i as int, i + n as int)[k as int] != lit@[k as int]);
            assert(s@.subrange(i as int, i + n as int) != lit@);
            return None;
        }
        k = k + 1;
    }
    assert(s@.subrange(i as int, i + n as int) =~= lit@);
    Some(i + n)
}

fn parse_str_body_x(s: &Vec<char>, i: usize) -> (r: Option<(Vec<char>, usize)>)
    ensures
        (match r {
            Some((v, e)) => parse_str_body(s@, i as int) == Some((v@, e as int)) && i < e
                <= s@.len(),
            None => parse_str_body(s@, i as int) is None,
        }),
    decreases s@.len() - i,
{
    if i >= s.len() {
        return None;
    }
    let c: char = s[i];
    if c == '"' {
        let v: Vec<char> = Vec::new();
        assert(v@ =~= Seq::<char>::empty());
        Some((v, i + 1))
    } else if c == '\\' {
        if i + 1 < s.len() && (s[i + 1] == '"' || s[i + 1] == '\\') {
            match parse_str_body_x(s, i + 2) {
                None => None,
                Some((mut v, e)) => {
                    let u: char = s[i + 1];
                    let ghost v0 = v@;
                    v.insert(0, u);
                    assert(v@ =~= seq![s@[i as int + 1]] + v0);
                    Some((v, e))
                },
            }
        } else {
            None
        }
    } else {
        match parse_str_body_x(s, i + 1) {
            None => None,
            Some((mut v, e)) => {
                let ghost v0 = v@;
                v.insert(0, c);
                assert(v@ =~= seq![s@[i as int]] + v0);
                Some((v, e))
            },
        }
    }
}

fn parse_string_x(s: &Vec<char>, i: usize) -> (r: Option<(Vec<char>, usize)>)
    ensures
        (match r {
            Some((v, e)) => parse_string(s@, i as int) == Some((v@, e as int)) && i < e
                <= s@.len(),
            None => parse_string(s@, i as int) is None,
        }),
{
    if i < s.len() && s[i] == '"' {
        parse_str_body_x(s, i + 1)
    } else {
        None
    }
}

fn digit_val_x(c: char) -> (d: u32)
    requires
        is_digit(c),
    ensures
        d == digit_val(c),
        d <= 9,
{
    match c {
        '0' => 0,
        '1' => 1,
        '2' => 2,
        '3' => 3,
        '4' => 4,
        '5' => 5,
        '6' => 6,
        '7' => 7,
        '8' => 8,
        _ => 9,
    }
}

fn parse_digits_x(s: &Vec<char>, i: usize, acc: u32) -> (r: Option<(u32, usize)>)
    requires
        i <= s@.len(),
    ensures
        (match r {
            Some((v, e)) => parse_digits(s@, i as int, acc) == Some((v, e as int)) && i <= e
                <= s@.len(),
            None => parse_digits(s@, i as int, acc) is None,
        }),
    decreases s@.len() - i,
{
    if i >= s.len() {
        return Some((acc, i));
    }
    let c: char = s[i];
    let digit: bool = c == '0' || c == '1' || c == '2' || c == '3' || c == '4' || c == '5' || c
        == '6' || c == '7' || c == '8' || c == '9';
    if !digit {
        return Some((acc, i));
    }
    let d: u32 = digit_val_x(c);
    let v64: u64 = acc as u64 * 10 + d as u64;
    if v64 > 0xFFFF_FFFFu64 {
        None
    } else {
        parse_digits_x(s, i + 1, v64 as u32)
    }
}

fn parse_u32_x(s: &Vec<char>, i: usize) -> (r: Option<(u32, usize)>)
    ensures
        (match r {
            Some((v, e)) => parse_u32(s@, i as int) == Some((v, e as int)) && i < e <= s@.len(),
            None => parse_u32(s@, i as int) is None,
        }),
{
    if i >= s.len() {
        return None;
    }
    let c: char = s[i];
    let digit: bool = c == '0' || c == '1' || c == '2' || c == '3' || c == '4' || c == '5' || c
        == '6' || c == '7' || c == '8' || c == '9';
    if !digit {
        return None;
    }
    let d: u32 = digit_val_x(c);
    parse_digits_x(s, i + 1, d)
}

fn parse_str_items_x(s: &Vec<char>, i: usize, acc: Vec<String>) -> (r: Option<
    (Vec<String>, usize),
>)
    ensures
        (match r {
            Some((out, e)) => parse_str_items(s@, i as int, acc.deep_view()) == Some(
                (out.deep_view(), e as int),
            ) && i < e <= s@.len(),
            None => parse_str_items(s@, i as int, acc.deep_view()) is None,
        }),
    decreases s@.len() - i,
{
    match parse_string_x(s, i) {
        None => None,
        Some((v, j)) => {
            let ghost item = v@;
            let mut acc2 = acc;
            let ghost acc0 = acc2.deep_view();
            acc2.push(chars_to_string(&v));
            assert(acc2.deep_view() =~= acc0.push(item));
            if j < s.len() && s[j] == ',' {
                parse_str_items_x(s, j + 1, acc2)
            } else if j < s.len() && s[j] == ']' {
                Some((acc2, j + 1))
            } else {
                None
            }
        },
    }
}

fn parse_str_arr_x(s: &Vec<char>, i: usize) -> (r: Option<(Vec<String>, usize)>)
    ensures
        (match r {
            Some((out, e)) => parse_str_arr(s@, i as int) == Some((out.deep_view(), e as int))
                && i < e <= s@.len(),
            None => parse_str_arr(s@, i as int) is None,
        }),
{
    if i < s.len() && s[i] == '[' {
        if i + 1 < s.len() && s[i + 1] == ']' {
            let out: Vec<String> = Vec::new();
            assert(out.deep_view() =~= Seq::<Seq<char>>::empty());
            Some((out, i + 2))
        } else {
            let acc: Vec<String> = Vec::new();
            assert(acc.deep_view() =~= Seq::<Seq<char>>::empty());
            parse_str_items_x(s, i + 1, acc)
        }
    } else {
        None
    }
}

fn parse_rule_x(s: &Vec<char>, i: usize) -> (r: Option<(MappingRule, usize)>)
    ensures
        (match r {
            Some((rule, e)) => parse_rule(s@, i as int) == Some((rule@, e as int)) && i < e
                <= s@.len(),
            None => parse_rule(s@, i as int) is None,
        }),
{
    let j1 = match lit_at(s, i, "{\"pattern\":") {
        None => {
            return None;
        },
        Some(j) => j,
    };
    let (pattern, j2) = match parse_string_x(s, j1) {
        None => {
            return None;
        },
        Some(p) => p,
    };
    let j3 = match lit_at(s, j2, ",\"http_method\":") {
        None => {
            return None;
        },
        Some(j) => j,
    };
    let (http_method, j4) = match parse_string_x(s, j3) {
        None => {
            return None;
        },
        Some(p) => p,
    };
    let j5 = match lit_at(s, j4, ",\"metric_system_name\":") {
        None => {
            return None;
        },
        Some(j) => j,
    };
    let (metric_system_name, j6) = match parse_string_x(s, j5) {
        None => {
            return None;
        },
        Some(p) => p,
    };
    let j7 = match lit_at(s, j6, ",\"delta\":") {
        None => {
            return None;
        },
        Some(j) => j,
    };
    let (delta, j8) = match parse_u32_x(s, j7) {
        None => {
            return None;
        },
        Some(p) => p,
    };
    let j9 = match lit_at(s, j8, "}") {
        None => {
            return None;
        },
        Some(j) => j,
    };
    let rule = MappingRule {
        pattern: chars_to_string(&pattern),
        http_method: chars_to_string(&http_method),
        metric_system_name: chars_to_string(&metric_system_name),
        delta,
    };
    Some((rule, j9))
}

fn parse_rule_items_x(s: &Vec<char>, i: usize, acc: Vec<MappingRule>) -> (r: Option<
    (Vec<MappingRule>, usize),
>)
    ensures
        (match r {
            Some((out, e)) => parse_rule_items(s@, i as int, acc.deep_view()) == Some(
                (out.deep_view(), e as int),
            ) && i < e <= s@.len(),
            None => parse_rule_items(s@, i as int, acc.deep_view()) is None,
        }),
    decreases s@.len() - i,
{
    match parse_rule_x(s, i) {
        None => None,
        Some((rule, j)) => {
            let ghost item = rule@;
            let mut acc2 = acc;
            let ghost acc0 = acc2.deep_view();
            acc2.push(rule);
            assert(acc2.deep_view() =~= acc0.push(item));
            if j < s.len() && s[j] == ',' {
                parse_rule_items_x(s, j + 1, acc2)
            } else if j < s.len() && s[j] == ']' {
                Some((acc2, j + 1))
            } else {
                None
            }
        },
    }
}

fn parse_rule_arr_x(s: &Vec<char>, i: usize) -> (r: Option<(Vec<MappingRule>, usize)>)
    ensures
        (match r {
            Some((out, e)) => parse_rule_arr(s@, i as int) == Some((out.deep_view(), e as int))
                && i < e <= s@.len(),
            None => parse_rule_arr(s@, i as int) is None,
        }),
{
    if i < s.len() && s[i] == '[' {
        if i + 1 < s.len() && s[i + 1] == ']' {
            let out: Vec<MappingRule> = Vec::new();
            assert(out.deep_view() =~= Seq::<MappingRuleView>::empty());
            Some((out, i + 2))
        } else {
            let acc: Vec<MappingRule> = Vec::new();
            assert(acc.deep_view() =~= Seq::<MappingRuleView>::empty());
            parse_rule_items_x(s, i + 1, acc)
        }
    } else {
        None
    }
}

fn skip_scan_x(s: &Vec<char>, i: usize, depth: usize, in_str: bool, esc: bool) -> (r: Option<
    usize,
>)
    requires
        depth <= i,
    ensures
        (match r {
            Some(e) => skip_scan(s@, i as int, depth as nat, in_str, esc) == Some(e as int) && i
                < e <= s@.len(),
            None => skip_scan(s@, i as int, depth as nat, in_str, esc) is None,
        }),
    decreases s@.len() - i,
{
    if i >= s.len() {
        return None;
    }
    let c: char = s[i];
    if in_str {
        if esc {
            skip_scan_x(s, i + 1, depth, true, false)
        } else if c == '\\' {
            skip_scan_x(s, i + 1, depth, true, true)
        } else if c == '"' {
            if depth == 0 {
                Some(i + 1)
            } else {
                skip_scan_x(s, i + 1, depth, false, false)
            }
        } else {
            skip_scan_x(s, i + 1, depth, true, false)
        }
    } else {
        if c == '{' || c == '[' {
            skip_scan_x(s, i + 1, depth + 1, false, false)
        } else if c == '}' || c == ']' {
            if depth <= 1 {
                Some(i + 1)
            } else {
                skip_scan_x(s, i + 1, depth - 1, false, false)
            }
        } else if c == '"' {
            skip_scan_x(s, i + 1, depth, true, false)
        } else {
            skip_scan_x(s, i + 1, depth, false, false)
        }
    }
}

fn skip_prim_rest_x(s: &Vec<char>, i: usize) -> (r: Option<usize>)
    ensures
        (match r {
            Some(e) => skip_prim_rest(s@, i as int) == Some(e as int) && i <= e <= s@.len(),
            None => skip_prim_rest(s@, i as int) is None,
        }),
    decreases s@.len() - i,
{
    if i > s.len() {
        return None;
    }
    if i == s.len() {
        return Some(i);
    }
    let c: char = s[i];
    if c == ',' || c == '}' || c == ']' {
        Some(i)
    } else {
        skip_prim_rest_x(s, i + 1)
    }
}

fn skip_value_x(s: &Vec<char>, i: usize) -> (r: Option<usize>)
    ensures
        (match r {
            Some(e) => skip_value(s@, i as int) == Some(e as int) && i < e <= s@.len(),
            None => skip_value(s@, i as int) is None,
        }),
{
    if i >= s.len() {
        return None;
    }
    let c: char = s[i];
    if c == '"' {
        skip_scan_x(s, i + 1, 0, true, false)
    } else if c == '{' || c == '[' {
        skip_scan_x(s, i + 1, 1, false, false)
    } else if c == ',' || c == '}' || c == ']' || c == ':' {
        None
    } else {
        skip_prim_rest_x(s, i + 1)
    }
}

fn parse_extras_x(s: &Vec<char>, i: usize) -> (r: Option<usize>)
    ensures
        (match r {
            Some(e) => parse_extras(s@, i as int) == Some(e as int) && i < e <= s@.len(),
            None => parse_extras(s@, i as int) is None,
        }),
    decreases s@.len() - i,
{
    if i >= s.len() {
        return None;
    }
    let c: char = s[i];
    if c == '}' {
        Some(i + 1)
    } else if c == ',' {
        match parse_string_x(s, i + 1) {
            None => None,
            Some((_k, j)) => {
                if j < s.len() && s[j] == ':' {
                    match skip_value_x(s, j + 1) {
                        None => None,
                        Some(e) => parse_extras_x(s, e),
                    }
                } else {
                    None
                }
            },
        }
    } else {
        None
    }
}

/// Parses a complete `Service` descriptor; the object must span the whole
/// input.
pub fn parse_service(s: &str) -> (r: Option<Service>)
    ensures
        (match r {
            Some(svc) => spec_parse_service(s@) == Some(svc@),
            None => spec_parse_service(s@) is None,
        }),
{
    let chars = crate::text::chars_of_str(s);
    let j1 = match lit_at(&chars, 0, "{\"id\":") {
        None => {
            return None;
        },
        Some(j) => j,
    };
    let (id, j2) = match parse_u32_x(&chars, j1) {
        None => {
            return None;
        },
        Some(p) => p,
    };
    let j3 = match lit_at(&chars, j2, ",\"hosts\":") {
        None => {
            return None;
        },
        Some(j) => j,
    };
    let (hosts, j4) = match parse_str_arr_x(&chars, j3) {
        None => {
            return None;
        },
        Some(p) => p,
    };
    let j5 = match lit_at(&chars, j4, ",\"policies\":") {
        None => {
            return None;
        },
        Some(j) => j,
    };
    let (policies, j6) = match parse_str_arr_x(&chars, j5) {
        None => {
            return None;
        },
        Some(p) => p,
    };
    let j7 = match lit_at(&chars, j6, ",\"target_domain\":") {
        None => {
            return None;
        },
        Some(j) => j,
    };
    let (target_domain, j8) = match parse_string_x(&chars, j7) {
        None => {
            return None;
        },
        Some(p) => p,
    };
    let j9 = match lit_at(&chars, j8, ",\"proxy_rules\":") {
        None => {
            return None;
        },
        Some(j) => j,
    };
    let (proxy_rules, j10) = match parse_rule_arr_x(&chars, j9) {
        None => {
            return None;
        },
        Some(p) => p,
    };
    let j11 = match parse_extras_x(&chars, j10) {
        None => {
            return None;
        },
        Some(j) => j,
    };
    if j11 != chars.len() {
        return None;
    }
    let svc = Service {
        id,
        hosts,
        policies,
        target_domain: chars_to_string(&target_domain),
        proxy_rules,
    };
    Some(svc)
}

} // verus!
