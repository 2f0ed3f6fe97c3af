//! The compact JSON wire form used on both sides of the control plane / data
//! plane boundary: string escaping, string arrays, and integer-valued
//! objects. Rendering is deterministic: no whitespace, members in the order
//! given.

use vstd::prelude::*;
use crate::text::{dec_of, push_dec_u32, push_str_chars};

verus! {

/// The rendering of one character inside a JSON string: `"` and `\` are
/// escaped, every other character stands as itself.
pub open spec fn esc_char(c: char) -> Seq<char> {
    if c == '"' {
        seq!['\\', '"']
    } else if c == '\\' {
        seq!['\\', '\\']
    } else {
        seq![c]
    }
}

/// The escaped body of a JSON string.
pub open spec fn json_escape(s: Seq<char>) -> Seq<char>
    decreases s.len(),
{
    if s.len() == 0 {
        Seq::<char>::empty()
    } else {
        esc_char(s[0]) + json_escape(s.drop_first())
    }
}

/// A JSON string: quoted, with `"` and `\` escaped.
pub open spec fn json_str_of(s: Seq<char>) -> Seq<char> {
    seq!['"'] + json_escape(s) + seq!['"']
}

/// The comma-joined tail of `items` starting at index `i`.
pub open spec fn join_from(items: Seq<Seq<char>>, i: int) -> Seq<char>
    decreases items.len() - i,
{
    if i < 0 || i >= items.len() {
        Seq::<char>::empty()
    } else if i == items.len() - 1 {
        items[i]
    } else {
        items[i] + seq![','] + join_from(items, i + 1)
    }
}

/// Already-rendered items joined with commas.
pub open spec fn join_comma(items: Seq<Seq<char>>) -> Seq<char> {
    join_from(items, 0)
}

/// A JSON array of already-rendered items.
pub open spec fn json_arr_of(items: Seq<Seq<char>>) -> Seq<char> {
    seq!['['] + join_comma(items) + seq![']']
}

/// A JSON array of strings.
pub open spec fn json_str_arr_of(ss: Seq<Seq<char>>) -> Seq<char> {
    seq!['['] + join_comma(ss.map_values(|s: Seq<char>| json_str_of(s))) + seq![']']
}

/// A JSON object whose values are unsigned integers, members in the order of
/// `entries`.
pub open spec fn json_u32_obj_of(entries: Seq<(Seq<char>, u32)>) -> Seq<char> {
    seq!['{'] + join_comma(
        entries.map_values(
            |e: (Seq<char>, u32)| json_str_of(e.0) + seq![':'] + dec_of(e.1 as nat),
        ),
    ) + seq!['}']
}

/// Appends the JSON string rendering of `s` to `out`.
pub fn push_json_str(out: &mut Vec<char>, s: &str)
    ensures
        final(out)@ == old(out)@ + json_str_of(s@),
{
    out.push('"');
    let n: usize = s.unicode_len();
    assert(s@.subrange(0, n as int) =~= s@);
    assert(out@ + json_escape(s@.subrange(0, n as int)) =~= old(out)@ + seq!['"'] + json_escape(
        s@,
    ));
    let mut i: usize = 0;
    while i < n
        invariant
            n == s@.len(),
            i <= n,
            out@ + json_escape(s@.subrange(i as int, n as int)) == old(out)@ + seq!['"']
                + json_escape(s@),
        decreases n - i,
    {
        let c: char = s.get_char(i);
        proof {
            let rest = s@.subrange(i as int, n as int);
            assert(rest.drop_first() =~= s@.subrange(i as int + 1, n as int));
            assert(json_escape(rest) == esc_char(c) + json_escape(
                s@.subrange(i as int + 1, n as int),
            ));
        }
        if c == '"' {
            out.push('\\');
            out.push('"');
        } else if c == '\\' {
            out.push('\\');
            out.push('\\');
        } else {
            out.push(c);
        }
        i = i + 1;
        assert(out@ + json_escape(s@.subrange(i as int, n as int)) =~= old(out)@ + seq!['"']
            + json_escape(s@));
    }
    assert(s@.subrange(0, n as int) =~= s@);
    assert(json_escape(s@.subrange(n as int, n as int)) =~= Seq::<char>::empty());
    out.push('"');
    assert(final(out)@ =~= old(out)@ + json_str_of(s@));
}

/// Appends the JSON array rendering of the strings in `a` to `out`.
pub fn push_json_str_arr(out: &mut Vec<char>, a: &Vec<String>)
    ensures
        final(out)@ == old(out)@ + json_str_arr_of(a.deep_view()),
{
    let ghost items = a.deep_view().map_values(|s: Seq<char>| json_str_of(s));
    out.push('[');
    let mut i: usize = 0;
    while i < a.len()
        invariant
            items == a.deep_view().map_values(|s: Seq<char>| json_str_of(s)),
            items.len() == a@.len(),
            i <= a@.len(),
            out@ + join_from(items, i as int) == old(out)@ + seq!['['] + join_from(items, 0),
        decreases a@.len() - i,
    {
        proof {
            assert(items[i as int] == json_str_of(a@[i as int].deep_view()));
        }
        push_json_str(out, a[i].as_str());
        if i + 1 < a.len() {
            out.push(',');
        }
        i = i + 1;
        assert(out@ + join_from(items, i as int) =~= old(out)@ + seq!['['] + join_from(items, 0));
    }
    out.push(']');
    assert(final(out)@ =~= old(out)@ + json_str_arr_of(a.deep_view()));
}

/// Appends the JSON object rendering of the integer-valued members in
/// `entries` to `out`.
pub fn push_json_u32_obj(out: &mut Vec<char>, entries: &Vec<(String, u32)>)
    ensures
        final(out)@ == old(out)@ + json_u32_obj_of(entries.deep_view()),
{
    let ghost items = entries.deep_view().map_values(
        |e: (Seq<char>, u32)| json_str_of(e.0) + seq![':'] + dec_of(e.1 as nat),
    );
    out.push('{');
    let mut i: usize = 0;
    while i < entries.len()
        invariant
            items == entries.deep_view().map_values(
                |e: (Seq<char>, u32)| json_str_of(e.0) + seq![':'] + dec_of(e.1 as nat),
            ),
            items.len() == entries@.len(),
            i <= entries@.len(),
            out@ + join_from(items, i as int) == old(out)@ + seq!['{'] + join_from(items, 0),
        decreases entries@.len() - i,
    {
        proof {
            assert(entries.deep_view()[i as int] == entries@[i as int].deep_view());
        }
        push_json_str(out, entries[i].0.as_str());
        out.push(':');
        push_dec_u32(out, entries[i].1);
        if i + 1 < entries.len() {
            out.push(',');
        }
        i = i + 1;
        assert(out@ + join_from(items, i as int) =~= old(out)@ + seq!['{'] + join_from(items, 0));
    }
    out.push('}');
    assert(final(out)@ =~= old(out)@ + json_u32_obj_of(entries.deep_view()));
}

} // verus!
