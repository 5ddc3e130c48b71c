//! A small JSON writer for the machine-readable output mode.
//!
//! JSON mode is a structural passthrough of the fetched record: fields that
//! are absent upstream are omitted, present ones are emitted under their
//! upstream key, and no display decision (placeholder, truncation) leaks in.
//! The writer is verified down to the character sequence it produces.

use vstd::prelude::*;
use vstd::string::*;
use crate::cells::{bool_text, push_pair};
use crate::format::{Amount, Price, chars_to_string, dec_digits, format_amount_plain,
    format_price_fraction, spec_amount_plain, spec_price_fraction, u64_to_string};
use crate::text::join_with;

verus! {

/// The hexadecimal digit character for one value below sixteen.
pub open spec fn hex_char(d: int) -> char {
    if d == 0 { '0' }
    else if d == 1 { '1' }
    else if d == 2 { '2' }
    else if d == 3 { '3' }
    else if d == 4 { '4' }
    else if d == 5 { '5' }
    else if d == 6 { '6' }
    else if d == 7 { '7' }
    else if d == 8 { '8' }
    else if d == 9 { '9' }
    else if d == 10 { 'a' }
    else if d == 11 { 'b' }
    else if d == 12 { 'c' }
    else if d == 13 { 'd' }
    else if d == 14 { 'e' }
    else { 'f' }
}

/// The escape of one character inside a JSON string literal.
pub open spec fn esc_char(c: char) -> Seq<char> {
    if c == '"' {
        seq!['\\', '"']
    } else if c == '\\' {
        seq!['\\', '\\']
    } else if c == '\n' {
        seq!['\\', 'n']
    } else if c == '\r' {
        seq!['\\', 'r']
    } else if c == '\t' {
        seq!['\\', 't']
    } else if (c as int) < 32 {
        seq!['\\', 'u', '0', '0', hex_char(c as int / 16), hex_char(c as int % 16)]
    } else {
        seq![c]
    }
}

/// The body of a JSON string literal: every character escaped as needed.
pub open spec fn json_escape(s: Seq<char>) -> Seq<char>
    decreases s.len(),
{
    if s.len() == 0 {
        Seq::empty()
    } else {
        json_escape(s.drop_last()) + esc_char(s.last())
    }
}

/// A character that a JSON string literal carries unchanged.
pub open spec fn plain_char(c: char) -> bool {
    c != '"' && c != '\\' && (c as int) >= 32
}

/// Escaping text made of plain characters leaves it unchanged.
pub proof fn lemma_json_escape_plain(s: Seq<char>)
    requires
        forall|i: int| 0 <= i < s.len() ==> plain_char(#[trigger] s[i]),
    ensures
        json_escape(s) == s,
    decreases s.len(),
{
    if s.len() > 0 {
        lemma_json_escape_plain(s.drop_last());
        assert(esc_char(s.last()) =~= seq![s.last()]);
        assert(json_escape(s) =~= s);
    } else {
        assert(json_escape(s) =~= s);
    }
}

/// A JSON string literal with its quotes.
pub open spec fn json_string(s: Seq<char>) -> Seq<char> {
    seq!['"'] + json_escape(s) + seq!['"']
}

/// A JSON array from already-rendered element texts.
pub open spec fn json_array(items: Seq<Seq<char>>) -> Seq<char> {
    seq!['['] + join_with(items, seq![',']) + seq![']']
}

/// One rendered object member: quoted key, colon, rendered value.
pub open spec fn json_member(f: (Seq<char>, Seq<char>)) -> Seq<char> {
    json_string(f.0) + seq![':'] + f.1
}

/// A JSON object from keys and already-rendered value texts.
pub open spec fn json_object(fields: Seq<(Seq<char>, Seq<char>)>) -> Seq<char> {
    seq!['{'] + join_with(fields.map(|i: int, f: (Seq<char>, Seq<char>)| json_member(f)), seq![','])
        + seq!['}']
}

/// Whether a field list carries the given key.
pub open spec fn has_key(fields: Seq<(Seq<char>, Seq<char>)>, k: Seq<char>) -> bool {
    exists|i: int| 0 <= i < fields.len() && fields[i].0 == k
}

/// A key is carried by an extended field list exactly when the list already
/// carried it or the appended member carries it.
pub broadcast proof fn lemma_has_key_push(
    a: Seq<(Seq<char>, Seq<char>)>,
    p: (Seq<char>, Seq<char>),
    k: Seq<char>,
)
    ensures
        #[trigger] has_key(a.push(p), k) <==> has_key(a, k) || p.0 == k,
{
    if has_key(a, k) {
        let i = choose|i: int| 0 <= i < a.len() && a[i].0 == k;
        assert(a.push(p)[i].0 == k);
    }
    if p.0 == k {
        assert(a.push(p)[a.len() as int].0 == k);
    }
    if has_key(a.push(p), k) {
        let i = choose|i: int| 0 <= i < a.push(p).len() && a.push(p)[i].0 == k;
        if i < a.len() {
            assert(a[i].0 == k);
        }
    }
}

/// A one-member field list carries exactly its own key.
pub broadcast proof fn lemma_has_key_single(p: (Seq<char>, Seq<char>), k: Seq<char>)
    ensures
        #[trigger] has_key(seq![p], k) <==> p.0 == k,
{
    if p.0 == k {
        assert(seq![p][0].0 == k);
    }
}

/// Key membership through an optional text field.
pub broadcast proof fn lemma_has_key_opt_str(
    f: Seq<(Seq<char>, Seq<char>)>,
    k2: Seq<char>,
    v: Option<String>,
    k: Seq<char>,
)
    ensures
        #[trigger] has_key(opt_str_field(f, k2, v), k) <==> has_key(f, k) || (v is Some && k2
            == k),
{
    broadcast use lemma_has_key_push;

}

/// Key membership through an optional amount field.
pub broadcast proof fn lemma_has_key_opt_amount(
    f: Seq<(Seq<char>, Seq<char>)>,
    k2: Seq<char>,
    v: Option<Amount>,
    k: Seq<char>,
)
    ensures
        #[trigger] has_key(opt_amount_field(f, k2, v), k) <==> has_key(f, k) || (v is Some && k2
            == k),
{
    broadcast use lemma_has_key_push;

}

/// Key membership through an optional price field.
pub broadcast proof fn lemma_has_key_opt_price(
    f: Seq<(Seq<char>, Seq<char>)>,
    k2: Seq<char>,
    v: Option<Price>,
    k: Seq<char>,
)
    ensures
        #[trigger] has_key(opt_price_field(f, k2, v), k) <==> has_key(f, k) || (v is Some && k2
            == k),
{
    broadcast use lemma_has_key_push;

}

/// Key membership through an optional boolean field.
pub broadcast proof fn lemma_has_key_opt_bool(
    f: Seq<(Seq<char>, Seq<char>)>,
    k2: Seq<char>,
    v: Option<bool>,
    k: Seq<char>,
)
    ensures
        #[trigger] has_key(opt_bool_field(f, k2, v), k) <==> has_key(f, k) || (v is Some && k2
            == k),
{
    broadcast use lemma_has_key_push;

}

/// Key membership through an optional counter field.
pub broadcast proof fn lemma_has_key_opt_u64(
    f: Seq<(Seq<char>, Seq<char>)>,
    k2: Seq<char>,
    v: Option<u64>,
    k: Seq<char>,
)
    ensures
        #[trigger] has_key(opt_u64_field(f, k2, v), k) <==> has_key(f, k) || (v is Some && k2
            == k),
{
    broadcast use lemma_has_key_push;

}

/// Key membership through an optional string-list field.
pub broadcast proof fn lemma_has_key_opt_str_list(
    f: Seq<(Seq<char>, Seq<char>)>,
    k2: Seq<char>,
    v: Option<Vec<String>>,
    k: Seq<char>,
)
    ensures
        #[trigger] has_key(opt_str_list_field(f, k2, v), k) <==> has_key(f, k) || (v is Some
            && k2 == k),
{
    broadcast use lemma_has_key_push;

}

/// Key membership through an optional price-list field.
pub broadcast proof fn lemma_has_key_opt_price_list(
    f: Seq<(Seq<char>, Seq<char>)>,
    k2: Seq<char>,
    v: Option<Vec<Price>>,
    k: Seq<char>,
)
    ensures
        #[trigger] has_key(opt_price_list_field(f, k2, v), k) <==> has_key(f, k) || (v is Some
            && k2 == k),
{
    broadcast use lemma_has_key_push;

}

/// The field list extended by an optional text field, when present.
pub open spec fn opt_str_field(
    f: Seq<(Seq<char>, Seq<char>)>,
    k: Seq<char>,
    v: Option<String>,
) -> Seq<(Seq<char>, Seq<char>)> {
    match v {
        Some(s) => f.push((k, json_string(s@))),
        None => f,
    }
}

/// The field list extended by an optional amount, when present.
pub open spec fn opt_amount_field(
    f: Seq<(Seq<char>, Seq<char>)>,
    k: Seq<char>,
    v: Option<Amount>,
) -> Seq<(Seq<char>, Seq<char>)> {
    match v {
        Some(a) => f.push((k, spec_amount_plain(a.cents as nat))),
        None => f,
    }
}

/// The field list extended by an optional price fraction, when present.
pub open spec fn opt_price_field(
    f: Seq<(Seq<char>, Seq<char>)>,
    k: Seq<char>,
    v: Option<Price>,
) -> Seq<(Seq<char>, Seq<char>)> {
    match v {
        Some(p) => f.push((k, spec_price_fraction(p.ten_thousandths as nat))),
        None => f,
    }
}

/// The field list extended by an optional boolean, when present.
pub open spec fn opt_bool_field(
    f: Seq<(Seq<char>, Seq<char>)>,
    k: Seq<char>,
    v: Option<bool>,
) -> Seq<(Seq<char>, Seq<char>)> {
    match v {
        Some(b) => f.push((k, bool_text(b))),
        None => f,
    }
}

/// The field list extended by an optional counter, when present.
pub open spec fn opt_u64_field(
    f: Seq<(Seq<char>, Seq<char>)>,
    k: Seq<char>,
    v: Option<u64>,
) -> Seq<(Seq<char>, Seq<char>)> {
    match v {
        Some(n) => f.push((k, dec_digits(n as nat))),
        None => f,
    }
}

/// The field list extended by an optional string list, when present.
pub open spec fn opt_str_list_field(
    f: Seq<(Seq<char>, Seq<char>)>,
    k: Seq<char>,
    v: Option<Vec<String>>,
) -> Seq<(Seq<char>, Seq<char>)> {
    match v {
        Some(l) => f.push((k, json_array(l.deep_view().map(
            |i: int, s: Seq<char>| json_string(s),
        )))),
        None => f,
    }
}

/// The field list extended by an optional price list, when present.
pub open spec fn opt_price_list_field(
    f: Seq<(Seq<char>, Seq<char>)>,
    k: Seq<char>,
    v: Option<Vec<Price>>,
) -> Seq<(Seq<char>, Seq<char>)> {
    match v {
        Some(l) => f.push((k, json_array(l@.map(
            |i: int, p: Price| spec_price_fraction(p.ten_thousandths as nat),
        )))),
        None => f,
    }
}

/// Appends the characters of `s` to `out`.
pub(crate) fn push_str_chars(out: &mut Vec<char>, s: &str)
    ensures
        final(out)@ == old(out)@ + s@,
{
    let n = s.unicode_len();
    let mut i: usize = 0;
    while i < n
        invariant
            i <= n,
            n == s@.len(),
            out@ == old(out)@ + s@.subrange(0, i as int),
        decreases n - i,
    {
        let c = s.get_char(i);
        out.push(c);
        proof {
            assert(s@.subrange(0, i + 1 as int) =~= s@.subrange(0, i as int).push(s@[i as int]));
        }
        i += 1;
    }
    proof {
        assert(s@.subrange(0, n as int) =~= s@);
    }
}

/// The hexadecimal digit character for one value below sixteen.
fn hex_char_exec(d: u32) -> (r: char)
    requires
        d < 16,
    ensures
        r == hex_char(d as int),
{
    if d == 0 { '0' }
    else if d == 1 { '1' }
    else if d == 2 { '2' }
    else if d == 3 { '3' }
    else if d == 4 { '4' }
    else if d == 5 { '5' }
    else if d == 6 { '6' }
    else if d == 7 { '7' }
    else if d == 8 { '8' }
    else if d == 9 { '9' }
    else if d == 10 { 'a' }
    else if d == 11 { 'b' }
    else if d == 12 { 'c' }
    else if d == 13 { 'd' }
    else if d == 14 { 'e' }
    else { 'f' }
}

/// Appends the escape of one character to `out`.
fn push_esc_char(out: &mut Vec<char>, c: char)
    ensures
        final(out)@ == old(out)@ + esc_char(c),
{
    if c == '"' {
        out.push('\\');
        out.push('"');
    } else if c == '\\' {
        out.push('\\');
        out.push('\\');
    } else if c == '\n' {
        out.push('\\');
        out.push('n');
    } else if c == '\r' {
        out.push('\\');
        out.push('r');
    } else if c == '\t' {
        out.push('\\');
        out.push('t');
    } else if (c as u32) < 32 {
        out.push('\\');
        out.push('u');
        out.push('0');
        out.push('0');
        let h1 = hex_char_exec((c as u32) / 16);
        out.push(h1);
        let h2 = hex_char_exec((c as u32) % 16);
        out.push(h2);
    } else {
        out.push(c);
    }
    proof {
        assert(out@ =~= old(out)@ + esc_char(c));
    }
}

/// Appends the escaped body of a JSON string literal to `out`.
fn push_escaped(out: &mut Vec<char>, s: &str)
    ensures
        final(out)@ == old(out)@ + json_escape(s@),
{
    let n = s.unicode_len();
    let mut i: usize = 0;
    while i < n
        invariant
            i <= n,
            n == s@.len(),
            out@ == old(out)@ + json_escape(s@.subrange(0, i as int)),
        decreases n - i,
    {
        let c = s.get_char(i);
        push_esc_char(out, c);
        proof {
            let cur = s@.subrange(0, i + 1 as int);
            assert(cur.drop_last() =~= s@.subrange(0, i as int));
            assert(cur.last() == s@[i as int]);
        }
        i += 1;
    }
    proof {
        assert(s@.subrange(0, n as int) =~= s@);
    }
}

/// Appends a complete JSON string literal to `out`.
pub(crate) fn push_json_string(out: &mut Vec<char>, s: &str)
    ensures
        final(out)@ == old(out)@ + json_string(s@),
{
    out.push('"');
    push_escaped(out, s);
    out.push('"');
    proof {
        assert(out@ =~= old(out)@ + json_string(s@));
    }
}

/// Renders a string value as a JSON string literal.
pub fn json_string_of(s: &str) -> (r: String)
    ensures
        r@ == json_string(s@),
{
    let mut v: Vec<char> = Vec::new();
    push_json_string(&mut v, s);
    chars_to_string(&v)
}

/// Renders a JSON array from already-rendered element texts.
pub fn render_json_array(items: &Vec<String>) -> (r: String)
    ensures
        r@ == json_array(items.deep_view()),
{
    let mut v: Vec<char> = Vec::new();
    v.push('[');
    let mut i: usize = 0;
    while i < items.len()
        invariant
            i <= items@.len(),
            forall|j: int| 0 <= j < items@.len() ==> items.deep_view()[j] == items@[j]@,
            v@ == seq!['['] + join_with(items.deep_view().subrange(0, i as int), seq![',']),
        decreases items@.len() - i,
    {
        if i > 0 {
            v.push(',');
        }
        push_str_chars(&mut v, items[i].as_str());
        proof {
            let all = items.deep_view();
            let cur = all.subrange(0, i + 1 as int);
            assert(cur.drop_last() =~= all.subrange(0, i as int));
            assert(cur.last() == all[i as int]);
            assert(v@ =~= seq!['['] + join_with(cur, seq![',']));
        }
        i += 1;
    }
    v.push(']');
    proof {
        assert(items.deep_view().subrange(0, items@.len() as int) =~= items.deep_view());
        assert(v@ =~= json_array(items.deep_view()));
    }
    chars_to_string(&v)
}

/// Renders a boolean as a bare JSON value.
pub fn json_bool_of(b: bool) -> (r: String)
    ensures
        r@ == bool_text(b),
{
    if b {
        "true".to_owned()
    } else {
        "false".to_owned()
    }
}

/// Renders a list of plain strings as a JSON array of string literals.
pub fn json_str_array(l: &Vec<String>) -> (r: String)
    ensures
        r@ == json_array(l.deep_view().map(|i: int, s: Seq<char>| json_string(s))),
{
    let ghost target = l.deep_view().map(|i: int, s: Seq<char>| json_string(s));
    let mut items: Vec<String> = Vec::new();
    let mut i: usize = 0;
    while i < l.len()
        invariant
            i <= l@.len(),
            target == l.deep_view().map(|j: int, s: Seq<char>| json_string(s)),
            target.len() == l@.len(),
            forall|j: int| 0 <= j < l@.len() ==> l.deep_view()[j] == l@[j]@,
            items@.len() == i,
            forall|j: int| 0 <= j < i ==> items.deep_view()[j] == target[j],
        decreases l@.len() - i,
    {
        let s = json_string_of(l[i].as_str());
        items.push(s);
        i += 1;
    }
    proof {
        assert(items.deep_view() =~= target);
    }
    render_json_array(&items)
}

/// Renders a list of prices as a JSON array of four-decimal fractions.
pub fn json_price_array(l: &Vec<Price>) -> (r: String)
    ensures
        r@ == json_array(l@.map(|i: int, p: Price| spec_price_fraction(p.ten_thousandths as nat))),
{
    let ghost target = l@.map(|i: int, p: Price| spec_price_fraction(p.ten_thousandths as nat));
    let mut items: Vec<String> = Vec::new();
    let mut i: usize = 0;
    while i < l.len()
        invariant
            i <= l@.len(),
            target == l@.map(|j: int, p: Price| spec_price_fraction(p.ten_thousandths as nat)),
            target.len() == l@.len(),
            items@.len() == i,
            forall|j: int| 0 <= j < i ==> items.deep_view()[j] == target[j],
        decreases l@.len() - i,
    {
        let s = format_price_fraction(l[i]);
        items.push(s);
        i += 1;
    }
    proof {
        assert(items.deep_view() =~= target);
    }
    render_json_array(&items)
}

/// Appends an optional text field to an object's members, when present.
pub fn add_opt_str_field(fields: &mut Vec<(String, String)>, key: &str, v: &Option<String>)
    ensures
        final(fields).deep_view() == opt_str_field(old(fields).deep_view(), key@, *v),
{
    if let Some(s) = v {
        push_pair(fields, key.to_owned(), json_string_of(s.as_str()));
    }
}

/// Appends an optional amount field to an object's members, when present.
pub fn add_opt_amount_field(fields: &mut Vec<(String, String)>, key: &str, v: &Option<Amount>)
    ensures
        final(fields).deep_view() == opt_amount_field(old(fields).deep_view(), key@, *v),
{
    if let Some(a) = v {
        push_pair(fields, key.to_owned(), format_amount_plain(*a));
    }
}

/// Appends an optional price field to an object's members, when present.
pub fn add_opt_price_field(fields: &mut Vec<(String, String)>, key: &str, v: &Option<Price>)
    ensures
        final(fields).deep_view() == opt_price_field(old(fields).deep_view(), key@, *v),
{
    if let Some(p) = v {
        push_pair(fields, key.to_owned(), format_price_fraction(*p));
    }
}

/// Appends an optional boolean field to an object's members, when present.
pub fn add_opt_bool_field(fields: &mut Vec<(String, String)>, key: &str, v: &Option<bool>)
    ensures
        final(fields).deep_view() == opt_bool_field(old(fields).deep_view(), key@, *v),
{
    if let Some(b) = v {
        push_pair(fields, key.to_owned(), json_bool_of(*b));
    }
}

/// Appends an optional counter field to an object's members, when present.
pub fn add_opt_u64_field(fields: &mut Vec<(String, String)>, key: &str, v: &Option<u64>)
    ensures
        final(fields).deep_view() == opt_u64_field(old(fields).deep_view(), key@, *v),
{
    if let Some(n) = v {
        push_pair(fields, key.to_owned(), u64_to_string(*n));
    }
}

/// Appends an optional string-list field to an object's members.
pub fn add_opt_str_list_field(
    fields: &mut Vec<(String, String)>,
    key: &str,
    v: &Option<Vec<String>>,
)
    ensures
        final(fields).deep_view() == opt_str_list_field(old(fields).deep_view(), key@, *v),
{
    if let Some(l) = v {
        push_pair(fields, key.to_owned(), json_str_array(l));
    }
}

/// Appends an optional price-list field to an object's members.
pub fn add_opt_price_list_field(
    fields: &mut Vec<(String, String)>,
    key: &str,
    v: &Option<Vec<Price>>,
)
    ensures
        final(fields).deep_view() == opt_price_list_field(old(fields).deep_view(), key@, *v),
{
    if let Some(l) = v {
        push_pair(fields, key.to_owned(), json_price_array(l));
    }
}

/// Renders a JSON object from keys and already-rendered value texts.
pub fn render_json_object(fields: &Vec<(String, String)>) -> (r: String)
    ensures
        r@ == json_object(fields.deep_view()),
{
    let ghost members = fields.deep_view().map(
        |i: int, f: (Seq<char>, Seq<char>)| json_member(f),
    );
    let mut v: Vec<char> = Vec::new();
    v.push('{');
    let mut i: usize = 0;
    while i < fields.len()
        invariant
            i <= fields@.len(),
            members == fields.deep_view().map(
                |j: int, f: (Seq<char>, Seq<char>)| json_member(f),
            ),
            members.len() == fields@.len(),
            forall|j: int| 0 <= j < fields@.len() ==> fields.deep_view()[j] == (
                fields@[j].0@,
                fields@[j].1@,
            ),
            v@ == seq!['{'] + join_with(members.subrange(0, i as int), seq![',']),
        decreases fields@.len() - i,
    {
        if i > 0 {
            v.push(',');
        }
        push_json_string(&mut v, fields[i].0.as_str());
        v.push(':');
        push_str_chars(&mut v, fields[i].1.as_str());
        proof {
            let cur = members.subrange(0, i + 1 as int);
            assert(cur.drop_last() =~= members.subrange(0, i as int));
            assert(members[i as int] == json_member(fields.deep_view()[i as int]));
            assert(v@ =~= seq!['{'] + join_with(cur, seq![',']));
        }
        i += 1;
    }
    v.push('}');
    proof {
        assert(members.subrange(0, fields@.len() as int) =~= members);
        assert(v@ =~= json_object(fields.deep_view()));
    }
    chars_to_string(&v)
}

} // verus!
