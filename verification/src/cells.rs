//! Cell builders: each takes one optional raw value and yields the display
//! text of one table cell. Every builder is total — an absent value yields
//! the placeholder, never an omitted cell — so column alignment is kept
//! across rows whose absent fields differ.

use vstd::prelude::*;
use vstd::string::*;
use crate::format::{Amount, Price, dec_digits, spec_amount, spec_price_cents,
    spec_price_fraction, format_amount, format_price_cents, format_price_fraction,
    u64_to_string};
use crate::text::{placeholder_seq, placeholder_string, join_with, join_strings};

verus! {

/// The display text of an optional text field.
pub open spec fn cell_opt_str(v: Option<String>) -> Seq<char> {
    match v {
        Some(s) => s@,
        None => placeholder_seq(),
    }
}

/// Renders an optional text field.
pub fn render_opt_str(v: &Option<String>) -> (r: String)
    ensures
        r@ == cell_opt_str(*v),
{
    match v {
        Some(s) => s.clone(),
        None => placeholder_string(),
    }
}

/// The display text of an optional amount.
pub open spec fn cell_opt_amount(v: Option<Amount>) -> Seq<char> {
    match v {
        Some(a) => spec_amount(a.cents as nat),
        None => placeholder_seq(),
    }
}

/// Renders an optional amount.
pub fn render_opt_amount(v: &Option<Amount>) -> (r: String)
    ensures
        r@ == cell_opt_amount(*v),
{
    match v {
        Some(a) => format_amount(*a),
        None => placeholder_string(),
    }
}

/// The summary display text of an optional price: rescaled to cents.
pub open spec fn cell_opt_price_cents(v: Option<Price>) -> Seq<char> {
    match v {
        Some(p) => spec_price_cents(p.ten_thousandths as nat),
        None => placeholder_seq(),
    }
}

/// Renders an optional price for a summary column.
pub fn render_opt_price_cents(v: &Option<Price>) -> (r: String)
    ensures
        r@ == cell_opt_price_cents(*v),
{
    match v {
        Some(p) => format_price_cents(*p),
        None => placeholder_string(),
    }
}

/// The detail display text of an optional price: the raw fraction.
pub open spec fn cell_opt_price_fraction(v: Option<Price>) -> Seq<char> {
    match v {
        Some(p) => spec_price_fraction(p.ten_thousandths as nat),
        None => placeholder_seq(),
    }
}

/// Renders an optional price for a detail view.
pub fn render_opt_price_fraction(v: &Option<Price>) -> (r: String)
    ensures
        r@ == cell_opt_price_fraction(*v),
{
    match v {
        Some(p) => format_price_fraction(*p),
        None => placeholder_string(),
    }
}

/// The display text of a boolean.
pub open spec fn bool_text(b: bool) -> Seq<char> {
    if b {
        "true"@
    } else {
        "false"@
    }
}

/// The display text of an optional boolean flag.
pub open spec fn cell_opt_bool(v: Option<bool>) -> Seq<char> {
    match v {
        Some(b) => bool_text(b),
        None => placeholder_seq(),
    }
}

/// Renders an optional boolean flag.
pub fn render_opt_bool(v: &Option<bool>) -> (r: String)
    ensures
        r@ == cell_opt_bool(*v),
{
    match v {
        Some(b) => if *b {
            "true".to_owned()
        } else {
            "false".to_owned()
        },
        None => placeholder_string(),
    }
}

/// The display text of an optional counter.
pub open spec fn cell_opt_u64(v: Option<u64>) -> Seq<char> {
    match v {
        Some(n) => dec_digits(n as nat),
        None => placeholder_seq(),
    }
}

/// Renders an optional counter.
pub fn render_opt_u64(v: &Option<u64>) -> (r: String)
    ensures
        r@ == cell_opt_u64(*v),
{
    match v {
        Some(n) => u64_to_string(*n),
        None => placeholder_string(),
    }
}

/// The detail display text of a returned list of already-formatted items:
/// a returned empty list shows the distinct "None" marker, a non-empty one
/// joins its items with the given separator. An absent list is handled by
/// the caller with the standard placeholder, keeping "returned empty" and
/// "not returned" apart.
pub open spec fn list_text(items: Seq<Seq<char>>, sep: Seq<char>) -> Seq<char> {
    if items.len() == 0 {
        "None"@
    } else {
        join_with(items, sep)
    }
}

/// Renders a returned list of already-formatted items.
pub fn render_list(items: &Vec<String>, sep: &str) -> (r: String)
    ensures
        r@ == list_text(items.deep_view(), sep@),
{
    if items.len() == 0 {
        "None".to_owned()
    } else {
        join_strings(items, sep)
    }
}

/// The detail display text of an optional list of plain strings.
pub open spec fn cell_opt_str_list(v: Option<Vec<String>>, sep: Seq<char>) -> Seq<char> {
    match v {
        Some(l) => list_text(l.deep_view(), sep),
        None => placeholder_seq(),
    }
}

/// Renders an optional list of plain strings.
pub fn render_opt_str_list(v: &Option<Vec<String>>, sep: &str) -> (r: String)
    ensures
        r@ == cell_opt_str_list(*v, sep@),
{
    match v {
        Some(l) => render_list(l, sep),
        None => placeholder_string(),
    }
}

/// The detail display text of an optional list of prices, each at
/// four-decimal precision.
pub open spec fn cell_opt_price_list(v: Option<Vec<Price>>, sep: Seq<char>) -> Seq<char> {
    match v {
        Some(l) => list_text(
            l@.map(|i: int, p: Price| spec_price_fraction(p.ten_thousandths as nat)),
            sep,
        ),
        None => placeholder_seq(),
    }
}

/// Renders an optional list of prices for a detail view.
pub fn render_opt_price_list(v: &Option<Vec<Price>>, sep: &str) -> (r: String)
    ensures
        r@ == cell_opt_price_list(*v, sep@),
{
    match v {
        Some(l) => {
            let ghost target = l@.map(
                |i: int, p: Price| spec_price_fraction(p.ten_thousandths as nat),
            );
            let mut items: Vec<String> = Vec::new();
            let mut i: usize = 0;
            while i < l.len()
                invariant
                    i <= l@.len(),
                    target == l@.map(
                        |j: int, p: Price| spec_price_fraction(p.ten_thousandths as nat),
                    ),
                    items@.len() == i,
                    forall|j: int| 0 <= j < i ==> items.deep_view()[j] == target[j],
                decreases l@.len() - i,
            {
                let s = format_price_fraction(l[i]);
                items.push(s);
                i += 1;
            }
            proof {
                assert(items.deep_view() =~= target);
            }
            render_list(&items, sep)
        },
        None => placeholder_string(),
    }
}

/// Appends one label/value pair, keeping the view in step.
pub fn push_pair(rows: &mut Vec<(String, String)>, k: String, v: String)
    ensures
        final(rows).deep_view() == old(rows).deep_view().push((k@, v@)),
{
    let ghost prev = rows.deep_view();
    let ghost kv = (k@, v@);
    rows.push((k, v));
    proof {
        assert(rows.deep_view() =~= prev.push(kv));
    }
}

} // verus!
