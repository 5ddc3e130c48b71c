//! Market views: the fixed-column summary row, the exhaustive detail view,
//! and the structural JSON form.

use vstd::prelude::*;
use vstd::string::*;
use crate::cells::{bool_text, cell_opt_amount, cell_opt_price_fraction, cell_opt_str,
    cell_opt_str_list, cell_opt_price_list, push_pair, render_opt_amount,
    render_opt_price_fraction, render_opt_str, render_opt_str_list, render_opt_price_list};
use crate::format::{Price, format_price_cents, format_amount_plain, spec_amount_plain,
    spec_price_cents, spec_price_fraction, format_price_fraction};
use crate::json::{json_array, json_object, json_string, json_string_of,
    has_key, lemma_has_key_single, lemma_has_key_opt_str, lemma_has_key_opt_amount,
    lemma_has_key_opt_price, lemma_has_key_opt_bool, lemma_has_key_opt_str_list,
    lemma_has_key_opt_price_list, opt_str_field, opt_amount_field, opt_price_field,
    opt_bool_field, opt_str_list_field, opt_price_list_field, add_opt_str_field,
    add_opt_amount_field, add_opt_price_field, add_opt_bool_field, add_opt_str_list_field,
    add_opt_price_list_field, render_json_object, render_json_array};
use crate::records::{Market, spec_status, spec_status_label, status_of, status_label};
use crate::table::{styled_table_of, render_table, detail_cells, render_detail_table};
use crate::text::{placeholder_seq, placeholder_string, spec_truncate, truncate};

verus! {

/// The summary columns of one market.
pub struct MarketRow {
    pub question: String,
    pub price_yes: String,
    pub volume: String,
    pub liquidity: String,
    pub status: String,
}

/// The summary question cell: the question, truncated for scanability.
pub open spec fn market_question_cell(m: Market) -> Seq<char> {
    spec_truncate(cell_opt_str(m.question), 60)
}

/// The summary price cell: the first outcome price rescaled to cents, or the
/// placeholder when no price was returned.
pub open spec fn market_price_yes_cell(m: Market) -> Seq<char> {
    match m.outcome_prices {
        Some(l) => if l@.len() > 0 {
            spec_price_cents(l@[0].ten_thousandths as nat)
        } else {
            placeholder_seq()
        },
        None => placeholder_seq(),
    }
}

/// The five summary cells of one market, in column order.
pub open spec fn market_row_cells(m: Market) -> Seq<Seq<char>> {
    seq![
        market_question_cell(m),
        market_price_yes_cell(m),
        cell_opt_amount(m.volume_num),
        cell_opt_amount(m.liquidity_num),
        spec_status_label(spec_status(m.closed, m.active)),
    ]
}

/// Projects one market onto its summary row.
pub fn market_to_row(m: &Market) -> (r: MarketRow)
    ensures
        r.question@ == market_question_cell(*m),
        r.price_yes@ == market_price_yes_cell(*m),
        r.volume@ == cell_opt_amount(m.volume_num),
        r.liquidity@ == cell_opt_amount(m.liquidity_num),
        r.status@ == spec_status_label(spec_status(m.closed, m.active)),
{
    let base = render_opt_str(&m.question);
    let question = truncate(base.as_str(), 60);
    let price_yes = match &m.outcome_prices {
        Some(l) => if l.len() > 0 {
            format_price_cents(l[0])
        } else {
            placeholder_string()
        },
        None => placeholder_string(),
    };
    MarketRow {
        question,
        price_yes,
        volume: render_opt_amount(&m.volume_num),
        liquidity: render_opt_amount(&m.liquidity_num),
        status: status_label(status_of(&m.closed, &m.active)),
    }
}

/// The summary table's header row.
pub open spec fn market_header() -> Seq<Seq<char>> {
    seq!["Question"@, "Price (Yes)"@, "Volume"@, "Liquidity"@, "Status"@]
}

/// Renders a market list as a summary table, or the fixed "no results"
/// message when the list is empty — never a header with zero data rows.
pub fn markets_table(ms: &Vec<Market>) -> (r: String)
    ensures
        ms@.len() == 0 ==> r@ == "No markets found."@,
        ms@.len() > 0 ==> r@ == styled_table_of(
            seq![market_header()] + ms@.map(|i: int, m: Market| market_row_cells(m)),
        ),
{
    let mut header: Vec<String> = Vec::new();
    header.push("Question".to_owned());
    header.push("Price (Yes)".to_owned());
    header.push("Volume".to_owned());
    header.push("Liquidity".to_owned());
    header.push("Status".to_owned());
    proof {
        assert(header.deep_view() =~= market_header());
    }
    let ghost target = ms@.map(|i: int, m: Market| market_row_cells(m));
    let mut rows: Vec<Vec<String>> = Vec::new();
    let mut k: usize = 0;
    while k < ms.len()
        invariant
            k <= ms@.len(),
            target == ms@.map(|i: int, m: Market| market_row_cells(m)),
            target.len() == ms@.len(),
            rows@.len() == k,
            forall|j: int| 0 <= j < k ==> rows.deep_view()[j] == target[j],
        decreases ms@.len() - k,
    {
        let row = market_to_row(&ms[k]);
        let mut cells: Vec<String> = Vec::new();
        cells.push(row.question);
        cells.push(row.price_yes);
        cells.push(row.volume);
        cells.push(row.liquidity);
        cells.push(row.status);
        proof {
            assert(cells.deep_view() =~= market_row_cells(ms@[k as int]));
        }
        let ghost prev = rows.deep_view();
        let ghost cdv = cells.deep_view();
        rows.push(cells);
        proof {
            assert(rows.deep_view() =~= prev.push(cdv));
        }
        k += 1;
    }
    proof {
        if ms@.len() > 0 {
            assert(rows.deep_view() =~= target);
        }
    }
    render_table(&header, &rows, "No markets found.")
}

/// The detail value for the outcome price list.
pub open spec fn market_prices_cell(m: Market) -> Seq<char> {
    cell_opt_price_list(m.outcome_prices, ", "@)
}

/// The ordered label/value pairs of a market's detail view. The label list
/// is fixed; a value backed by an absent field is the placeholder, and a
/// returned-but-empty collection shows the distinct "None" marker.
pub open spec fn spec_market_detail(m: Market) -> Seq<(Seq<char>, Seq<char>)> {
    seq![
        ("ID"@, m.id@),
        ("Question"@, cell_opt_str(m.question)),
        ("Slug"@, cell_opt_str(m.slug)),
        ("Outcomes"@, cell_opt_str_list(m.outcomes, ", "@)),
        ("Prices"@, market_prices_cell(m)),
        ("Volume"@, cell_opt_amount(m.volume_num)),
        ("Liquidity"@, cell_opt_amount(m.liquidity_num)),
        ("Volume (24hr)"@, cell_opt_amount(m.volume_24hr)),
        ("Best Bid"@, cell_opt_price_fraction(m.best_bid)),
        ("Best Ask"@, cell_opt_price_fraction(m.best_ask)),
        ("Spread"@, cell_opt_price_fraction(m.spread)),
        ("Last Trade"@, cell_opt_price_fraction(m.last_trade_price)),
        ("Status"@, spec_status_label(spec_status(m.closed, m.active))),
        ("Condition ID"@, cell_opt_str(m.condition_id)),
        ("CLOB Token IDs"@, cell_opt_str_list(m.clob_token_ids, ", "@)),
        ("Start Date"@, cell_opt_str(m.start_date)),
        ("End Date"@, cell_opt_str(m.end_date)),
        ("Description"@, cell_opt_str(m.description)),
        ("Resolution Source"@, cell_opt_str(m.resolution_source)),
    ]
}

/// Projects one market onto its ordered detail pairs.
pub fn market_detail(m: &Market) -> (r: Vec<(String, String)>)
    ensures
        r.deep_view() == spec_market_detail(*m),
{
    let mut rows: Vec<(String, String)> = Vec::new();
    push_pair(&mut rows, "ID".to_owned(), m.id.clone());
    push_pair(&mut rows, "Question".to_owned(), render_opt_str(&m.question));
    push_pair(&mut rows, "Slug".to_owned(), render_opt_str(&m.slug));
    push_pair(&mut rows, "Outcomes".to_owned(), render_opt_str_list(&m.outcomes, ", "));
    push_pair(&mut rows, "Prices".to_owned(), render_opt_price_list(&m.outcome_prices, ", "));
    push_pair(&mut rows, "Volume".to_owned(), render_opt_amount(&m.volume_num));
    push_pair(&mut rows, "Liquidity".to_owned(), render_opt_amount(&m.liquidity_num));
    push_pair(&mut rows, "Volume (24hr)".to_owned(), render_opt_amount(&m.volume_24hr));
    push_pair(&mut rows, "Best Bid".to_owned(), render_opt_price_fraction(&m.best_bid));
    push_pair(&mut rows, "Best Ask".to_owned(), render_opt_price_fraction(&m.best_ask));
    push_pair(&mut rows, "Spread".to_owned(), render_opt_price_fraction(&m.spread));
    push_pair(&mut rows, "Last Trade".to_owned(), render_opt_price_fraction(
        &m.last_trade_price,
    ));
    push_pair(&mut rows, "Status".to_owned(), status_label(status_of(&m.closed, &m.active)));
    push_pair(&mut rows, "Condition ID".to_owned(), render_opt_str(&m.condition_id));
    push_pair(&mut rows, "CLOB Token IDs".to_owned(), render_opt_str_list(
        &m.clob_token_ids,
        ", ",
    ));
    push_pair(&mut rows, "Start Date".to_owned(), render_opt_str(&m.start_date));
    push_pair(&mut rows, "End Date".to_owned(), render_opt_str(&m.end_date));
    push_pair(&mut rows, "Description".to_owned(), render_opt_str(&m.description));
    push_pair(&mut rows, "Resolution Source".to_owned(), render_opt_str(&m.resolution_source));
    proof {
        assert(rows.deep_view() =~= spec_market_detail(*m));
    }
    rows
}

/// Renders one market's detail view as a two-column table.
pub fn market_detail_table(m: &Market) -> (r: String)
    ensures
        r@ == styled_table_of(detail_cells(spec_market_detail(*m))),
{
    let pairs = market_detail(m);
    render_detail_table(&pairs)
}

/// The first members of a market's JSON form: the identifier always, then
/// the text fields, exactly when the fetch returned them.
pub open spec fn market_json_p1(m: Market) -> Seq<(Seq<char>, Seq<char>)> {
    let f = seq![("id"@, json_string(m.id@))];
    let f = opt_str_field(f, "question"@, m.question);
    let f = opt_str_field(f, "slug"@, m.slug);
    let f = opt_str_field(f, "description"@, m.description);
    let f = opt_str_list_field(f, "outcomes"@, m.outcomes);
    f
}

/// The members continued by the volume and liquidity figures.
pub open spec fn market_json_p2(m: Market) -> Seq<(Seq<char>, Seq<char>)> {
    let f = market_json_p1(m);
    let f = opt_price_list_field(f, "outcome_prices"@, m.outcome_prices);
    let f = opt_amount_field(f, "volume_num"@, m.volume_num);
    let f = opt_amount_field(f, "liquidity_num"@, m.liquidity_num);
    let f = opt_amount_field(f, "volume_24hr"@, m.volume_24hr);
    f
}

/// The members continued by the order-book figures and the two flags.
pub open spec fn market_json_p3(m: Market) -> Seq<(Seq<char>, Seq<char>)> {
    let f = market_json_p2(m);
    let f = opt_price_field(f, "best_bid"@, m.best_bid);
    let f = opt_price_field(f, "best_ask"@, m.best_ask);
    let f = opt_price_field(f, "spread"@, m.spread);
    let f = opt_price_field(f, "last_trade_price"@, m.last_trade_price);
    let f = opt_bool_field(f, "active"@, m.active);
    f
}

/// The object members of a market's JSON form: the identifier always, then
/// each optional field exactly when the fetch returned it.
pub open spec fn market_json_fields(m: Market) -> Seq<(Seq<char>, Seq<char>)> {
    let f = market_json_p3(m);
    let f = opt_bool_field(f, "closed"@, m.closed);
    let f = opt_str_field(f, "condition_id"@, m.condition_id);
    let f = opt_str_list_field(f, "clob_token_ids"@, m.clob_token_ids);
    let f = opt_str_field(f, "start_date"@, m.start_date);
    let f = opt_str_field(f, "end_date"@, m.end_date);
    let f = opt_str_field(f, "resolution_source"@, m.resolution_source);
    f
}

/// A market's JSON form: a structural passthrough of the fetched record.
pub open spec fn spec_market_json(m: Market) -> Seq<char> {
    json_object(market_json_fields(m))
}

/// Builds the first members of a market's JSON form.
fn market_json_p1_fields(m: &Market) -> (r: Vec<(String, String)>)
    ensures
        r.deep_view() == market_json_p1(*m),
{
    let mut fields: Vec<(String, String)> = Vec::new();
    push_pair(&mut fields, "id".to_owned(), json_string_of(m.id.as_str()));
    add_opt_str_field(&mut fields, "question", &m.question);
    add_opt_str_field(&mut fields, "slug", &m.slug);
    add_opt_str_field(&mut fields, "description", &m.description);
    add_opt_str_list_field(&mut fields, "outcomes", &m.outcomes);
    fields
}

/// Continues with the volume and liquidity figures.
fn market_json_p2_fields(m: &Market, fields: &mut Vec<(String, String)>)
    requires
        old(fields).deep_view() == market_json_p1(*m),
    ensures
        final(fields).deep_view() == market_json_p2(*m),
{
    add_opt_price_list_field(fields, "outcome_prices", &m.outcome_prices);
    add_opt_amount_field(fields, "volume_num", &m.volume_num);
    add_opt_amount_field(fields, "liquidity_num", &m.liquidity_num);
    add_opt_amount_field(fields, "volume_24hr", &m.volume_24hr);
}

/// Continues with the order-book figures and the first flag.
fn market_json_p3_fields(m: &Market, fields: &mut Vec<(String, String)>)
    requires
        old(fields).deep_view() == market_json_p2(*m),
    ensures
        final(fields).deep_view() == market_json_p3(*m),
{
    add_opt_price_field(fields, "best_bid", &m.best_bid);
    add_opt_price_field(fields, "best_ask", &m.best_ask);
    add_opt_price_field(fields, "spread", &m.spread);
    add_opt_price_field(fields, "last_trade_price", &m.last_trade_price);
    add_opt_bool_field(fields, "active", &m.active);
}

/// Serializes one market as JSON, omitting absent fields.
pub fn market_json(m: &Market) -> (r: String)
    ensures
        r@ == spec_market_json(*m),
{
    let mut fields = market_json_p1_fields(m);
    market_json_p2_fields(m, &mut fields);
    market_json_p3_fields(m, &mut fields);
    add_opt_bool_field(&mut fields, "closed", &m.closed);
    add_opt_str_field(&mut fields, "condition_id", &m.condition_id);
    add_opt_str_list_field(&mut fields, "clob_token_ids", &m.clob_token_ids);
    add_opt_str_field(&mut fields, "start_date", &m.start_date);
    add_opt_str_field(&mut fields, "end_date", &m.end_date);
    add_opt_str_field(&mut fields, "resolution_source", &m.resolution_source);
    render_json_object(&fields)
}

/// What a market list serializes to: a JSON array of the records' objects.
pub open spec fn spec_markets_json(ms: Seq<Market>) -> Seq<char> {
    json_array(ms.map(|i: int, m: Market| spec_market_json(m)))
}

/// Serializes a market list as a JSON array; an empty fetch yields the empty
/// array, not an error.
pub fn markets_json(ms: &Vec<Market>) -> (r: String)
    ensures
        r@ == spec_markets_json(ms@),
{
    let ghost target = ms@.map(|i: int, m: Market| spec_market_json(m));
    let mut items: Vec<String> = Vec::new();
    let mut i: usize = 0;
    while i < ms.len()
        invariant
            i <= ms@.len(),
            target == ms@.map(|j: int, m: Market| spec_market_json(m)),
            target.len() == ms@.len(),
            items@.len() == i,
            forall|j: int| 0 <= j < i ==> items.deep_view()[j] == target[j],
        decreases ms@.len() - i,
    {
        let s = market_json(&ms[i]);
        items.push(s);
        i += 1;
    }
    proof {
        assert(items.deep_view() =~= target);
    }
    render_json_array(&items)
}

/// The fixed, ordered label list of a market's detail view.
pub open spec fn market_detail_labels() -> Seq<Seq<char>> {
    seq![
        "ID"@,
        "Question"@,
        "Slug"@,
        "Outcomes"@,
        "Prices"@,
        "Volume"@,
        "Liquidity"@,
        "Volume (24hr)"@,
        "Best Bid"@,
        "Best Ask"@,
        "Spread"@,
        "Last Trade"@,
        "Status"@,
        "Condition ID"@,
        "CLOB Token IDs"@,
        "Start Date"@,
        "End Date"@,
        "Description"@,
        "Resolution Source"@,
    ]
}

/// Whatever fields are present, a market's detail view emits exactly the
/// declared labels, in their fixed order, each exactly once.
#[verifier::rlimit(100)]
pub proof fn lemma_market_detail_labels(m: Market)
    ensures
        spec_market_detail(m).len() == market_detail_labels().len(),
        forall|i: int| 0 <= i < market_detail_labels().len()
            ==> #[trigger] spec_market_detail(m)[i].0 == market_detail_labels()[i],
        forall|i: int, j: int|
            #![trigger market_detail_labels()[i], market_detail_labels()[j]]
            0 <= i < j < market_detail_labels().len() ==> market_detail_labels()[i]
                != market_detail_labels()[j],
{
    broadcast use vstd::string::group_string_axioms;

    reveal_strlit("ID");
    reveal_strlit("Question");
    reveal_strlit("Slug");
    reveal_strlit("Outcomes");
    reveal_strlit("Prices");
    reveal_strlit("Volume");
    reveal_strlit("Liquidity");
    reveal_strlit("Volume (24hr)");
    reveal_strlit("Best Bid");
    reveal_strlit("Best Ask");
    reveal_strlit("Spread");
    reveal_strlit("Last Trade");
    reveal_strlit("Status");
    reveal_strlit("Condition ID");
    reveal_strlit("CLOB Token IDs");
    reveal_strlit("Start Date");
    reveal_strlit("End Date");
    reveal_strlit("Description");
    reveal_strlit("Resolution Source");
    // Seeding each label's length and leading characters lets the solver
    // refute every equality among distinct labels.
    assert("ID"@.len() == 2);
    assert("ID"@[0] == 'I');
    assert("ID"@[1] == 'D');
    assert("Question"@.len() == 8);
    assert("Question"@[0] == 'Q');
    assert("Question"@[1] == 'u');
    assert("Slug"@.len() == 4);
    assert("Slug"@[0] == 'S');
    assert("Slug"@[1] == 'l');
    assert("Outcomes"@.len() == 8);
    assert("Outcomes"@[0] == 'O');
    assert("Outcomes"@[1] == 'u');
    assert("Prices"@.len() == 6);
    assert("Prices"@[0] == 'P');
    assert("Prices"@[1] == 'r');
    assert("Volume"@.len() == 6);
    assert("Volume"@[0] == 'V');
    assert("Volume"@[1] == 'o');
    assert("Liquidity"@.len() == 9);
    assert("Liquidity"@[0] == 'L');
    assert("Liquidity"@[1] == 'i');
    assert("Volume (24hr)"@.len() == 13);
    assert("Volume (24hr)"@[0] == 'V');
    assert("Volume (24hr)"@[1] == 'o');
    assert("Best Bid"@.len() == 8);
    assert("Best Bid"@[0] == 'B');
    assert("Best Bid"@[1] == 'e');
    assert("Best Bid"@[5] == 'B');
    assert("Best Ask"@.len() == 8);
    assert("Best Ask"@[0] == 'B');
    assert("Best Ask"@[1] == 'e');
    assert("Best Ask"@[5] == 'A');
    assert("Spread"@.len() == 6);
    assert("Spread"@[0] == 'S');
    assert("Spread"@[1] == 'p');
    assert("Last Trade"@.len() == 10);
    assert("Last Trade"@[0] == 'L');
    assert("Last Trade"@[1] == 'a');
    assert("Status"@.len() == 6);
    assert("Status"@[0] == 'S');
    assert("Status"@[1] == 't');
    assert("Condition ID"@.len() == 12);
    assert("Condition ID"@[0] == 'C');
    assert("Condition ID"@[1] == 'o');
    assert("CLOB Token IDs"@.len() == 14);
    assert("CLOB Token IDs"@[0] == 'C');
    assert("CLOB Token IDs"@[1] == 'L');
    assert("Start Date"@.len() == 10);
    assert("Start Date"@[0] == 'S');
    assert("Start Date"@[1] == 't');
    assert("End Date"@.len() == 8);
    assert("End Date"@[0] == 'E');
    assert("End Date"@[1] == 'n');
    assert("Description"@.len() == 11);
    assert("Description"@[0] == 'D');
    assert("Description"@[1] == 'e');
    assert("Resolution Source"@.len() == 17);
    assert("Resolution Source"@[0] == 'R');
    assert("Resolution Source"@[1] == 'e');
}

/// With every optional field absent, both market views are total: each
/// affected cell is the placeholder, the identifier and the derived status
/// keep their own texts, and nothing fails.
pub proof fn lemma_market_all_absent(m: Market)
    requires
        m.question is None,
        m.slug is None,
        m.description is None,
        m.outcomes is None,
        m.outcome_prices is None,
        m.volume_num is None,
        m.liquidity_num is None,
        m.volume_24hr is None,
        m.best_bid is None,
        m.best_ask is None,
        m.spread is None,
        m.last_trade_price is None,
        m.active is None,
        m.closed is None,
        m.condition_id is None,
        m.clob_token_ids is None,
        m.start_date is None,
        m.end_date is None,
        m.resolution_source is None,
    ensures
        market_row_cells(m) =~= seq![
            placeholder_seq(),
            placeholder_seq(),
            placeholder_seq(),
            placeholder_seq(),
            "Inactive"@,
        ],
        spec_market_detail(m)[0].1 == m.id@,
        spec_market_detail(m)[12].1 == "Inactive"@,
        forall|i: int| 1 <= i < 19 && i != 12 ==> #[trigger] spec_market_detail(m)[i].1
            == placeholder_seq(),
{
    assert(spec_truncate(placeholder_seq(), 60) == placeholder_seq());
    assert forall|i: int| 1 <= i < 19 && i != 12 implies #[trigger] spec_market_detail(m)[i].1
        == placeholder_seq() by {
        assert(spec_market_detail(m)[i].1 == placeholder_seq());
    }
}

/// Key characterization of the first stage of a market's JSON members.
proof fn lemma_market_json_p1_keys(m: Market, k: Seq<char>)
    ensures
        has_key(market_json_p1(m), k) <==> (k == "id"@ || (m.question is Some && k
            == "question"@) || (m.slug is Some && k == "slug"@) || (m.description is Some && k
            == "description"@) || (m.outcomes is Some && k == "outcomes"@)),
{
    broadcast use lemma_has_key_single, lemma_has_key_opt_str, lemma_has_key_opt_str_list;

}

/// Key characterization after the volume figures.
proof fn lemma_market_json_p2_keys(m: Market, k: Seq<char>)
    ensures
        has_key(market_json_p2(m), k) <==> (has_key(market_json_p1(m), k) || (m.outcome_prices
            is Some && k == "outcome_prices"@) || (m.volume_num is Some && k == "volume_num"@)
            || (m.liquidity_num is Some && k == "liquidity_num"@) || (m.volume_24hr is Some
            && k == "volume_24hr"@)),
{
    broadcast use lemma_has_key_opt_amount, lemma_has_key_opt_price_list;

}

/// Key characterization after the order-book figures.
proof fn lemma_market_json_p3_keys(m: Market, k: Seq<char>)
    ensures
        has_key(market_json_p3(m), k) <==> (has_key(market_json_p2(m), k) || (m.best_bid
            is Some && k == "best_bid"@) || (m.best_ask is Some && k == "best_ask"@) || (
            m.spread is Some && k == "spread"@) || (m.last_trade_price is Some && k
            == "last_trade_price"@) || (m.active is Some && k == "active"@)),
{
    broadcast use lemma_has_key_opt_price, lemma_has_key_opt_bool;

}

/// JSON mode is a faithful passthrough of field presence: for every key, the
/// serialized object carries it exactly when it is the identifier's key or
/// the key of an optional field that the fetched record carries.
pub proof fn lemma_market_json_presence(m: Market, k: Seq<char>)
    ensures
        has_key(market_json_fields(m), k) <==> (k == "id"@ || (m.question is Some && k
            == "question"@) || (m.slug is Some && k == "slug"@) || (m.description is Some && k
            == "description"@) || (m.outcomes is Some && k == "outcomes"@) || (m.outcome_prices
            is Some && k == "outcome_prices"@) || (m.volume_num is Some && k == "volume_num"@)
            || (m.liquidity_num is Some && k == "liquidity_num"@) || (m.volume_24hr is Some
            && k == "volume_24hr"@) || (m.best_bid is Some && k == "best_bid"@) || (m.best_ask
            is Some && k == "best_ask"@) || (m.spread is Some && k == "spread"@) || (
            m.last_trade_price is Some && k == "last_trade_price"@) || (m.active is Some && k
            == "active"@) || (m.closed is Some && k == "closed"@) || (m.condition_id is Some
            && k == "condition_id"@) || (m.clob_token_ids is Some && k == "clob_token_ids"@)
            || (m.start_date is Some && k == "start_date"@) || (m.end_date is Some && k
            == "end_date"@) || (m.resolution_source is Some && k == "resolution_source"@)),
{
    broadcast use lemma_has_key_opt_str, lemma_has_key_opt_bool, lemma_has_key_opt_str_list;

    lemma_market_json_p1_keys(m, k);
    lemma_market_json_p2_keys(m, k);
    lemma_market_json_p3_keys(m, k);
}

/// An empty market fetch serializes to the empty JSON array, not an error.
pub proof fn lemma_empty_markets_json()
    ensures
        spec_markets_json(Seq::<Market>::empty()) == "[]"@,
{
    reveal_strlit("[]");
    assert(Seq::<Market>::empty().map(|i: int, m: Market| spec_market_json(m))
        =~= Seq::<Seq<char>>::empty());
    assert(spec_markets_json(Seq::<Market>::empty()) =~= "[]"@);
}

} // verus!
