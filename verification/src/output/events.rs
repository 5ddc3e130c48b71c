//! Event views: the fixed-column summary row, the exhaustive detail view,
//! and the structural JSON form.

use vstd::prelude::*;
use vstd::string::*;
use crate::cells::{cell_opt_amount, cell_opt_bool, cell_opt_str, cell_opt_u64, push_pair,
    render_opt_amount, render_opt_bool, render_opt_str, render_opt_u64};
use crate::format::{dec_digits, u64_to_string};
use crate::json::{json_array, json_object, json_string, json_string_of, has_key,
    lemma_has_key_push, lemma_has_key_single, lemma_has_key_opt_str, lemma_has_key_opt_amount,
    lemma_has_key_opt_bool, lemma_has_key_opt_u64, opt_str_field, opt_amount_field,
    opt_bool_field, opt_u64_field, add_opt_str_field, add_opt_amount_field, add_opt_bool_field,
    add_opt_u64_field, render_json_object, render_json_array};
use crate::output::markets::{spec_market_json, market_json, spec_markets_json, markets_json};
use crate::records::{Event, Market, Tag, spec_status, spec_status_label, status_of,
    status_label};
use crate::table::{styled_table_of, render_table, detail_cells, render_detail_table};
use crate::text::{placeholder_seq, placeholder_string, spec_truncate, truncate, join_with,
    join_strings};

verus! {

/// The summary columns of one event.
pub struct EventRow {
    pub title: String,
    pub market_count: String,
    pub volume: String,
    pub liquidity: String,
    pub status: String,
}

/// The summary title cell: the title, truncated for scanability.
pub open spec fn event_title_cell(e: Event) -> Seq<char> {
    spec_truncate(cell_opt_str(e.title), 60)
}

/// The summary market-count cell: how many markets the event carries.
pub open spec fn event_market_count_cell(e: Event) -> Seq<char> {
    match e.markets {
        Some(l) => dec_digits(l@.len() as nat),
        None => placeholder_seq(),
    }
}

/// The five summary cells of one event, in column order.
pub open spec fn event_row_cells(e: Event) -> Seq<Seq<char>> {
    seq![
        event_title_cell(e),
        event_market_count_cell(e),
        cell_opt_amount(e.volume),
        cell_opt_amount(e.liquidity),
        spec_status_label(spec_status(e.closed, e.active)),
    ]
}

/// Projects one event onto its summary row.
pub fn event_to_row(e: &Event) -> (r: EventRow)
    ensures
        r.title@ == event_title_cell(*e),
        r.market_count@ == event_market_count_cell(*e),
        r.volume@ == cell_opt_amount(e.volume),
        r.liquidity@ == cell_opt_amount(e.liquidity),
        r.status@ == spec_status_label(spec_status(e.closed, e.active)),
{
    let base = render_opt_str(&e.title);
    let title = truncate(base.as_str(), 60);
    let market_count = match &e.markets {
        Some(l) => u64_to_string(l.len() as u64),
        None => placeholder_string(),
    };
    EventRow {
        title,
        market_count,
        volume: render_opt_amount(&e.volume),
        liquidity: render_opt_amount(&e.liquidity),
        status: status_label(status_of(&e.closed, &e.active)),
    }
}

/// The summary table's header row.
pub open spec fn event_header() -> Seq<Seq<char>> {
    seq!["Title"@, "Markets"@, "Volume"@, "Liquidity"@, "Status"@]
}

/// Renders an event list as a summary table, or the fixed "no results"
/// message when the list is empty — never a header with zero data rows.
pub fn events_table(es: &Vec<Event>) -> (r: String)
    ensures
        es@.len() == 0 ==> r@ == "No events found."@,
        es@.len() > 0 ==> r@ == styled_table_of(
            seq![event_header()] + es@.map(|i: int, e: Event| event_row_cells(e)),
        ),
{
    let mut header: Vec<String> = Vec::new();
    header.push("Title".to_owned());
    header.push("Markets".to_owned());
    header.push("Volume".to_owned());
    header.push("Liquidity".to_owned());
    header.push("Status".to_owned());
    proof {
        assert(header.deep_view() =~= event_header());
    }
    let ghost target = es@.map(|i: int, e: Event| event_row_cells(e));
    let mut rows: Vec<Vec<String>> = Vec::new();
    let mut k: usize = 0;
    while k < es.len()
        invariant
            k <= es@.len(),
            target == es@.map(|i: int, e: Event| event_row_cells(e)),
            target.len() == es@.len(),
            rows@.len() == k,
            forall|j: int| 0 <= j < k ==> rows.deep_view()[j] == target[j],
        decreases es@.len() - k,
    {
        let row = event_to_row(&es[k]);
        let mut cells: Vec<String> = Vec::new();
        cells.push(row.title);
        cells.push(row.market_count);
        cells.push(row.volume);
        cells.push(row.liquidity);
        cells.push(row.status);
        proof {
            assert(cells.deep_view() =~= event_row_cells(es@[k as int]));
        }
        let ghost prev = rows.deep_view();
        let ghost cdv = cells.deep_view();
        rows.push(cells);
        proof {
            assert(rows.deep_view() =~= prev.push(cdv));
        }
        k += 1;
    }
    proof {
        if es@.len() > 0 {
            assert(rows.deep_view() =~= target);
        }
    }
    render_table(&header, &rows, "No events found.")
}

/// The questions of the markets that carry one, in order.
pub open spec fn present_questions(ms: Seq<Market>) -> Seq<Seq<char>>
    decreases ms.len(),
{
    if ms.len() == 0 {
        Seq::empty()
    } else {
        present_questions(ms.drop_last()) + match ms.last().question {
            Some(q) => seq![q@],
            None => Seq::empty(),
        }
    }
}

/// Collects the questions of the markets that carry one.
fn collect_questions(ms: &Vec<Market>) -> (r: Vec<String>)
    ensures
        r.deep_view() == present_questions(ms@),
{
    let mut items: Vec<String> = Vec::new();
    let mut i: usize = 0;
    while i < ms.len()
        invariant
            i <= ms@.len(),
            items.deep_view() == present_questions(ms@.subrange(0, i as int)),
        decreases ms@.len() - i,
    {
        let ghost prev = items.deep_view();
        if let Some(q) = &ms[i].question {
            let s = q.clone();
            items.push(s);
            proof {
                assert(items.deep_view() =~= prev.push(ms@[i as int].question->0@));
            }
        }
        proof {
            let cur = ms@.subrange(0, i + 1 as int);
            assert(cur.drop_last() =~= ms@.subrange(0, i as int));
            assert(cur.last() == ms@[i as int]);
        }
        i += 1;
    }
    proof {
        assert(ms@.subrange(0, ms@.len() as int) =~= ms@);
    }
    items
}

/// The labels of the tags that carry one, in order.
pub open spec fn present_labels(ts: Seq<Tag>) -> Seq<Seq<char>>
    decreases ts.len(),
{
    if ts.len() == 0 {
        Seq::empty()
    } else {
        present_labels(ts.drop_last()) + match ts.last().label {
            Some(l) => seq![l@],
            None => Seq::empty(),
        }
    }
}

/// Collects the labels of the tags that carry one.
fn collect_tag_labels(ts: &Vec<Tag>) -> (r: Vec<String>)
    ensures
        r.deep_view() == present_labels(ts@),
{
    let mut items: Vec<String> = Vec::new();
    let mut i: usize = 0;
    while i < ts.len()
        invariant
            i <= ts@.len(),
            items.deep_view() == present_labels(ts@.subrange(0, i as int)),
        decreases ts@.len() - i,
    {
        let ghost prev = items.deep_view();
        if let Some(l) = &ts[i].label {
            let s = l.clone();
            items.push(s);
            proof {
                assert(items.deep_view() =~= prev.push(ts@[i as int].label->0@));
            }
        }
        proof {
            let cur = ts@.subrange(0, i + 1 as int);
            assert(cur.drop_last() =~= ts@.subrange(0, i as int));
            assert(cur.last() == ts@[i as int]);
        }
        i += 1;
    }
    proof {
        assert(ts@.subrange(0, ts@.len() as int) =~= ts@);
    }
    items
}

/// The detail cell for an event's markets: cross-referenced questions joined
/// with a bar separator; a returned empty collection shows "None", an absent
/// one the placeholder.
pub open spec fn event_markets_cell(e: Event) -> Seq<char> {
    match e.markets {
        Some(l) => if l@.len() == 0 {
            "None"@
        } else {
            join_with(present_questions(l@), " | "@)
        },
        None => placeholder_seq(),
    }
}

/// Renders the markets cell of an event's detail view.
fn render_event_markets_cell(e: &Event) -> (r: String)
    ensures
        r@ == event_markets_cell(*e),
{
    match &e.markets {
        Some(l) => if l.len() == 0 {
            "None".to_owned()
        } else {
            let qs = collect_questions(l);
            join_strings(&qs, " | ")
        },
        None => placeholder_string(),
    }
}

/// The detail cell for an event's tags: labels joined with a comma.
pub open spec fn event_tags_cell(e: Event) -> Seq<char> {
    match e.tags {
        Some(l) => if l@.len() == 0 {
            "None"@
        } else {
            join_with(present_labels(l@), ", "@)
        },
        None => placeholder_seq(),
    }
}

/// Renders the tags cell of an event's detail view.
fn render_event_tags_cell(e: &Event) -> (r: String)
    ensures
        r@ == event_tags_cell(*e),
{
    match &e.tags {
        Some(l) => if l.len() == 0 {
            "None".to_owned()
        } else {
            let ls = collect_tag_labels(l);
            join_strings(&ls, ", ")
        },
        None => placeholder_string(),
    }
}

/// The ordered label/value pairs of an event's detail view.
pub open spec fn spec_event_detail(e: Event) -> Seq<(Seq<char>, Seq<char>)> {
    seq![
        ("ID"@, e.id@),
        ("Title"@, cell_opt_str(e.title)),
        ("Slug"@, cell_opt_str(e.slug)),
        ("Description"@, cell_opt_str(e.description)),
        ("Category"@, cell_opt_str(e.category)),
        ("Markets"@, event_markets_cell(e)),
        ("Volume"@, cell_opt_amount(e.volume)),
        ("Liquidity"@, cell_opt_amount(e.liquidity)),
        ("Open Interest"@, cell_opt_amount(e.open_interest)),
        ("Volume (24hr)"@, cell_opt_amount(e.volume_24hr)),
        ("Volume (1wk)"@, cell_opt_amount(e.volume_1wk)),
        ("Volume (1mo)"@, cell_opt_amount(e.volume_1mo)),
        ("Status"@, spec_status_label(spec_status(e.closed, e.active))),
        ("Neg Risk"@, cell_opt_bool(e.neg_risk)),
        ("Neg Risk Market ID"@, cell_opt_str(e.neg_risk_market_id)),
        ("Comment Count"@, cell_opt_u64(e.comment_count)),
        ("Start Date"@, cell_opt_str(e.start_date)),
        ("End Date"@, cell_opt_str(e.end_date)),
        ("Created At"@, cell_opt_str(e.created_at)),
        ("Resolution Source"@, cell_opt_str(e.resolution_source)),
        ("Tags"@, event_tags_cell(e)),
    ]
}

/// Projects one event onto its ordered detail pairs.
pub fn event_detail(e: &Event) -> (r: Vec<(String, String)>)
    ensures
        r.deep_view() == spec_event_detail(*e),
{
    let mut rows: Vec<(String, String)> = Vec::new();
    push_pair(&mut rows, "ID".to_owned(), e.id.clone());
    push_pair(&mut rows, "Title".to_owned(), render_opt_str(&e.title));
    push_pair(&mut rows, "Slug".to_owned(), render_opt_str(&e.slug));
    push_pair(&mut rows, "Description".to_owned(), render_opt_str(&e.description));
    push_pair(&mut rows, "Category".to_owned(), render_opt_str(&e.category));
    push_pair(&mut rows, "Markets".to_owned(), render_event_markets_cell(e));
    push_pair(&mut rows, "Volume".to_owned(), render_opt_amount(&e.volume));
    push_pair(&mut rows, "Liquidity".to_owned(), render_opt_amount(&e.liquidity));
    push_pair(&mut rows, "Open Interest".to_owned(), render_opt_amount(&e.open_interest));
    push_pair(&mut rows, "Volume (24hr)".to_owned(), render_opt_amount(&e.volume_24hr));
    push_pair(&mut rows, "Volume (1wk)".to_owned(), render_opt_amount(&e.volume_1wk));
    push_pair(&mut rows, "Volume (1mo)".to_owned(), render_opt_amount(&e.volume_1mo));
    push_pair(&mut rows, "Status".to_owned(), status_label(status_of(&e.closed, &e.active)));
    push_pair(&mut rows, "Neg Risk".to_owned(), render_opt_bool(&e.neg_risk));
    push_pair(&mut rows, "Neg Risk Market ID".to_owned(), render_opt_str(
        &e.neg_risk_market_id,
    ));
    push_pair(&mut rows, "Comment Count".to_owned(), render_opt_u64(&e.comment_count));
    push_pair(&mut rows, "Start Date".to_owned(), render_opt_str(&e.start_date));
    push_pair(&mut rows, "End Date".to_owned(), render_opt_str(&e.end_date));
    push_pair(&mut rows, "Created At".to_owned(), render_opt_str(&e.created_at));
    push_pair(&mut rows, "Resolution Source".to_owned(), render_opt_str(&e.resolution_source));
    push_pair(&mut rows, "Tags".to_owned(), render_event_tags_cell(e));
    proof {
        assert(rows.deep_view() =~= spec_event_detail(*e));
    }
    rows
}

/// Renders one event's detail view as a two-column table.
pub fn event_detail_table(e: &Event) -> (r: String)
    ensures
        r@ == styled_table_of(detail_cells(spec_event_detail(*e))),
{
    let pairs = event_detail(e);
    render_detail_table(&pairs)
}

/// A tag's JSON form: each optional field exactly when returned.
pub open spec fn tag_json_fields(t: Tag) -> Seq<(Seq<char>, Seq<char>)> {
    let f = Seq::<(Seq<char>, Seq<char>)>::empty();
    let f = opt_str_field(f, "id"@, t.id);
    let f = opt_str_field(f, "label"@, t.label);
    let f = opt_str_field(f, "slug"@, t.slug);
    f
}

/// A tag's JSON form.
pub open spec fn spec_tag_json(t: Tag) -> Seq<char> {
    json_object(tag_json_fields(t))
}

/// Serializes one tag as JSON.
pub fn tag_json(t: &Tag) -> (r: String)
    ensures
        r@ == spec_tag_json(*t),
{
    let mut fields: Vec<(String, String)> = Vec::new();
    proof {
        assert(fields.deep_view() =~= Seq::<(Seq<char>, Seq<char>)>::empty());
    }
    add_opt_str_field(&mut fields, "id", &t.id);
    add_opt_str_field(&mut fields, "label", &t.label);
    add_opt_str_field(&mut fields, "slug", &t.slug);
    render_json_object(&fields)
}

/// The field list extended by the event's market collection, when present.
pub open spec fn opt_markets_field(
    f: Seq<(Seq<char>, Seq<char>)>,
    k: Seq<char>,
    v: Option<Vec<Market>>,
) -> Seq<(Seq<char>, Seq<char>)> {
    match v {
        Some(l) => f.push((k, json_array(l@.map(|i: int, m: Market| spec_market_json(m))))),
        None => f,
    }
}

/// Appends the event's market collection as a JSON array field.
pub fn add_markets_field(fields: &mut Vec<(String, String)>, key: &str, v: &Option<Vec<Market>>)
    ensures
        final(fields).deep_view() == opt_markets_field(old(fields).deep_view(), key@, *v),
{
    if let Some(l) = v {
        push_pair(fields, key.to_owned(), markets_json(l));
    }
}

/// Key membership through the market collection field.
pub broadcast proof fn lemma_has_key_opt_markets(
    f: Seq<(Seq<char>, Seq<char>)>,
    k2: Seq<char>,
    v: Option<Vec<Market>>,
    k: Seq<char>,
)
    ensures
        #[trigger] has_key(opt_markets_field(f, k2, v), k) <==> has_key(f, k) || (v is Some
            && k2 == k),
{
    broadcast use lemma_has_key_push;

}

/// The field list extended by the event's tag collection, when present.
pub open spec fn opt_tags_field(
    f: Seq<(Seq<char>, Seq<char>)>,
    k: Seq<char>,
    v: Option<Vec<Tag>>,
) -> Seq<(Seq<char>, Seq<char>)> {
    match v {
        Some(l) => f.push((k, json_array(l@.map(|i: int, t: Tag| spec_tag_json(t))))),
        None => f,
    }
}

/// Serializes a tag list as a JSON array.
fn tags_json(ts: &Vec<Tag>) -> (r: String)
    ensures
        r@ == json_array(ts@.map(|i: int, t: Tag| spec_tag_json(t))),
{
    let ghost target = ts@.map(|i: int, t: Tag| spec_tag_json(t));
    let mut items: Vec<String> = Vec::new();
    let mut i: usize = 0;
    while i < ts.len()
        invariant
            i <= ts@.len(),
            target == ts@.map(|j: int, t: Tag| spec_tag_json(t)),
            target.len() == ts@.len(),
            items@.len() == i,
            forall|j: int| 0 <= j < i ==> items.deep_view()[j] == target[j],
        decreases ts@.len() - i,
    {
        let s = tag_json(&ts[i]);
        items.push(s);
        i += 1;
    }
    proof {
        assert(items.deep_view() =~= target);
    }
    render_json_array(&items)
}

/// Appends the event's tag collection as a JSON array field.
pub fn add_tags_field(fields: &mut Vec<(String, String)>, key: &str, v: &Option<Vec<Tag>>)
    ensures
        final(fields).deep_view() == opt_tags_field(old(fields).deep_view(), key@, *v),
{
    if let Some(l) = v {
        push_pair(fields, key.to_owned(), tags_json(l));
    }
}

/// Key membership through the tag collection field.
pub broadcast proof fn lemma_has_key_opt_tags(
    f: Seq<(Seq<char>, Seq<char>)>,
    k2: Seq<char>,
    v: Option<Vec<Tag>>,
    k: Seq<char>,
)
    ensures
        #[trigger] has_key(opt_tags_field(f, k2, v), k) <==> has_key(f, k) || (v is Some && k2
            == k),
{
    broadcast use lemma_has_key_push;

}

/// The first members of an event's JSON form: the identifier always, then
/// the text fields, exactly when the fetch returned them.
pub open spec fn event_json_p1(e: Event) -> Seq<(Seq<char>, Seq<char>)> {
    let f = seq![("id"@, json_string(e.id@))];
    let f = opt_str_field(f, "title"@, e.title);
    let f = opt_str_field(f, "slug"@, e.slug);
    let f = opt_str_field(f, "description"@, e.description);
    let f = opt_str_field(f, "category"@, e.category);
    f
}

/// The members continued by the market collection and headline figures.
pub open spec fn event_json_p2(e: Event) -> Seq<(Seq<char>, Seq<char>)> {
    let f = event_json_p1(e);
    let f = opt_markets_field(f, "markets"@, e.markets);
    let f = opt_amount_field(f, "volume"@, e.volume);
    let f = opt_amount_field(f, "liquidity"@, e.liquidity);
    let f = opt_amount_field(f, "open_interest"@, e.open_interest);
    f
}

/// The members continued by the windowed volumes and the two flags.
pub open spec fn event_json_p3(e: Event) -> Seq<(Seq<char>, Seq<char>)> {
    let f = event_json_p2(e);
    let f = opt_amount_field(f, "volume_24hr"@, e.volume_24hr);
    let f = opt_amount_field(f, "volume_1wk"@, e.volume_1wk);
    let f = opt_amount_field(f, "volume_1mo"@, e.volume_1mo);
    let f = opt_bool_field(f, "active"@, e.active);
    let f = opt_bool_field(f, "closed"@, e.closed);
    f
}

/// The members continued by the negative-risk data and the first dates.
pub open spec fn event_json_p4(e: Event) -> Seq<(Seq<char>, Seq<char>)> {
    let f = event_json_p3(e);
    let f = opt_bool_field(f, "neg_risk"@, e.neg_risk);
    let f = opt_str_field(f, "neg_risk_market_id"@, e.neg_risk_market_id);
    let f = opt_u64_field(f, "comment_count"@, e.comment_count);
    let f = opt_str_field(f, "start_date"@, e.start_date);
    f
}

/// The object members of an event's JSON form: the identifier always, then
/// each optional field exactly when the fetch returned it.
pub open spec fn event_json_fields(e: Event) -> Seq<(Seq<char>, Seq<char>)> {
    let f = event_json_p4(e);
    let f = opt_str_field(f, "end_date"@, e.end_date);
    let f = opt_str_field(f, "created_at"@, e.created_at);
    let f = opt_str_field(f, "resolution_source"@, e.resolution_source);
    let f = opt_tags_field(f, "tags"@, e.tags);
    f
}

/// An event's JSON form: a structural passthrough of the fetched record.
pub open spec fn spec_event_json(e: Event) -> Seq<char> {
    json_object(event_json_fields(e))
}

/// Builds the first members of an event's JSON form.
fn event_json_p1_fields(e: &Event) -> (r: Vec<(String, String)>)
    ensures
        r.deep_view() == event_json_p1(*e),
{
    let mut fields: Vec<(String, String)> = Vec::new();
    push_pair(&mut fields, "id".to_owned(), json_string_of(e.id.as_str()));
    add_opt_str_field(&mut fields, "title", &e.title);
    add_opt_str_field(&mut fields, "slug", &e.slug);
    add_opt_str_field(&mut fields, "description", &e.description);
    add_opt_str_field(&mut fields, "category", &e.category);
    fields
}

/// Continues with the market collection and headline figures.
fn event_json_p2_fields(e: &Event, fields: &mut Vec<(String, String)>)
    requires
        old(fields).deep_view() == event_json_p1(*e),
    ensures
        final(fields).deep_view() == event_json_p2(*e),
{
    add_markets_field(fields, "markets", &e.markets);
    add_opt_amount_field(fields, "volume", &e.volume);
    add_opt_amount_field(fields, "liquidity", &e.liquidity);
    add_opt_amount_field(fields, "open_interest", &e.open_interest);
}

/// Continues with the windowed volumes and the two flags.
fn event_json_p3_fields(e: &Event, fields: &mut Vec<(String, String)>)
    requires
        old(fields).deep_view() == event_json_p2(*e),
    ensures
        final(fields).deep_view() == event_json_p3(*e),
{
    add_opt_amount_field(fields, "volume_24hr", &e.volume_24hr);
    add_opt_amount_field(fields, "volume_1wk", &e.volume_1wk);
    add_opt_amount_field(fields, "volume_1mo", &e.volume_1mo);
    add_opt_bool_field(fields, "active", &e.active);
    add_opt_bool_field(fields, "closed", &e.closed);
}

/// Continues with the negative-risk data and the first dates.
fn event_json_p4_fields(e: &Event, fields: &mut Vec<(String, String)>)
    requires
        old(fields).deep_view() == event_json_p3(*e),
    ensures
        final(fields).deep_view() == event_json_p4(*e),
{
    add_opt_bool_field(fields, "neg_risk", &e.neg_risk);
    add_opt_str_field(fields, "neg_risk_market_id", &e.neg_risk_market_id);
    add_opt_u64_field(fields, "comment_count", &e.comment_count);
    add_opt_str_field(fields, "start_date", &e.start_date);
}

/// Serializes one event as JSON, omitting absent fields.
pub fn event_json(e: &Event) -> (r: String)
    ensures
        r@ == spec_event_json(*e),
{
    let mut fields = event_json_p1_fields(e);
    event_json_p2_fields(e, &mut fields);
    event_json_p3_fields(e, &mut fields);
    event_json_p4_fields(e, &mut fields);
    add_opt_str_field(&mut fields, "end_date", &e.end_date);
    add_opt_str_field(&mut fields, "created_at", &e.created_at);
    add_opt_str_field(&mut fields, "resolution_source", &e.resolution_source);
    add_tags_field(&mut fields, "tags", &e.tags);
    render_json_object(&fields)
}

/// What an event list serializes to: a JSON array of the records' objects.
pub open spec fn spec_events_json(es: Seq<Event>) -> Seq<char> {
    json_array(es.map(|i: int, e: Event| spec_event_json(e)))
}

/// Serializes an event list as a JSON array; an empty fetch yields the empty
/// array, not an error.
pub fn events_json(es: &Vec<Event>) -> (r: String)
    ensures
        r@ == spec_events_json(es@),
{
    let ghost target = es@.map(|i: int, e: Event| spec_event_json(e));
    let mut items: Vec<String> = Vec::new();
    let mut i: usize = 0;
    while i < es.len()
        invariant
            i <= es@.len(),
            target == es@.map(|j: int, e: Event| spec_event_json(e)),
            target.len() == es@.len(),
            items@.len() == i,
            forall|j: int| 0 <= j < i ==> items.deep_view()[j] == target[j],
        decreases es@.len() - i,
    {
        let s = event_json(&es[i]);
        items.push(s);
        i += 1;
    }
    proof {
        assert(items.deep_view() =~= target);
    }
    render_json_array(&items)
}

/// An empty event fetch serializes to the empty JSON array, not an error.
pub proof fn lemma_empty_events_json()
    ensures
        spec_events_json(Seq::<Event>::empty()) == "[]"@,
{
    reveal_strlit("[]");
    assert(Seq::<Event>::empty().map(|i: int, e: Event| spec_event_json(e))
        =~= Seq::<Seq<char>>::empty());
    assert(spec_events_json(Seq::<Event>::empty()) =~= "[]"@);
}

/// The fixed, ordered label list of an event's detail view.
pub open spec fn event_detail_labels() -> Seq<Seq<char>> {
    seq![
        "ID"@,
        "Title"@,
        "Slug"@,
        "Description"@,
        "Category"@,
        "Markets"@,
        "Volume"@,
        "Liquidity"@,
        "Open Interest"@,
        "Volume (24hr)"@,
        "Volume (1wk)"@,
        "Volume (1mo)"@,
        "Status"@,
        "Neg Risk"@,
        "Neg Risk Market ID"@,
        "Comment Count"@,
        "Start Date"@,
        "End Date"@,
        "Created At"@,
        "Resolution Source"@,
        "Tags"@,
    ]
}

/// Whatever fields are present, an event's detail view emits exactly the
/// declared labels, in their fixed order, each exactly once.
#[verifier::rlimit(100)]
pub proof fn lemma_event_detail_labels(e: Event)
    ensures
        spec_event_detail(e).len() == event_detail_labels().len(),
        forall|i: int| 0 <= i < event_detail_labels().len()
            ==> #[trigger] spec_event_detail(e)[i].0 == event_detail_labels()[i],
        forall|i: int, j: int|
            #![trigger event_detail_labels()[i], event_detail_labels()[j]]
            0 <= i < j < event_detail_labels().len() ==> event_detail_labels()[i]
                != event_detail_labels()[j],
{
    broadcast use vstd::string::group_string_axioms;

    reveal_strlit("ID");
    reveal_strlit("Title");
    reveal_strlit("Slug");
    reveal_strlit("Description");
    reveal_strlit("Category");
    reveal_strlit("Markets");
    reveal_strlit("Volume");
    reveal_strlit("Liquidity");
    reveal_strlit("Open Interest");
    reveal_strlit("Volume (24hr)");
    reveal_strlit("Volume (1wk)");
    reveal_strlit("Volume (1mo)");
    reveal_strlit("Status");
    reveal_strlit("Neg Risk");
    reveal_strlit("Neg Risk Market ID");
    reveal_strlit("Comment Count");
    reveal_strlit("Start Date");
    reveal_strlit("End Date");
    reveal_strlit("Created At");
    reveal_strlit("Resolution Source");
    reveal_strlit("Tags");
    // Seeding each label's length and leading characters lets the solver
    // refute every equality among distinct labels.
    assert("ID"@.len() == 2);
    assert("ID"@[0] == 'I');
    assert("ID"@[1] == 'D');
    assert("Title"@.len() == 5);
    assert("Title"@[0] == 'T');
    assert("Title"@[1] == 'i');
    assert("Slug"@.len() == 4);
    assert("Slug"@[0] == 'S');
    assert("Slug"@[1] == 'l');
    assert("Description"@.len() == 11);
    assert("Description"@[0] == 'D');
    assert("Description"@[1] == 'e');
    assert("Category"@.len() == 8);
    assert("Category"@[0] == 'C');
    assert("Category"@[1] == 'a');
    assert("Markets"@.len() == 7);
    assert("Markets"@[0] == 'M');
    assert("Markets"@[1] == 'a');
    assert("Volume"@.len() == 6);
    assert("Volume"@[0] == 'V');
    assert("Volume"@[1] == 'o');
    assert("Liquidity"@.len() == 9);
    assert("Liquidity"@[0] == 'L');
    assert("Liquidity"@[1] == 'i');
    assert("Open Interest"@.len() == 13);
    assert("Open Interest"@[0] == 'O');
    assert("Open Interest"@[1] == 'p');
    assert("Volume (24hr)"@.len() == 13);
    assert("Volume (24hr)"@[0] == 'V');
    assert("Volume (24hr)"@[1] == 'o');
    assert("Volume (1wk)"@.len() == 12);
    assert("Volume (1wk)"@[0] == 'V');
    assert("Volume (1wk)"@[1] == 'o');
    assert("Volume (1wk)"@[9] == 'w');
    assert("Volume (1mo)"@.len() == 12);
    assert("Volume (1mo)"@[0] == 'V');
    assert("Volume (1mo)"@[1] == 'o');
    assert("Volume (1mo)"@[9] == 'm');
    assert("Status"@.len() == 6);
    assert("Status"@[0] == 'S');
    assert("Status"@[1] == 't');
    assert("Neg Risk"@.len() == 8);
    assert("Neg Risk"@[0] == 'N');
    assert("Neg Risk"@[1] == 'e');
    assert("Neg Risk Market ID"@.len() == 18);
    assert("Neg Risk Market ID"@[0] == 'N');
    assert("Neg Risk Market ID"@[1] == 'e');
    assert("Comment Count"@.len() == 13);
    assert("Comment Count"@[0] == 'C');
    assert("Comment Count"@[1] == 'o');
    assert("Start Date"@.len() == 10);
    assert("Start Date"@[0] == 'S');
    assert("Start Date"@[1] == 't');
    assert("End Date"@.len() == 8);
    assert("End Date"@[0] == 'E');
    assert("End Date"@[1] == 'n');
    assert("Created At"@.len() == 10);
    assert("Created At"@[0] == 'C');
    assert("Created At"@[1] == 'r');
    assert("Resolution Source"@.len() == 17);
    assert("Resolution Source"@[0] == 'R');
    assert("Resolution Source"@[1] == 'e');
    assert("Tags"@.len() == 4);
    assert("Tags"@[0] == 'T');
    assert("Tags"@[1] == 'a');
}

/// With every optional field absent, both event views are total: each
/// affected cell is the placeholder, the identifier and the derived status
/// keep their own texts, and nothing fails.
pub proof fn lemma_event_all_absent(e: Event)
    requires
        e.title is None,
        e.slug is None,
        e.description is None,
        e.category is None,
        e.markets is None,
        e.volume is None,
        e.liquidity is None,
        e.open_interest is None,
        e.volume_24hr is None,
        e.volume_1wk is None,
        e.volume_1mo is None,
        e.active is None,
        e.closed is None,
        e.neg_risk is None,
        e.neg_risk_market_id is None,
        e.comment_count is None,
        e.start_date is None,
        e.end_date is None,
        e.created_at is None,
        e.resolution_source is None,
        e.tags is None,
    ensures
        event_row_cells(e) =~= seq![
            placeholder_seq(),
            placeholder_seq(),
            placeholder_seq(),
            placeholder_seq(),
            "Inactive"@,
        ],
        spec_event_detail(e)[0].1 == e.id@,
        spec_event_detail(e)[12].1 == "Inactive"@,
        forall|i: int| 1 <= i < 21 && i != 12 ==> #[trigger] spec_event_detail(e)[i].1
            == placeholder_seq(),
{
    assert(spec_truncate(placeholder_seq(), 60) == placeholder_seq());
    assert forall|i: int| 1 <= i < 21 && i != 12 implies #[trigger] spec_event_detail(e)[i].1
        == placeholder_seq() by {
        assert(spec_event_detail(e)[i].1 == placeholder_seq());
    }
}

/// Key characterization of the first stage of an event's JSON members.
proof fn lemma_event_json_p1_keys(e: Event, k: Seq<char>)
    ensures
        has_key(event_json_p1(e), k) <==> (k == "id"@ || (e.title is Some && k == "title"@) || (
            e.slug is Some && k == "slug"@) || (e.description is Some && k == "description"@)
            || (e.category is Some && k == "category"@)),
{
    broadcast use lemma_has_key_single, lemma_has_key_opt_str;

}

/// Key characterization after the market collection and headline figures.
proof fn lemma_event_json_p2_keys(e: Event, k: Seq<char>)
    ensures
        has_key(event_json_p2(e), k) <==> (has_key(event_json_p1(e), k) || (e.markets is Some
            && k == "markets"@) || (e.volume is Some && k == "volume"@) || (e.liquidity is Some
            && k == "liquidity"@) || (e.open_interest is Some && k == "open_interest"@)),
{
    broadcast use lemma_has_key_opt_amount, lemma_has_key_opt_markets;

}

/// Key characterization after the windowed volumes and the two flags.
proof fn lemma_event_json_p3_keys(e: Event, k: Seq<char>)
    ensures
        has_key(event_json_p3(e), k) <==> (has_key(event_json_p2(e), k) || (e.volume_24hr
            is Some && k == "volume_24hr"@) || (e.volume_1wk is Some && k == "volume_1wk"@)
            || (e.volume_1mo is Some && k == "volume_1mo"@) || (e.active is Some && k
            == "active"@) || (e.closed is Some && k == "closed"@)),
{
    broadcast use lemma_has_key_opt_amount, lemma_has_key_opt_bool;

}

/// Key characterization after the negative-risk data and the first dates.
proof fn lemma_event_json_p4_keys(e: Event, k: Seq<char>)
    ensures
        has_key(event_json_p4(e), k) <==> (has_key(event_json_p3(e), k) || (e.neg_risk is Some
            && k == "neg_risk"@) || (e.neg_risk_market_id is Some && k
            == "neg_risk_market_id"@) || (e.comment_count is Some && k == "comment_count"@)
            || (e.start_date is Some && k == "start_date"@)),
{
    broadcast use lemma_has_key_opt_str, lemma_has_key_opt_bool, lemma_has_key_opt_u64;

}

/// JSON mode is a faithful passthrough of field presence: for every key, the
/// serialized object carries it exactly when it is the identifier's key or
/// the key of an optional field that the fetched record carries.
pub proof fn lemma_event_json_presence(e: Event, k: Seq<char>)
    ensures
        has_key(event_json_fields(e), k) <==> (k == "id"@ || (e.title is Some && k == "title"@)
            || (e.slug is Some && k == "slug"@) || (e.description is Some && k
            == "description"@) || (e.category is Some && k == "category"@) || (e.markets
            is Some && k == "markets"@) || (e.volume is Some && k == "volume"@) || (e.liquidity
            is Some && k == "liquidity"@) || (e.open_interest is Some && k
            == "open_interest"@) || (e.volume_24hr is Some && k == "volume_24hr"@) || (
            e.volume_1wk is Some && k == "volume_1wk"@) || (e.volume_1mo is Some && k
            == "volume_1mo"@) || (e.active is Some && k == "active"@) || (e.closed is Some
            && k == "closed"@) || (e.neg_risk is Some && k == "neg_risk"@) || (
            e.neg_risk_market_id is Some && k == "neg_risk_market_id"@) || (e.comment_count
            is Some && k == "comment_count"@) || (e.start_date is Some && k == "start_date"@)
            || (e.end_date is Some && k == "end_date"@) || (e.created_at is Some && k
            == "created_at"@) || (e.resolution_source is Some && k == "resolution_source"@)
            || (e.tags is Some && k == "tags"@)),
{
    broadcast use lemma_has_key_opt_str, lemma_has_key_opt_tags;

    lemma_event_json_p1_keys(e, k);
    lemma_event_json_p2_keys(e, k);
    lemma_event_json_p3_keys(e, k);
    lemma_event_json_p4_keys(e, k);
}

} // verus!
