//! Per-entity views and the output mode switch.
//!
//! Every command yields either a list of records or a single record. The
//! switch picks one of two semantically equivalent views of that fetch: the
//! human-readable table built through the projectors, or the raw structural
//! JSON of the records themselves — the latter deliberately bypasses
//! placeholder and truncation decisions.

pub mod events;
pub mod markets;
pub mod profiles;

use vstd::prelude::*;
use vstd::string::*;
use crate::json::{json_object, json_string, json_string_of, push_str_chars, plain_char,
    lemma_json_escape_plain};
use crate::format::chars_to_string;
use crate::records::{Event, Market, Profile};
use crate::table::{styled_table_of, detail_cells};

verus! {

/// The output mode, chosen once per invocation and constant for its run.
#[derive(Clone, Copy, Debug, PartialEq, Eq, Structural)]
pub enum OutputFormat {
    Table,
    Json,
}

/// Renders a market list in the chosen mode: a summary table (or the fixed
/// "no results" message) for humans, the raw JSON array for machines.
pub fn render_markets(ms: &Vec<Market>, format: OutputFormat) -> (r: String)
    ensures
        format is Table && ms@.len() == 0 ==> r@ == "No markets found."@,
        format is Table && ms@.len() > 0 ==> r@ == styled_table_of(
            seq![markets::market_header()] + ms@.map(|i: int, m: Market| markets::market_row_cells(m)),
        ),
        format is Json ==> r@ == markets::spec_markets_json(ms@),
{
    match format {
        OutputFormat::Table => markets::markets_table(ms),
        OutputFormat::Json => markets::markets_json(ms),
    }
}

/// Renders a single market in the chosen mode: the detail table for humans,
/// the raw JSON object for machines.
pub fn render_market(m: &Market, format: OutputFormat) -> (r: String)
    ensures
        format is Table ==> r@ == styled_table_of(detail_cells(markets::spec_market_detail(*m))),
        format is Json ==> r@ == markets::spec_market_json(*m),
{
    match format {
        OutputFormat::Table => markets::market_detail_table(m),
        OutputFormat::Json => markets::market_json(m),
    }
}

/// Renders an event list in the chosen mode.
pub fn render_events(es: &Vec<Event>, format: OutputFormat) -> (r: String)
    ensures
        format is Table && es@.len() == 0 ==> r@ == "No events found."@,
        format is Table && es@.len() > 0 ==> r@ == styled_table_of(
            seq![events::event_header()] + es@.map(|i: int, e: Event| events::event_row_cells(e)),
        ),
        format is Json ==> r@ == events::spec_events_json(es@),
{
    match format {
        OutputFormat::Table => events::events_table(es),
        OutputFormat::Json => events::events_json(es),
    }
}

/// Renders a single event in the chosen mode.
pub fn render_event(e: &Event, format: OutputFormat) -> (r: String)
    ensures
        format is Table ==> r@ == styled_table_of(detail_cells(events::spec_event_detail(*e))),
        format is Json ==> r@ == events::spec_event_json(*e),
{
    match format {
        OutputFormat::Table => events::event_detail_table(e),
        OutputFormat::Json => events::event_json(e),
    }
}

/// Renders a single profile in the chosen mode.
pub fn render_profile(p: &Profile, format: OutputFormat) -> (r: String)
    ensures
        format is Table ==> r@ == styled_table_of(detail_cells(profiles::spec_profile_detail(*p))),
        format is Json ==> r@ == profiles::spec_profile_json(*p),
{
    match format {
        OutputFormat::Table => profiles::profile_detail_table(p),
        OutputFormat::Json => profiles::profile_json(p),
    }
}

/// What the status line shows in table mode.
pub open spec fn spec_status_line_table(status: Seq<char>) -> Seq<char> {
    "API Status: "@ + status
}

/// What the status line shows in JSON mode.
pub open spec fn spec_status_line_json(status: Seq<char>) -> Seq<char> {
    json_object(seq![("status"@, json_string(status))])
}

/// Renders the service status in the chosen mode.
pub fn render_status(status: &str, format: OutputFormat) -> (r: String)
    ensures
        format is Table ==> r@ == spec_status_line_table(status@),
        format is Json ==> r@ == spec_status_line_json(status@),
{
    match format {
        OutputFormat::Table => {
            let mut out = "API Status: ".to_owned();
            out.append(status);
            out
        },
        OutputFormat::Json => {
            let mut v: Vec<char> = Vec::new();
            v.push('{');
            push_str_chars(&mut v, "\"status\":");
            let val = json_string_of(status);
            push_str_chars(&mut v, val.as_str());
            v.push('}');
            proof {
                reveal_strlit("\"status\":");
                reveal_strlit("status");
                assert(forall|i: int| 0 <= i < "status"@.len() ==> plain_char(
                    #[trigger] "status"@[i],
                ));
                lemma_json_escape_plain("status"@);
                assert("\"status\":"@ =~= json_string("status"@) + seq![':']);
                assert(v@ =~= spec_status_line_json(status@));
            }
            chars_to_string(&v)
        },
    }
}

/// What a failure prints in table mode, on the error channel.
pub open spec fn spec_error_line_table(msg: Seq<char>) -> Seq<char> {
    "Error: "@ + msg
}

/// What a failure prints in JSON mode, on the output channel.
pub open spec fn spec_error_line_json(msg: Seq<char>) -> Seq<char> {
    json_object(seq![("error"@, json_string(msg))])
}

/// Renders a failure message in the chosen mode. Table mode callers print
/// it on the error channel, JSON mode callers on the output channel.
pub fn render_error(msg: &str, format: OutputFormat) -> (r: String)
    ensures
        format is Table ==> r@ == spec_error_line_table(msg@),
        format is Json ==> r@ == spec_error_line_json(msg@),
{
    match format {
        OutputFormat::Table => {
            let mut out = "Error: ".to_owned();
            out.append(msg);
            out
        },
        OutputFormat::Json => {
            let mut v: Vec<char> = Vec::new();
            v.push('{');
            push_str_chars(&mut v, "\"error\":");
            let val = json_string_of(msg);
            push_str_chars(&mut v, val.as_str());
            v.push('}');
            proof {
                reveal_strlit("\"error\":");
                reveal_strlit("error");
                assert(forall|i: int| 0 <= i < "error"@.len() ==> plain_char(
                    #[trigger] "error"@[i],
                ));
                lemma_json_escape_plain("error"@);
                assert("\"error\":"@ =~= json_string("error"@) + seq![':']);
                assert(v@ =~= spec_error_line_json(msg@));
            }
            chars_to_string(&v)
        },
    }
}

} // verus!
