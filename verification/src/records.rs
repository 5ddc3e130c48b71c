//! Domain records returned by the upstream API, and the derived status.
//!
//! Every field beyond the stable identifier is optional: the upstream API
//! does not guarantee population of any attribute. Dates, condition
//! identifiers and token identifiers are carried in their canonical string
//! form; amounts and prices are fixed-point values.

use vstd::prelude::*;
use crate::format::{Amount, Price};

verus! {

/// A tag attached to an event.
pub struct Tag {
    pub id: Option<String>,
    pub label: Option<String>,
    pub slug: Option<String>,
}

/// One market: a tradeable question with outcomes and prices.
pub struct Market {
    pub id: String,
    pub question: Option<String>,
    pub slug: Option<String>,
    pub description: Option<String>,
    pub outcomes: Option<Vec<String>>,
    pub outcome_prices: Option<Vec<Price>>,
    pub volume_num: Option<Amount>,
    pub liquidity_num: Option<Amount>,
    pub volume_24hr: Option<Amount>,
    pub best_bid: Option<Price>,
    pub best_ask: Option<Price>,
    pub spread: Option<Price>,
    pub last_trade_price: Option<Price>,
    pub active: Option<bool>,
    pub closed: Option<bool>,
    pub condition_id: Option<String>,
    pub clob_token_ids: Option<Vec<String>>,
    pub start_date: Option<String>,
    pub end_date: Option<String>,
    pub resolution_source: Option<String>,
}

/// One event: a group of related markets.
pub struct Event {
    pub id: String,
    pub title: Option<String>,
    pub slug: Option<String>,
    pub description: Option<String>,
    pub category: Option<String>,
    pub markets: Option<Vec<Market>>,
    pub volume: Option<Amount>,
    pub liquidity: Option<Amount>,
    pub open_interest: Option<Amount>,
    pub volume_24hr: Option<Amount>,
    pub volume_1wk: Option<Amount>,
    pub volume_1mo: Option<Amount>,
    pub active: Option<bool>,
    pub closed: Option<bool>,
    pub neg_risk: Option<bool>,
    pub neg_risk_market_id: Option<String>,
    pub comment_count: Option<u64>,
    pub start_date: Option<String>,
    pub end_date: Option<String>,
    pub created_at: Option<String>,
    pub resolution_source: Option<String>,
    pub tags: Option<Vec<Tag>>,
}

/// A public profile looked up by wallet address.
pub struct Profile {
    pub address: String,
    pub name: Option<String>,
    pub pseudonym: Option<String>,
    pub bio: Option<String>,
    pub created_at: Option<String>,
}

/// The tri-state classification derived from the two optional boolean flags.
#[derive(Clone, Copy, Debug, PartialEq, Eq, Structural)]
pub enum Status {
    Closed,
    Active,
    Inactive,
}

/// What the status of a record is: a closed flag set to true wins, then an
/// active flag set to true, and otherwise the record counts as inactive.
pub open spec fn spec_status(closed: Option<bool>, active: Option<bool>) -> Status {
    if closed == Some(true) {
        Status::Closed
    } else if active == Some(true) {
        Status::Active
    } else {
        Status::Inactive
    }
}

/// Derives the status from the two optional flags.
pub fn status_of(closed: &Option<bool>, active: &Option<bool>) -> (r: Status)
    ensures
        r == spec_status(*closed, *active),
{
    match closed {
        Some(true) => Status::Closed,
        _ => match active {
            Some(true) => Status::Active,
            _ => Status::Inactive,
        },
    }
}

/// The display label of a status.
pub open spec fn spec_status_label(s: Status) -> Seq<char> {
    match s {
        Status::Closed => "Closed"@,
        Status::Active => "Active"@,
        Status::Inactive => "Inactive"@,
    }
}

/// Renders a status label.
pub fn status_label(s: Status) -> (r: String)
    ensures
        r@ == spec_status_label(s),
{
    match s {
        Status::Closed => "Closed".to_owned(),
        Status::Active => "Active".to_owned(),
        Status::Inactive => "Inactive".to_owned(),
    }
}

/// Status precedence holds for every combination of the two optional flags:
/// a true closed flag always yields `Closed`, whatever the active flag says;
/// otherwise a true active flag yields `Active`; in every remaining case,
/// including both flags absent, the status is `Inactive`.
pub proof fn lemma_status_precedence(closed: Option<bool>, active: Option<bool>)
    ensures
        closed == Some(true) ==> spec_status(closed, active) == Status::Closed,
        closed != Some(true) && active == Some(true) ==> spec_status(closed, active)
            == Status::Active,
        closed != Some(true) && active != Some(true) ==> spec_status(closed, active)
            == Status::Inactive,
{
}

} // verus!

