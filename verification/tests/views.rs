use polymarket_cli::format::{Amount, Price};
use polymarket_cli::output::OutputFormat;
use polymarket_cli::output::markets::{market_to_row, market_detail, markets_table};
use polymarket_cli::output::events::{event_to_row, event_detail, events_table};
use polymarket_cli::output::profiles::profile_detail;
use polymarket_cli::output::{render_market, render_markets, render_events, render_error,
    render_status};
use polymarket_cli::records::{Event, Market, Profile, Tag};

fn empty_market(id: &str) -> Market {
    Market {
        id: id.to_string(),
        question: None,
        slug: None,
        description: None,
        outcomes: None,
        outcome_prices: None,
        volume_num: None,
        liquidity_num: None,
        volume_24hr: None,
        best_bid: None,
        best_ask: None,
        spread: None,
        last_trade_price: None,
        active: None,
        closed: None,
        condition_id: None,
        clob_token_ids: None,
        start_date: None,
        end_date: None,
        resolution_source: None,
    }
}

fn empty_event(id: &str) -> Event {
    Event {
        id: id.to_string(),
        title: None,
        slug: None,
        description: None,
        category: None,
        markets: None,
        volume: None,
        liquidity: None,
        open_interest: None,
        volume_24hr: None,
        volume_1wk: None,
        volume_1mo: None,
        active: None,
        closed: None,
        neg_risk: None,
        neg_risk_market_id: None,
        comment_count: None,
        start_date: None,
        end_date: None,
        created_at: None,
        resolution_source: None,
        tags: None,
    }
}

#[test]
fn all_absent_market_row_shows_placeholders() {
    let row = market_to_row(&empty_market("1"));
    assert_eq!(row.question, "\u{2014}");
    assert_eq!(row.price_yes, "\u{2014}");
    assert_eq!(row.volume, "\u{2014}");
    assert_eq!(row.liquidity, "\u{2014}");
    assert_eq!(row.status, "Inactive");
}

#[test]
fn all_absent_market_detail_is_total() {
    let rows = market_detail(&empty_market("77"));
    assert_eq!(rows.len(), 19);
    assert_eq!(rows[0], ("ID".to_string(), "77".to_string()));
    for (label, value) in rows.iter().skip(1) {
        if label == "Status" {
            assert_eq!(value, "Inactive");
        } else {
            assert_eq!(value, "\u{2014}", "label {label} not placeholder");
        }
    }
}

#[test]
fn market_detail_labels_are_fixed_and_unique() {
    let rows = market_detail(&empty_market("1"));
    let labels: Vec<&str> = rows.iter().map(|p| p.0.as_str()).collect();
    assert_eq!(labels, vec![
        "ID", "Question", "Slug", "Outcomes", "Prices", "Volume", "Liquidity",
        "Volume (24hr)", "Best Bid", "Best Ask", "Spread", "Last Trade", "Status",
        "Condition ID", "CLOB Token IDs", "Start Date", "End Date", "Description",
        "Resolution Source",
    ]);
    let mut seen = labels.clone();
    seen.sort();
    seen.dedup();
    assert_eq!(seen.len(), labels.len());
}

#[test]
fn event_detail_labels_are_fixed_and_unique() {
    let rows = event_detail(&empty_event("1"));
    let labels: Vec<&str> = rows.iter().map(|p| p.0.as_str()).collect();
    assert_eq!(labels, vec![
        "ID", "Title", "Slug", "Description", "Category", "Markets", "Volume", "Liquidity",
        "Open Interest", "Volume (24hr)", "Volume (1wk)", "Volume (1mo)", "Status", "Neg Risk",
        "Neg Risk Market ID", "Comment Count", "Start Date", "End Date", "Created At",
        "Resolution Source", "Tags",
    ]);
    let mut seen = labels.clone();
    seen.sort();
    seen.dedup();
    assert_eq!(seen.len(), labels.len());
}

#[test]
fn market_summary_formats_fields() {
    let mut m = empty_market("5");
    m.question = Some("Will it rain tomorrow?".to_string());
    m.outcome_prices = Some(vec![Price { ten_thousandths: 4321 }, Price { ten_thousandths: 5679 }]);
    m.volume_num = Some(Amount { cents: 123456789 });
    m.closed = Some(true);
    let row = market_to_row(&m);
    assert_eq!(row.question, "Will it rain tomorrow?");
    assert_eq!(row.price_yes, "43.21\u{a2}");
    assert_eq!(row.volume, "1,234,567.89");
    assert_eq!(row.status, "Closed");
}

#[test]
fn detail_distinguishes_empty_from_absent_collections() {
    let mut m = empty_market("9");
    m.outcomes = Some(vec![]);
    m.clob_token_ids = Some(vec!["a1".to_string(), "b2".to_string()]);
    let rows = market_detail(&m);
    let get = |label: &str| {
        rows.iter().find(|p| p.0 == label).map(|p| p.1.clone()).unwrap()
    };
    assert_eq!(get("Outcomes"), "None");
    assert_eq!(get("CLOB Token IDs"), "a1, b2");
    assert_eq!(get("Prices"), "\u{2014}");
}

#[test]
fn event_detail_joins_cross_references() {
    let mut e = empty_event("3");
    let mut m1 = empty_market("m1");
    m1.question = Some("First?".to_string());
    let m2 = empty_market("m2");
    let mut m3 = empty_market("m3");
    m3.question = Some("Third?".to_string());
    e.markets = Some(vec![m1, m2, m3]);
    e.tags = Some(vec![
        Tag { id: None, label: Some("politics".to_string()), slug: None },
        Tag { id: None, label: None, slug: None },
        Tag { id: None, label: Some("news".to_string()), slug: None },
    ]);
    let rows = event_detail(&e);
    let get = |label: &str| {
        rows.iter().find(|p| p.0 == label).map(|p| p.1.clone()).unwrap()
    };
    assert_eq!(get("Markets"), "First? | Third?");
    assert_eq!(get("Tags"), "politics, news");
}

#[test]
fn event_row_counts_markets() {
    let mut e = empty_event("4");
    e.title = Some("t".repeat(75));
    e.markets = Some(vec![empty_market("a"), empty_market("b")]);
    let row = event_to_row(&e);
    assert_eq!(row.market_count, "2");
    let expected: String = "t".repeat(60) + "\u{2026}";
    assert_eq!(row.title, expected);
}

#[test]
fn empty_lists_give_no_results_message_in_table_mode() {
    assert_eq!(markets_table(&vec![]), "No markets found.");
    assert_eq!(events_table(&vec![]), "No events found.");
    assert_eq!(render_markets(&vec![], OutputFormat::Table), "No markets found.");
    assert_eq!(render_events(&vec![], OutputFormat::Table), "No events found.");
}

#[test]
fn empty_lists_give_empty_array_in_json_mode() {
    assert_eq!(render_markets(&vec![], OutputFormat::Json), "[]");
    assert_eq!(render_events(&vec![], OutputFormat::Json), "[]");
}

#[test]
fn rendered_table_carries_headers_and_cells() {
    let mut m = empty_market("5");
    m.question = Some("Will it snow?".to_string());
    m.outcome_prices = Some(vec![Price { ten_thousandths: 250 }]);
    let out = markets_table(&vec![m]);
    assert!(out.contains("Question"), "{out}");
    assert!(out.contains("Will it snow?"), "{out}");
    assert!(out.contains("2.50\u{a2}"), "{out}");
    assert!(out.contains("Status"), "{out}");
    assert!(out.lines().count() >= 3);
}

#[test]
fn profile_detail_keeps_address_and_placeholders() {
    let p = Profile {
        address: "0xabc".to_string(),
        name: None,
        pseudonym: Some("pm".to_string()),
        bio: None,
        created_at: None,
    };
    let rows = profile_detail(&p);
    assert_eq!(rows[0], ("Address".to_string(), "0xabc".to_string()));
    assert_eq!(rows[1], ("Name".to_string(), "\u{2014}".to_string()));
    assert_eq!(rows[2], ("Pseudonym".to_string(), "pm".to_string()));
}

#[test]
fn error_lines_follow_the_mode() {
    assert_eq!(render_error("boom", OutputFormat::Table), "Error: boom");
    assert_eq!(render_error("boom", OutputFormat::Json), "{\"error\":\"boom\"}");
    let parsed: serde_json::Value =
        serde_json::from_str(&render_error("a \"b\"", OutputFormat::Json)).unwrap();
    assert_eq!(parsed["error"], "a \"b\"");
}

#[test]
fn status_lines_follow_the_mode() {
    assert_eq!(render_status("OK", OutputFormat::Table), "API Status: OK");
    let parsed: serde_json::Value =
        serde_json::from_str(&render_status("OK", OutputFormat::Json)).unwrap();
    assert_eq!(parsed["status"], "OK");
}

#[test]
fn detail_table_renders_field_and_value_columns() {
    let mut m = empty_market("42");
    m.question = Some("Will it hail?".to_string());
    let out = render_market(&m, OutputFormat::Table);
    assert!(out.contains("Field"), "{out}");
    assert!(out.contains("Value"), "{out}");
    assert!(out.contains("ID"), "{out}");
    assert!(out.contains("42"), "{out}");
    assert!(out.contains("Will it hail?"), "{out}");
}

#[test]
fn summary_table_preserves_input_order() {
    let mut a = empty_market("a");
    a.question = Some("First question".to_string());
    let mut b = empty_market("b");
    b.question = Some("Second question".to_string());
    let out = markets_table(&vec![a, b]);
    let first = out.find("First question").unwrap();
    let second = out.find("Second question").unwrap();
    assert!(first < second);
}

#[test]
fn event_table_shows_counts_and_status() {
    let mut e = empty_event("1");
    e.title = Some("Big event".to_string());
    e.markets = Some(vec![empty_market("x")]);
    e.active = Some(true);
    let out = events_table(&vec![e]);
    assert!(out.contains("Big event"), "{out}");
    assert!(out.contains("Title"), "{out}");
    assert!(out.contains("Active"), "{out}");
}
