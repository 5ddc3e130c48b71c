use polymarket_cli::format::{Amount, Price};
use polymarket_cli::output::OutputFormat;
use polymarket_cli::output::markets::market_json;
use polymarket_cli::output::events::event_json;
use polymarket_cli::output::profiles::profile_json;
use polymarket_cli::output::render_market;
use polymarket_cli::records::{Event, Market, Profile, Tag};

fn empty_market(id: &str) -> Market {
    Market {
        id: id.to_string(),
        question: None,
        slug: None,
        description: None,
        outcomes: None,
        outcome_prices: None,
        volume_num: None,
        liquidity_num: None,
        volume_24hr: None,
        best_bid: None,
        best_ask: None,
        spread: None,
        last_trade_price: None,
        active: None,
        closed: None,
        condition_id: None,
        clob_token_ids: None,
        start_date: None,
        end_date: None,
        resolution_source: None,
    }
}

fn empty_event(id: &str) -> Event {
    Event {
        id: id.to_string(),
        title: None,
        slug: None,
        description: None,
        category: None,
        markets: None,
        volume: None,
        liquidity: None,
        open_interest: None,
        volume_24hr: None,
        volume_1wk: None,
        volume_1mo: None,
        active: None,
        closed: None,
        neg_risk: None,
        neg_risk_market_id: None,
        comment_count: None,
        start_date: None,
        end_date: None,
        created_at: None,
        resolution_source: None,
        tags: None,
    }
}

#[test]
fn market_json_round_trips_present_and_absent_fields() {
    let mut m = empty_market("123");
    m.question = Some("Will it rain?".to_string());
    m.outcomes = Some(vec!["Yes".to_string(), "No".to_string()]);
    m.outcome_prices = Some(vec![Price { ten_thousandths: 4321 }]);
    m.volume_num = Some(Amount { cents: 123456 });
    m.active = Some(true);
    m.closed = Some(false);
    let out = market_json(&m);
    let v: serde_json::Value = serde_json::from_str(&out).unwrap();
    let obj = v.as_object().unwrap();

    let expected: Vec<&str> =
        vec!["id", "question", "outcomes", "outcome_prices", "volume_num", "active", "closed"];
    let mut keys: Vec<&str> = obj.keys().map(|k| k.as_str()).collect();
    keys.sort();
    let mut want = expected.clone();
    want.sort();
    assert_eq!(keys, want);

    assert_eq!(obj["id"], "123");
    assert_eq!(obj["question"], "Will it rain?");
    assert_eq!(obj["outcomes"], serde_json::Value::Array(vec![
        serde_json::Value::String("Yes".to_string()),
        serde_json::Value::String("No".to_string()),
    ]));
    assert_eq!(obj["active"], serde_json::Value::Bool(true));
    assert_eq!(obj["closed"], serde_json::Value::Bool(false));
    assert_eq!(obj["volume_num"].as_f64().unwrap(), 1234.56);
    assert_eq!(obj["outcome_prices"][0].as_f64().unwrap(), 0.4321);
    assert!(!obj.contains_key("slug"));
    assert!(!obj.contains_key("best_bid"));
}

#[test]
fn json_mode_bypasses_truncation_and_placeholders() {
    let mut m = empty_market("1");
    let long = "q".repeat(100);
    m.question = Some(long.clone());
    let out = render_market(&m, OutputFormat::Json);
    let v: serde_json::Value = serde_json::from_str(&out).unwrap();
    assert_eq!(v["question"].as_str().unwrap(), long);
    assert!(!out.contains('\u{2014}'));
}

#[test]
fn json_strings_are_escaped_and_parse_back() {
    let mut m = empty_market("x");
    m.question = Some("a \"quoted\" \\ question\nwith lines\tand\u{1} control".to_string());
    let out = market_json(&m);
    let v: serde_json::Value = serde_json::from_str(&out).unwrap();
    assert_eq!(
        v["question"].as_str().unwrap(),
        "a \"quoted\" \\ question\nwith lines\tand\u{1} control"
    );
}

#[test]
fn event_json_nests_markets_and_tags() {
    let mut e = empty_event("9");
    e.title = Some("Election".to_string());
    let mut m = empty_market("m1");
    m.question = Some("Who wins?".to_string());
    e.markets = Some(vec![m]);
    e.tags = Some(vec![Tag {
        id: Some("t1".to_string()),
        label: Some("politics".to_string()),
        slug: None,
    }]);
    e.comment_count = Some(17);
    e.neg_risk = Some(false);
    let out = event_json(&e);
    let v: serde_json::Value = serde_json::from_str(&out).unwrap();
    assert_eq!(v["id"], "9");
    assert_eq!(v["title"], "Election");
    assert_eq!(v["markets"][0]["question"], "Who wins?");
    assert_eq!(v["tags"][0]["label"], "politics");
    assert_eq!(v["comment_count"].as_u64().unwrap(), 17);
    assert_eq!(v["neg_risk"], serde_json::Value::Bool(false));
    assert!(v.as_object().unwrap().get("volume").is_none());
}

#[test]
fn profile_json_round_trips() {
    let p = Profile {
        address: "0x00".to_string(),
        name: Some("Ada".to_string()),
        pseudonym: None,
        bio: None,
        created_at: Some("2024-01-01T00:00:00Z".to_string()),
    };
    let out = profile_json(&p);
    let v: serde_json::Value = serde_json::from_str(&out).unwrap();
    let obj = v.as_object().unwrap();
    assert_eq!(obj.len(), 3);
    assert_eq!(obj["address"], "0x00");
    assert_eq!(obj["name"], "Ada");
    assert_eq!(obj["created_at"], "2024-01-01T00:00:00Z");
}
