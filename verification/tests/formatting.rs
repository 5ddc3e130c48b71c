use polymarket_cli::format::{Amount, Price, format_amount, format_amount_plain,
    format_price_cents, format_price_fraction, u64_to_string};
use polymarket_cli::records::{Status, status_of, status_label};
use polymarket_cli::text::truncate;

#[test]
fn amounts_get_thousands_separation() {
    assert_eq!(format_amount(Amount { cents: 123456789 }), "1,234,567.89");
    assert_eq!(format_amount(Amount { cents: 5 }), "0.05");
    assert_eq!(format_amount(Amount { cents: 100000 }), "1,000.00");
    assert_eq!(format_amount(Amount { cents: 99999 }), "999.99");
}

#[test]
fn amounts_plain_form_has_no_separators() {
    assert_eq!(format_amount_plain(Amount { cents: 123456789 }), "1234567.89");
}

#[test]
fn integers_render_in_decimal() {
    assert_eq!(u64_to_string(0), "0");
    assert_eq!(u64_to_string(42), "42");
    assert_eq!(u64_to_string(u64::MAX), "18446744073709551615");
}

#[test]
fn price_fraction_becomes_cents_in_summary() {
    let p = Price { ten_thousandths: 4321 };
    assert_eq!(format_price_cents(p), "43.21\u{a2}");
    assert_eq!(format_price_fraction(p), "0.4321");
}

#[test]
fn price_edges_format_exactly() {
    assert_eq!(format_price_cents(Price { ten_thousandths: 0 }), "0.00\u{a2}");
    assert_eq!(format_price_cents(Price { ten_thousandths: 10000 }), "100.00\u{a2}");
    assert_eq!(format_price_fraction(Price { ten_thousandths: 10000 }), "1.0000");
    assert_eq!(format_price_fraction(Price { ten_thousandths: 7 }), "0.0007");
}

#[test]
fn short_titles_stay_unchanged() {
    let s = "a".repeat(60);
    assert_eq!(truncate(&s, 60), s);
    assert_eq!(truncate("hello", 60), "hello");
}

#[test]
fn long_titles_are_cut_at_a_character_boundary() {
    let s = "\u{e9}".repeat(61);
    let t = truncate(&s, 60);
    assert_eq!(t.chars().count(), 61);
    let expected: String = "\u{e9}".repeat(60) + "\u{2026}";
    assert_eq!(t, expected);
    assert!(s.starts_with(&"\u{e9}".repeat(60)));
}

#[test]
fn status_precedence_is_closed_then_active_then_inactive() {
    assert_eq!(status_of(&Some(true), &Some(true)), Status::Closed);
    assert_eq!(status_of(&Some(true), &None), Status::Closed);
    assert_eq!(status_of(&Some(false), &Some(true)), Status::Active);
    assert_eq!(status_of(&None, &Some(true)), Status::Active);
    assert_eq!(status_of(&Some(false), &Some(false)), Status::Inactive);
    assert_eq!(status_of(&None, &None), Status::Inactive);
    assert_eq!(status_label(Status::Closed), "Closed");
    assert_eq!(status_label(Status::Active), "Active");
    assert_eq!(status_label(Status::Inactive), "Inactive");
}
