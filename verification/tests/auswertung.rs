//! Tests of the aggregate queries over integer-cent prices.

use kassensystem::Artikel;
use kassensystem::apply_discount;
use kassensystem::auswertung::average_price;
use kassensystem::auswertung::count_over_threshold;
use kassensystem::auswertung::total_price;

fn cent_articles() -> Vec<Artikel<i64>> {
    vec![
        Artikel::new("Radio", 15999),
        Artikel::new("Fernseher", 69999),
        Artikel::new("Beamer", 89999),
    ]
}

// Exact total over integer cents.
#[test]
fn tt_total_price_cents() {
    let artikel = cent_articles();
    assert_eq!(total_price(&artikel), 15999 + 69999 + 89999);
}

// Exact truncated average over integer cents: 175997 / 3 = 58665.
#[test]
fn tt_average_price_cents() {
    let artikel = cent_articles();
    assert_eq!(average_price(&artikel), 58665);
}

// The average of a negative total truncates towards zero: -9 / 2 = -4.
#[test]
fn tt_average_price_negative_truncates() {
    let artikel = vec![Artikel::new("a", -5), Artikel::new("b", -4)];
    assert_eq!(average_price(&artikel), -4);
}

// Strictly-greater comparison at the threshold boundary.
#[test]
fn tt_count_over_threshold_strict() {
    let artikel = cent_articles();
    assert_eq!(count_over_threshold(&artikel, 50000), 2);
    assert_eq!(count_over_threshold(&artikel, 15999), 2);
    assert_eq!(count_over_threshold(&artikel, 15998), 3);
    assert_eq!(count_over_threshold(&artikel, 89999), 0);
}

// Empty collection: total 0, average 0 (the documented policy), count 0.
#[test]
fn tt_empty_aggregates() {
    let empty: Vec<Artikel<i64>> = Vec::new();
    assert_eq!(total_price(&empty), 0);
    assert_eq!(average_price(&empty), 0);
    assert_eq!(count_over_threshold(&empty, 0), 0);
}

// Reordering before discounting leaves the integer total unchanged.
#[test]
fn tt_discounted_total_order_independent_cents() {
    let vorwaerts = cent_articles();
    let rueckwaerts: Vec<Artikel<i64>> = cent_articles().into_iter().rev().collect();

    // A flat-amount-off policy, one of many the applicator accepts.
    let r1 = apply_discount(&vorwaerts, |a: &Artikel<i64>| a.preis - 500);
    let r2 = apply_discount(&rueckwaerts, |a: &Artikel<i64>| a.preis - 500);

    assert_eq!(total_price(&r1), total_price(&r2));
    assert_eq!(total_price(&r1), 15999 + 69999 + 89999 - 1500);
}

// Aggregates equal the extreme values a single article can carry.
#[test]
fn tt_total_price_extremes() {
    let artikel = vec![
        Artikel::new("min", i64::MIN),
        Artikel::new("min again", i64::MIN),
    ];
    assert_eq!(total_price(&artikel), 2 * (i64::MIN as i128));
    assert_eq!(average_price(&artikel), i64::MIN as i128);
}
