use arbitrage::detector::detect;
use arbitrage::observation::PriceObservation;

fn obs(venue: &str, price: i64) -> PriceObservation {
    PriceObservation {
        venue: venue.to_string(),
        pair: "ETH/USDC".to_string(),
        price,
        observed_at: 0,
    }
}

#[test]
fn boundary_margin_below_threshold_gives_none() {
    // (1002 - 998) / 998 is about 0.4008%, under the 0.5% threshold.
    let prices = vec![obs("DEX1", 998), obs("DEX2", 1002), obs("DEX3", 1000)];
    let r = detect(&prices, 5, 1000);
    assert!(r.is_none());
}

#[test]
fn wide_spread_gives_signal() {
    // (1010 - 990) / 990 is about 2.02%, over the 0.5% threshold.
    let prices = vec![obs("DEX1", 990), obs("DEX2", 1010)];
    let r = detect(&prices, 5, 1000).expect("signal expected");
    assert_eq!(r.buy_venue, "DEX1");
    assert_eq!(r.sell_venue, "DEX2");
    assert_eq!(r.reference_price, 990);
}

#[test]
fn margin_exactly_at_threshold_gives_none() {
    // (1005 - 1000) / 1000 == 0.5% exactly: not strictly above.
    let prices = vec![obs("DEX1", 1000), obs("DEX2", 1005)];
    assert!(detect(&prices, 5, 1000).is_none());
}

#[test]
fn margin_just_over_threshold_gives_signal() {
    let prices = vec![obs("DEX1", 1000), obs("DEX2", 1006)];
    let r = detect(&prices, 5, 1000).expect("signal expected");
    assert_eq!(r.buy_venue, "DEX1");
    assert_eq!(r.sell_venue, "DEX2");
    assert_eq!(r.reference_price, 1000);
}

#[test]
fn empty_input_gives_none() {
    let prices: Vec<PriceObservation> = vec![];
    assert!(detect(&prices, 5, 1000).is_none());
}

#[test]
fn single_venue_gives_none() {
    let prices = vec![obs("DEX1", 990)];
    assert!(detect(&prices, 5, 1000).is_none());
}

#[test]
fn one_distinct_venue_many_observations_gives_none() {
    // Two observations, but only one distinct venue: no opportunity.
    let prices = vec![obs("DEX1", 990), obs("DEX1", 1010)];
    assert!(detect(&prices, 5, 1000).is_none());
}

#[test]
fn tie_on_minimum_keeps_first_venue() {
    let prices = vec![obs("DEX1", 100), obs("DEX2", 100), obs("DEX3", 200)];
    let r = detect(&prices, 5, 1000).expect("signal expected");
    assert_eq!(r.buy_venue, "DEX1");
    assert_eq!(r.sell_venue, "DEX3");
    assert_eq!(r.reference_price, 100);
}

#[test]
fn tie_on_maximum_keeps_first_venue() {
    let prices = vec![obs("DEX1", 200), obs("DEX2", 100), obs("DEX3", 200)];
    let r = detect(&prices, 5, 1000).expect("signal expected");
    assert_eq!(r.buy_venue, "DEX2");
    assert_eq!(r.sell_venue, "DEX1");
    assert_eq!(r.reference_price, 100);
}

#[test]
fn scan_order_is_input_order() {
    // The same prices in another order move the tie to the other venue.
    let prices = vec![obs("DEX3", 200), obs("DEX2", 100), obs("DEX1", 200)];
    let r = detect(&prices, 5, 1000).expect("signal expected");
    assert_eq!(r.buy_venue, "DEX2");
    assert_eq!(r.sell_venue, "DEX3");
}
