use arbitrage::bot::ArbitrageBot;
use arbitrage::executor::ExecError;
use arbitrage::executor::OrderRequest;
use arbitrage::executor::TradeExecution;
use arbitrage::venue::DexClient;

/// A mock venue client that only counts the orders submitted to it.
struct CountingClient {
    buys: usize,
    sells: usize,
}

impl CountingClient {
    fn new() -> Self {
        CountingClient { buys: 0, sells: 0 }
    }

    /// Pretends to submit the order; `ok` is what the venue would answer.
    fn submit(&mut self, order: &OrderRequest, ok: bool) -> bool {
        if order.signed_amount > 0 {
            self.buys += 1;
        } else {
            self.sells += 1;
        }
        ok
    }
}

fn venues() -> Vec<DexClient> {
    vec![DexClient::new("DEX1"), DexClient::new("DEX2")]
}

#[test]
fn unknown_buy_venue_fails_without_any_order() {
    let (exec, order) = TradeExecution::start(
        &venues(),
        "DEX9".to_string(),
        "DEX2".to_string(),
        "ETH/USDC".to_string(),
        7,
    );
    assert!(order.is_none());
    assert_eq!(exec.outcome(), Some(Err(ExecError::VenueNotFound)));
}

#[test]
fn unknown_sell_venue_fails_without_any_order() {
    let (exec, order) = TradeExecution::start(
        &venues(),
        "DEX1".to_string(),
        "NOWHERE".to_string(),
        "ETH/USDC".to_string(),
        7,
    );
    assert!(order.is_none());
    assert_eq!(exec.outcome(), Some(Err(ExecError::VenueNotFound)));
}

#[test]
fn buy_failure_never_reaches_the_sell() {
    let mut client = CountingClient::new();
    let (mut exec, order) = TradeExecution::start(
        &venues(),
        "DEX1".to_string(),
        "DEX2".to_string(),
        "ETH/USDC".to_string(),
        10,
    );
    let buy = order.expect("buy order expected");
    assert_eq!(buy.venue, "DEX1");
    assert_eq!(buy.signed_amount, 10);
    let ok = client.submit(&buy, false);
    let next = exec.on_result(ok);
    assert!(next.is_none());
    assert_eq!(exec.outcome(), Some(Err(ExecError::BuyFailed)));
    // Feeding further events changes nothing and issues nothing.
    assert!(exec.on_result(true).is_none());
    assert!(exec.on_result(false).is_none());
    assert_eq!(client.buys, 1);
    assert_eq!(client.sells, 0);
}

#[test]
fn buy_then_sell_in_strict_order() {
    let mut client = CountingClient::new();
    let (mut exec, order) = TradeExecution::start(
        &venues(),
        "DEX1".to_string(),
        "DEX2".to_string(),
        "ETH/USDC".to_string(),
        10,
    );
    let buy = order.expect("buy order expected");
    assert_eq!(buy.venue, "DEX1");
    assert_eq!(buy.pair, "ETH/USDC");
    assert_eq!(buy.signed_amount, 10);
    assert!(exec.outcome().is_none());
    let ok = client.submit(&buy, true);
    let sell = exec.on_result(ok).expect("sell order expected");
    assert_eq!(sell.venue, "DEX2");
    assert_eq!(sell.pair, "ETH/USDC");
    assert_eq!(sell.signed_amount, -10);
    assert!(exec.outcome().is_none());
    let ok2 = client.submit(&sell, true);
    assert!(exec.on_result(ok2).is_none());
    assert_eq!(exec.outcome(), Some(Ok(())));
    assert_eq!(client.buys, 1);
    assert_eq!(client.sells, 1);
}

#[test]
fn sell_failure_is_reported_distinctly() {
    let (mut exec, order) = TradeExecution::start(
        &venues(),
        "DEX1".to_string(),
        "DEX2".to_string(),
        "ETH/USDC".to_string(),
        3,
    );
    assert!(order.is_some());
    let sell = exec.on_result(true);
    assert!(sell.is_some());
    assert!(exec.on_result(false).is_none());
    assert_eq!(exec.outcome(), Some(Err(ExecError::SellFailed)));
}

#[test]
fn bot_start_trade_uses_configured_venues() {
    let bot = ArbitrageBot::new();
    let (exec, order) = bot.start_trade(
        "DEX1".to_string(),
        "DEX3".to_string(),
        "ETH/USDC".to_string(),
        990,
    );
    let buy = order.expect("buy order expected");
    assert_eq!(buy.venue, "DEX1");
    assert_eq!(buy.signed_amount, 990);
    assert!(exec.outcome().is_none());

    let (exec2, order2) = bot.start_trade(
        "DEX1".to_string(),
        "DEX7".to_string(),
        "ETH/USDC".to_string(),
        990,
    );
    assert!(order2.is_none());
    assert_eq!(exec2.outcome(), Some(Err(ExecError::VenueNotFound)));
}
