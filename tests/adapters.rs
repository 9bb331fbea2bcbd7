use std::sync::Arc;

use exch_clients::balance::ExchangeBalance;
use exch_clients::binance_client::BinanceClient;
use exch_clients::combined::CombinedClient;
use exch_clients::kraken_client::{FeeCurrency, KrakenClient, REQUEST_TIMEOUT_SECS};
use binance::account::Account;
use binance::api::Binance;
use binance::market::Market;
use krakenrs::{KrakenRestAPI, KrakenRestConfig};
use exch_clients::order::{Amount, Side};
use exch_clients::symbol::normalize_symbol;

fn runtime() -> Arc<tokio::runtime::Runtime> {
    Arc::new(tokio::runtime::Runtime::new().unwrap())
}

fn binance(keys: Option<(&str, &str)>) -> BinanceClient {
    let (k, s) = match keys {
        Some((k, s)) => (Some(k.to_string()), Some(s.to_string())),
        None => (None, None),
    };
    BinanceClient::new(
        Arc::new(Account::new(k.clone(), s.clone())),
        Arc::new(Market::new(k, s)),
    )
}

fn binance_with_runtime() -> BinanceClient {
    BinanceClient::new_with_runtime(
        Arc::new(Account::new(None, None)),
        Arc::new(Market::new(None, None)),
        runtime(),
    )
}

fn kraken_api() -> Arc<KrakenRestAPI> {
    Arc::new(KrakenRestAPI::try_from(KrakenRestConfig::builder().build().unwrap()).unwrap())
}

fn rec(asset: &str, free: &str) -> ExchangeBalance {
    ExchangeBalance::new(asset.to_string(), free.to_string(), "0".to_string())
}

fn amount(x: f64) -> Amount {
    Amount::from_bits(x.to_bits())
}

#[test]
fn normalize_uppercases_ascii_only() {
    assert_eq!(normalize_symbol("btcUsdt"), "BTCUSDT");
    assert_eq!(normalize_symbol("eth-usd_1"), "ETH-USD_1");
    assert_eq!(normalize_symbol(""), "");
    assert_eq!(normalize_symbol("é"), "é");
}

#[test]
fn normalize_is_idempotent() {
    let once = normalize_symbol("xbt/eur");
    assert_eq!(normalize_symbol(&once), once);
}

#[test]
fn binance_runtime_attachment() {
    let mut c = binance(None);
    assert!(!c.has_runtime());
    c.set_runtime(runtime());
    assert!(c.has_runtime());
    let c2 = binance_with_runtime();
    assert!(c2.has_runtime());
}

#[test]
fn binance_orders_are_normalized_gtc_limits() {
    let c = binance_with_runtime();
    let o = c.buy_order1(&"btcusd".to_string(), amount(0.1), amount(30000.0));
    assert_eq!(o.symbol, "BTCUSD");
    assert_eq!(o.side, Side::Buy);
    assert_eq!(f64::from_bits(o.qty.bits), 0.1);
    assert_eq!(f64::from_bits(o.price.bits), 30000.0);
    let o = c.sell_order1(&"ethusdt".to_string(), amount(1.5), amount(2000.0));
    assert_eq!(o.symbol, "ETHUSDT");
    assert_eq!(o.side, Side::Sell);
}

#[test]
fn binance_query_names_are_normalized() {
    let c = binance(Some(("k", "s")));
    assert_eq!(c.depth_symbol(&"bnbbtc".to_string()), "BNBBTC");
    assert_eq!(c.balance_asset(&"usdt".to_string()), "USDT");
}

#[test]
fn binance_balances_keep_last_record() {
    let c = binance(None);
    let m = c.balances_from_records(vec![
        ExchangeBalance::new("BTC".to_string(), "1".to_string(), "0".to_string()),
        ExchangeBalance::new("BTC".to_string(), "2".to_string(), "0.5".to_string()),
    ]);
    let b = m.get(&"BTC".to_string()).unwrap();
    assert_eq!(b.free, "2");
    assert_eq!(b.locked, "0.5");
}

#[test]
fn kraken_runtime_and_orders() {
    let mut c = KrakenClient::new(kraken_api());
    assert!(!c.has_runtime());
    c.set_runtime(runtime());
    assert!(c.has_runtime());
    let o = c.buy_order1(&"xbtusd".to_string(), amount(0.25), amount(60000.0));
    assert_eq!(o.order.symbol, "XBTUSD");
    assert_eq!(o.order.side, Side::Buy);
    assert_eq!(o.fee_in, FeeCurrency::Quote);
    let o = c.sell_order1(&"XBTUSD".to_string(), amount(0.25), amount(61000.0));
    assert_eq!(o.order.side, Side::Sell);
    assert_eq!(o.fee_in, FeeCurrency::Base);
    assert_eq!(f64::from_bits(o.order.price.bits), 61000.0);
}

#[test]
fn kraken_settings_carry_credentials_and_timeout() {
    let st = KrakenClient::settings("key".to_string(), "secret".to_string());
    assert_eq!(st.key, "key");
    assert_eq!(st.secret, "secret");
    assert_eq!(st.timeout_secs, 10);
    assert_eq!(REQUEST_TIMEOUT_SECS, 10);
}

#[test]
fn kraken_query_names_are_normalized() {
    let c = KrakenClient::new_with_runtime(kraken_api(), runtime());
    assert!(c.has_runtime());
    assert_eq!(c.pair_symbol(&"xbtusd".to_string()), "XBTUSD");
    assert_eq!(c.balance_asset(&"zusd".to_string()), "ZUSD");
}

#[test]
fn kraken_balance_lookup_uses_normalized_name() {
    let c = KrakenClient::new(kraken_api());
    let records = || vec![rec("XXBT", "0.5"), rec("ZUSD", "100"), rec("XXBT", "0.75")];
    let b = c.balance_from_records(&"xxbt".to_string(), records()).unwrap();
    assert_eq!(b.free, "0.75");
    assert!(c.balance_from_records(&"eth".to_string(), records()).is_none());
    assert!(c.balance_from_records(&"XXBT".to_string(), vec![]).is_none());
}

#[test]
fn kraken_balances_snapshot() {
    let c = KrakenClient::new(kraken_api());
    let m = c.balances_from_records(vec![rec("XXBT", "0.5"), rec("ZUSD", "100")]);
    assert_eq!(m.entries.len(), 2);
    assert_eq!(m.get(&"ZUSD".to_string()).unwrap().free, "100");
}

#[test]
fn combined_buy_reaches_owner_adapter_normalized() {
    let a = binance_with_runtime();
    let b = binance_with_runtime();
    let c = CombinedClient::new(
        vec![a, b],
        vec![vec!["BTCUSD".to_string(), "btcusd".to_string()], vec!["ETHUSD".to_string()]],
    )
    .ok()
    .unwrap();
    let d = c.buy_order(&"btcusd".to_string(), amount(0.1), amount(30000.0)).ok().unwrap();
    assert_eq!(d.backend, 0);
    let o = c.backend(d.backend).buy_order1(&d.order.symbol, d.order.qty, d.order.price);
    assert_eq!(o.symbol, "BTCUSD");
    assert_eq!(o.side, Side::Buy);
    assert_eq!(f64::from_bits(o.qty.bits), 0.1);
    assert_eq!(f64::from_bits(o.price.bits), 30000.0);
}
