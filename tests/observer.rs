use exch_clients::combined::{RegistryError, RoutingError};
use exch_clients::observer::{CombinedObserver, ObserveError, Quote};
use exch_clients::order::Amount;

fn s(x: &str) -> String {
    x.to_string()
}

fn quote(sym: &str, bid: f64, ask: f64) -> Quote {
    Quote {
        symbol: s(sym),
        bid_price: Amount::from_bits(bid.to_bits()),
        bid_qty: Amount::from_bits(1.0f64.to_bits()),
        ask_price: Amount::from_bits(ask.to_bits()),
        ask_qty: Amount::from_bits(2.0f64.to_bits()),
    }
}

fn observer() -> CombinedObserver {
    CombinedObserver::new(vec![vec![s("BTCUSDT")], vec![s("XBTEUR"), s("ETHEUR")]]).ok().unwrap()
}

#[test]
fn snapshot_reads_owner_feed() {
    let mut o = observer();
    assert_eq!(o.record(0, quote("BTCUSDT", 100.0, 101.0)), Ok(()));
    assert_eq!(o.record(1, quote("XBTEUR", 90.0, 91.0)), Ok(()));
    let q = o.snapshot(&s("BTCUSDT")).ok().unwrap().unwrap();
    assert_eq!(f64::from_bits(q.bid_price.bits), 100.0);
    assert_eq!(f64::from_bits(q.ask_price.bits), 101.0);
    let q = o.snapshot(&s("XBTEUR")).ok().unwrap().unwrap();
    assert_eq!(f64::from_bits(q.bid_price.bits), 90.0);
}

#[test]
fn snapshot_without_data_is_none() {
    let o = observer();
    assert!(o.snapshot(&s("ETHEUR")).ok().unwrap().is_none());
}

#[test]
fn snapshot_unrouted_is_routing_error() {
    let o = observer();
    assert!(matches!(
        o.snapshot(&s("DOGEUSD")),
        Err(RoutingError::SymbolNotRouted(ref x)) if x == "DOGEUSD"
    ));
}

#[test]
fn latest_update_wins() {
    let mut o = observer();
    assert_eq!(o.record(0, quote("BTCUSDT", 100.0, 101.0)), Ok(()));
    assert_eq!(o.record(0, quote("BTCUSDT", 105.0, 106.0)), Ok(()));
    let q = o.snapshot(&s("BTCUSDT")).ok().unwrap().unwrap();
    assert_eq!(f64::from_bits(q.bid_price.bits), 105.0);
}

#[test]
fn foreign_or_unknown_updates_are_refused() {
    let mut o = observer();
    assert_eq!(o.record(1, quote("BTCUSDT", 1.0, 2.0)), Err(ObserveError::NotOwned(s("BTCUSDT"))));
    assert_eq!(o.record(5, quote("BTCUSDT", 1.0, 2.0)), Err(ObserveError::UnknownBackend(5)));
    assert_eq!(o.record(0, quote("NOPE", 1.0, 2.0)), Err(ObserveError::NotOwned(s("NOPE"))));
    assert!(o.snapshot(&s("BTCUSDT")).ok().unwrap().is_none());
}

#[test]
fn stalled_feed_does_not_hide_others() {
    let mut o = observer();
    assert_eq!(o.record(1, quote("ETHEUR", 3000.0, 3001.0)), Ok(()));
    // backend 0 never delivers
    assert!(o.snapshot(&s("BTCUSDT")).ok().unwrap().is_none());
    assert!(o.snapshot(&s("ETHEUR")).ok().unwrap().is_some());
}

#[test]
fn observer_refuses_overlap() {
    let r = CombinedObserver::new(vec![vec![s("A")], vec![s("A")]]);
    assert!(matches!(r, Err(RegistryError::OverlappingClaim(ref x)) if x == "A"));
}
