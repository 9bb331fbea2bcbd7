//! The Kraken adapter: holds the krakenrs REST handle and, once attached, the
//! shared scheduler. The handle is built, and network calls made on it, by the
//! caller; the adapter decides what is sent and what the answers mean.
use vstd::prelude::*;
use std::sync::Arc;
use krakenrs::KrakenRestAPI;
use tokio::runtime::Runtime;
use crate::balance::{BalanceMap, ExchangeBalance, records_map};
use crate::order::{Amount, OrderIntent, Side};
use crate::symbol::{ascii_upper, normalize_symbol};

verus! {

#[verifier::external_type_specification]
#[verifier::external_body]
pub struct ExKrakenRestAPI(KrakenRestAPI);

/// Seconds that one HTTP request to Kraken may take.
pub const REQUEST_TIMEOUT_SECS: u64 = 10;

/// What the REST handle is built from: the credentials and the HTTP timeout.
pub struct KrakenSettings {
    pub key: String,
    pub secret: String,
    pub timeout_secs: u64,
}

/// Kraken charges the fee of an order in one of the pair's two currencies.
#[derive(PartialEq, Eq, Structural, Clone, Copy, Debug)]
pub enum FeeCurrency {
    Base,
    Quote,
}

/// A limit order for Kraken: the order, and the currency its fee is taken in.
pub struct KrakenOrder {
    pub order: OrderIntent,
    pub fee_in: FeeCurrency,
}

/// Interface to Kraken REST API.
pub struct KrakenClient {
    pub api: Arc<KrakenRestAPI>,
    /// The shared scheduler that runs order submissions, once attached.
    pub runtime: Option<Arc<Runtime>>,
}

impl KrakenClient {
    /// The settings for the REST handle of an account with these credentials.
    pub fn settings(api_key: String, api_secret: String) -> (r: KrakenSettings)
        ensures
            r.key == api_key,
            r.secret == api_secret,
            r.timeout_secs == REQUEST_TIMEOUT_SECS,
    {
        KrakenSettings { key: api_key, secret: api_secret, timeout_secs: REQUEST_TIMEOUT_SECS }
    }

    /// An adapter over a REST handle that the caller built from `settings`,
    /// with no scheduler attached yet.
    pub fn new(api: Arc<KrakenRestAPI>) -> (r: Self)
        ensures
            r.api == api,
            r.runtime is None,
    {
        KrakenClient { api, runtime: None }
    }

    /// An adapter over a REST handle, with the shared scheduler attached.
    pub fn new_with_runtime(api: Arc<KrakenRestAPI>, runtime: Arc<Runtime>) -> (r: Self)
        ensures
            r.api == api,
            r.runtime == Some(runtime),
    {
        KrakenClient { api, runtime: Some(runtime) }
    }

    /// Attaches the shared scheduler, replacing any earlier one.
    pub fn set_runtime(&mut self, runtime: Arc<Runtime>)
        ensures
            final(self).runtime == Some(runtime),
            final(self).api == old(self).api,
    {
        self.runtime = Some(runtime);
    }

    pub fn has_runtime(&self) -> (r: bool)
        ensures
            r == self.runtime is Some,
    {
        self.runtime.is_some()
    }

    /// The pair name as Kraken expects it, for an existence check by a
    /// ticker query.
    pub fn pair_symbol(&self, symbol: &String) -> (r: String)
        ensures
            r@ == ascii_upper(symbol@),
    {
        normalize_symbol(symbol.as_str())
    }

    /// The asset name as Kraken expects it, for a balance lookup.
    pub fn balance_asset(&self, asset: &String) -> (r: String)
        ensures
            r@ == ascii_upper(asset@),
    {
        normalize_symbol(asset.as_str())
    }

    /// The account snapshot made of the balance records Kraken returned, in
    /// the order returned.
    pub fn balances_from_records(&self, records: Vec<ExchangeBalance>) -> (r: BalanceMap)
        ensures
            r.entries@ == records@,
            r@ == records_map(records@),
    {
        BalanceMap::from_records(records)
    }

    /// The balance of `asset`, under its normalized name, among the records
    /// Kraken returned.
    pub fn balance_from_records(&self, asset: &String, records: Vec<ExchangeBalance>) -> (r: Option<
        ExchangeBalance,
    >)
        ensures
            r is Some <==> records_map(records@).contains_key(ascii_upper(asset@)),
            r matches Some(b) ==> b == records_map(records@)[ascii_upper(asset@)],
    {
        let name = self.balance_asset(asset);
        let snapshot = BalanceMap::from_records(records);
        match snapshot.get(&name) {
            Some(b) => Some(b.duplicate()),
            None => None,
        }
    }

    /// The limit order that a buy request becomes, with its fee in the quote
    /// currency. Orders run on the shared scheduler, so one must be attached.
    pub fn buy_order1(&self, symbol: &String, qty: Amount, price: Amount) -> (r: KrakenOrder)
        requires
            self.runtime is Some,
        ensures
            r.order.symbol@ == ascii_upper(symbol@),
            ascii_upper(r.order.symbol@) == r.order.symbol@,
            r.order.side == Side::Buy,
            r.order.qty == qty,
            r.order.price == price,
            r.fee_in == FeeCurrency::Quote,
    {
        KrakenOrder {
            order: OrderIntent::new(normalize_symbol(symbol.as_str()), Side::Buy, qty, price),
            fee_in: FeeCurrency::Quote,
        }
    }

    /// The limit order that a sell request becomes, with its fee in the base
    /// currency. Orders run on the shared scheduler, so one must be attached.
    pub fn sell_order1(&self, symbol: &String, qty: Amount, price: Amount) -> (r: KrakenOrder)
        requires
            self.runtime is Some,
        ensures
            r.order.symbol@ == ascii_upper(symbol@),
            ascii_upper(r.order.symbol@) == r.order.symbol@,
            r.order.side == Side::Sell,
            r.order.qty == qty,
            r.order.price == price,
            r.fee_in == FeeCurrency::Base,
    {
        KrakenOrder {
            order: OrderIntent::new(normalize_symbol(symbol.as_str()), Side::Sell, qty, price),
            fee_in: FeeCurrency::Base,
        }
    }
}

} // verus!
