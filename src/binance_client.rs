//! The Binance adapter: holds the account and market handles of the binance
//! crate and, once attached, the shared scheduler. The handles are built, and
//! network calls made on them, by the caller; the adapter decides what is sent
//! and what the answers mean.
use vstd::prelude::*;
use std::sync::Arc;
use binance::account::Account;
use binance::market::Market;
use tokio::runtime::Runtime;
use crate::balance::{BalanceMap, ExchangeBalance, records_map};
use crate::order::{Amount, OrderIntent, Side};
use crate::symbol::{ascii_upper, normalize_symbol};

verus! {

#[verifier::external_type_specification]
#[verifier::external_body]
pub struct ExAccount(Account);

#[verifier::external_type_specification]
#[verifier::external_body]
pub struct ExMarket(Market);

/// Client for the Binance REST API.
pub struct BinanceClient {
    /// Account API
    pub account: Arc<Account>,
    /// Market API
    pub market: Arc<Market>,
    /// The shared scheduler that runs order submissions, once attached.
    pub runtime: Option<Arc<Runtime>>,
}

impl BinanceClient {
    /// An adapter over account and market handles that the caller built
    /// from its credentials, with no scheduler attached yet.
    pub fn new(account: Arc<Account>, market: Arc<Market>) -> (r: Self)
        ensures
            r.account == account,
            r.market == market,
            r.runtime is None,
    {
        BinanceClient { account, market, runtime: None }
    }

    /// An adapter over account and market handles, with the shared scheduler
    /// attached.
    pub fn new_with_runtime(account: Arc<Account>, market: Arc<Market>, async_runner: Arc<Runtime>) -> (r:
        Self)
        ensures
            r.account == account,
            r.market == market,
            r.runtime == Some(async_runner),
    {
        BinanceClient { account, market, runtime: Some(async_runner) }
    }

    /// Attaches the shared scheduler, replacing any earlier one.
    pub fn set_runtime(&mut self, runtime: Arc<Runtime>)
        ensures
            final(self).runtime == Some(runtime),
            final(self).account == old(self).account,
            final(self).market == old(self).market,
    {
        self.runtime = Some(runtime);
    }

    pub fn has_runtime(&self) -> (r: bool)
        ensures
            r == self.runtime is Some,
    {
        self.runtime.is_some()
    }

    /// The symbol as Binance expects it, for an existence check by depth query.
    pub fn depth_symbol(&self, symbol: &String) -> (r: String)
        ensures
            r@ == ascii_upper(symbol@),
    {
        normalize_symbol(symbol.as_str())
    }

    /// The asset name as Binance expects it, for a balance query.
    pub fn balance_asset(&self, asset: &String) -> (r: String)
        ensures
            r@ == ascii_upper(asset@),
    {
        normalize_symbol(asset.as_str())
    }

    /// The good-till-cancelled limit order that a buy request becomes. Orders
    /// run on the shared scheduler, so one must be attached.
    pub fn buy_order1(&self, symbol: &String, qty: Amount, price: Amount) -> (r: OrderIntent)
        requires
            self.runtime is Some,
        ensures
            r.symbol@ == ascii_upper(symbol@),
            ascii_upper(r.symbol@) == r.symbol@,
            r.side == Side::Buy,
            r.qty == qty,
            r.price == price,
    {
        OrderIntent::new(normalize_symbol(symbol.as_str()), Side::Buy, qty, price)
    }

    /// The good-till-cancelled limit order that a sell request becomes. Orders
    /// run on the shared scheduler, so one must be attached.
    pub fn sell_order1(&self, symbol: &String, qty: Amount, price: Amount) -> (r: OrderIntent)
        requires
            self.runtime is Some,
        ensures
            r.symbol@ == ascii_upper(symbol@),
            ascii_upper(r.symbol@) == r.symbol@,
            r.side == Side::Sell,
            r.qty == qty,
            r.price == price,
    {
        OrderIntent::new(normalize_symbol(symbol.as_str()), Side::Sell, qty, price)
    }

    /// The account snapshot made of the balance records Binance returned, in
    /// the order returned.
    pub fn balances_from_records(&self, records: Vec<ExchangeBalance>) -> (r: BalanceMap)
        ensures
            r.entries@ == records@,
            r@ == records_map(records@),
    {
        BalanceMap::from_records(records)
    }
}

} // verus!
