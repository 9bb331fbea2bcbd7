//! Order intents: what an adapter hands to its exchange for one good-till-
//! cancelled limit order.
use vstd::prelude::*;

verus! {

#[derive(PartialEq, Eq, Structural, Clone, Copy, Debug)]
pub enum Side {
    Buy,
    Sell,
}

/// A quantity or a price, carried as the IEEE-754 bit pattern of the double
/// that the caller gave; the library moves it and never computes with it.
#[derive(PartialEq, Eq, Structural, Clone, Copy, Debug)]
pub struct Amount {
    pub bits: u64,
}

impl Amount {
    pub fn from_bits(bits: u64) -> (r: Self)
        ensures
            r.bits == bits,
    {
        Amount { bits }
    }
}

/// One good-till-cancelled limit order, ready to be submitted.
pub struct OrderIntent {
    pub symbol: String,
    pub side: Side,
    pub qty: Amount,
    pub price: Amount,
}

impl OrderIntent {
    pub fn new(symbol: String, side: Side, qty: Amount, price: Amount) -> (r: Self)
        ensures
            r.symbol == symbol,
            r.side == side,
            r.qty == qty,
            r.price == price,
    {
        OrderIntent { symbol, side, qty, price }
    }
}

} // verus!
