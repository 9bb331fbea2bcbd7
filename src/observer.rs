//! The combined observer: the latest market data of several backends merged
//! into one view keyed by symbol. Each symbol is read from the backend that
//! owns it, and each backend's feed is its own: updating one leaves the others
//! as they were.
use vstd::prelude::*;
use crate::combined::{CombinedClient, RegistryError, RoutingError};
use crate::balance::{last_wins, lemma_last_wins_lookup};
use crate::order::Amount;

verus! {

/// The top of the book for one symbol: best bid and best ask, each with the
/// quantity available there.
pub struct Quote {
    pub symbol: String,
    pub bid_price: Amount,
    pub bid_qty: Amount,
    pub ask_price: Amount,
    pub ask_qty: Amount,
}

impl Quote {
    pub fn duplicate(&self) -> (r: Self)
        ensures
            r == *self,
    {
        Quote {
            symbol: self.symbol.clone(),
            bid_price: self.bid_price,
            bid_qty: self.bid_qty,
            ask_price: self.ask_price,
            ask_qty: self.ask_qty,
        }
    }
}

/// A quote is keyed by its symbol.
pub open spec fn symbol_key() -> spec_fn(Quote) -> Seq<char> {
    |q: Quote| q.symbol@
}

/// The latest quote per symbol that a sequence of updates leaves.
pub open spec fn quotes_map(s: Seq<Quote>) -> Map<Seq<char>, Quote> {
    last_wins(s, symbol_key())
}

/// One backend's feed: the updates received, in order.
pub struct QuoteBook {
    pub updates: Vec<Quote>,
}

impl View for QuoteBook {
    type V = Map<Seq<char>, Quote>;

    open spec fn view(&self) -> Map<Seq<char>, Quote> {
        quotes_map(self.updates@)
    }
}

impl QuoteBook {
    /// The latest quote for `symbol`, if the feed has delivered one.
    pub fn latest(&self, symbol: &String) -> (r: Option<Quote>)
        ensures
            r is Some <==> self@.contains_key(symbol@),
            r matches Some(q) ==> q == self@[symbol@],
    {
        let mut i: usize = self.updates.len();
        while i > 0
            invariant
                i <= self.updates@.len(),
                forall|j: int| i <= j < self.updates@.len() ==> self.updates@[j].symbol@ != symbol@,
            decreases i,
        {
            if self.updates[i - 1].symbol == *symbol {
                proof {
                    let k = (i - 1) as int;
                    lemma_last_wins_lookup(self.updates@, symbol_key(), symbol@);
                    assert(symbol_key()(self.updates@[k]) == symbol@);
                    assert forall|j: int| k < j < self.updates@.len() implies symbol_key()(
                        #[trigger] self.updates@[j],
                    ) != symbol@ by {}
                }
                return Some(self.updates[i - 1].duplicate());
            }
            i = i - 1;
        }
        proof {
            lemma_last_wins_lookup(self.updates@, symbol_key(), symbol@);
            assert forall|j: int| 0 <= j < self.updates@.len() implies symbol_key()(
                #[trigger] self.updates@[j],
            ) != symbol@ by {}
        }
        None
    }
}

#[derive(PartialEq, Eq, Debug)]
pub enum ObserveError {
    /// No backend with that position.
    UnknownBackend(usize),
    /// The quote's symbol is not owned by the backend that delivered it.
    NotOwned(String),
}

pub struct CombinedObserver {
    router: CombinedClient<usize>,
    books: Vec<QuoteBook>,
}

impl CombinedObserver {
    pub closed spec fn wf(&self) -> bool {
        &&& self.router.wf()
        &&& self.books@.len() == self.router.backends_view().len()
    }

    /// Which backend owns each symbol.
    pub closed spec fn registry(&self) -> Map<Seq<char>, int> {
        self.router.registry()
    }

    /// The latest quotes of each backend's feed.
    pub closed spec fn feeds(&self) -> Seq<Map<Seq<char>, Quote>> {
        self.books@.map_values(|b: QuoteBook| b@)
    }

    /// Builds the observer from one list of symbols per backend; every feed
    /// starts empty. A symbol that two different backends claim is refused.
    pub fn new(symbols: Vec<Vec<String>>) -> (r: Result<Self, RegistryError>)
        ensures
            r is Ok <==> !crate::combined::has_overlap(symbols@),
            r matches Ok(o) ==> {
                &&& o.wf()
                &&& o.feeds().len() == symbols@.len()
                &&& forall|b: int| 0 <= b < symbols@.len() ==> o.feeds()[b] == Map::<Seq<char>, Quote>::empty()
                &&& forall|s: Seq<char>, b: int|
                    crate::combined::claims(symbols@, b, s) <==> o.registry().contains_key(s)
                        && o.registry()[s] == b
            },
    {
        let mut ids: Vec<usize> = Vec::new();
        let mut books: Vec<QuoteBook> = Vec::new();
        let mut i: usize = 0;
        while i < symbols.len()
            invariant
                i <= symbols@.len(),
                ids@.len() == i,
                books@.len() == i,
                forall|b: int| 0 <= b < i ==> books@[b].updates@.len() == 0,
            decreases symbols@.len() - i,
        {
            ids.push(i);
            books.push(QuoteBook { updates: Vec::new() });
            i = i + 1;
        }
        let router = CombinedClient::new(ids, symbols)?;
        let o = CombinedObserver { router, books };
        proof {
            assert forall|b: int| 0 <= b < symbols@.len() implies o.feeds()[b] == Map::<
                Seq<char>,
                Quote,
            >::empty() by {
                assert(o.books@[b].updates@.len() == 0);
                assert(o.books@[b]@ =~= Map::<Seq<char>, Quote>::empty());
            }
        }
        Ok(o)
    }

    /// Records a quote delivered by the feed of `backend`. Only the owner of
    /// the quote's symbol may update it; the other feeds are left as they were.
    pub fn record(&mut self, backend: usize, quote: Quote) -> (r: Result<(), ObserveError>)
        requires
            old(self).wf(),
        ensures
            final(self).wf(),
            final(self).registry() == old(self).registry(),
            backend >= old(self).feeds().len() ==> r == Err::<(), ObserveError>(
                ObserveError::UnknownBackend(backend),
            ),
            backend < old(self).feeds().len() ==> (r is Ok <==> (old(self).registry().contains_key(
                quote.symbol@,
            ) && old(self).registry()[quote.symbol@] == backend)),
            r is Ok ==> final(self).feeds() == old(self).feeds().update(
                backend as int,
                old(self).feeds()[backend as int].insert(quote.symbol@, quote),
            ),
            r is Err ==> final(self).feeds() == old(self).feeds(),
            r matches Err(ObserveError::NotOwned(s)) ==> s == quote.symbol,
    {
        if backend >= self.books.len() {
            return Err(ObserveError::UnknownBackend(backend));
        }
        match self.router.route(&quote.symbol) {
            Ok(owner) => {
                if owner != backend {
                    return Err(ObserveError::NotOwned(quote.symbol));
                }
            },
            Err(_) => {
                return Err(ObserveError::NotOwned(quote.symbol));
            },
        }
        let ghost prev = self.books@;
        let ghost q = quote;
        let mut book = QuoteBook { updates: Vec::new() };
        std::mem::swap(&mut book, &mut self.books[backend]);
        book.updates.push(quote);
        self.books.set(backend, book);
        proof {
            assert(self.books@[backend as int].updates@.drop_last() == prev[backend as int].updates@);
            assert(self.feeds() =~= prev.map_values(|b: QuoteBook| b@).update(
                backend as int,
                prev[backend as int]@.insert(q.symbol@, q),
            ));
        }
        Ok(())
    }

    /// The latest quote for `symbol` from the backend that owns it; a symbol
    /// that no backend owns is a routing error.
    pub fn snapshot(&self, symbol: &String) -> (r: Result<Option<Quote>, RoutingError>)
        requires
            self.wf(),
        ensures
            r is Err <==> !self.registry().contains_key(symbol@),
            r matches Err(e) ==> e == RoutingError::SymbolNotRouted(*symbol),
            r matches Ok(o) ==> {
                let f = self.feeds()[self.registry()[symbol@]];
                &&& (o is Some <==> f.contains_key(symbol@))
                &&& (o matches Some(q) ==> q == f[symbol@])
            },
    {
        let b = self.router.route(symbol)?;
        Ok(self.books[b].latest(symbol))
    }
}

} // verus!
