//! The combined client: several backends behind one surface, each symbol owned
//! by exactly one backend. Requests are routed by symbol; order requests become
//! a dispatch to the owning backend.
use vstd::prelude::*;
use crate::order::{Amount, OrderIntent, Side};

verus! {

/// One registry entry: `symbol` is served by the backend at `backend`.
pub struct Route {
    pub symbol: String,
    pub backend: usize,
}

#[derive(PartialEq, Eq, Debug)]
pub enum RegistryError {
    /// The list of symbol claims does not have one entry per backend.
    ClaimCountMismatch,
    /// The symbol is claimed by two different backends.
    OverlappingClaim(String),
}

#[derive(PartialEq, Eq, Debug)]
pub enum RoutingError {
    /// No backend owns the symbol.
    SymbolNotRouted(String),
}

/// Backend `b` claims symbol `s`.
pub open spec fn claims(c: Seq<Vec<String>>, b: int, s: Seq<char>) -> bool {
    0 <= b < c.len() && exists|j: int| 0 <= j < c[b]@.len() && c[b]@[j]@ == s
}

/// Some symbol is claimed by two different backends.
pub open spec fn has_overlap(c: Seq<Vec<String>>) -> bool {
    exists|s: Seq<char>| has_claim_conflict(c, s)
}

/// Two different backends claim the symbol `s`.
pub open spec fn has_claim_conflict(c: Seq<Vec<String>>, s: Seq<char>) -> bool {
    exists|a: int, b: int| a != b && claims(c, a, s) && claims(c, b, s)
}

/// An order routed to the backend at position `backend`.
pub struct Dispatch {
    pub backend: usize,
    pub order: OrderIntent,
}

pub struct CombinedClient<B> {
    backends: Vec<B>,
    routes: Vec<Route>,
}

impl<B> CombinedClient<B> {
    /// The registry: which backend owns each symbol.
    pub closed spec fn registry(&self) -> Map<Seq<char>, int> {
        Map::new(
            |s: Seq<char>| exists|k: int| 0 <= k < self.routes@.len() && self.routes@[k].symbol@ == s,
            |s: Seq<char>|
                self.routes@[choose|k: int|
                    0 <= k < self.routes@.len() && self.routes@[k].symbol@ == s].backend as int,
        )
    }

    pub closed spec fn wf(&self) -> bool {
        &&& forall|k: int|
            0 <= k < self.routes@.len() ==> self.routes@[k].backend < self.backends@.len()
        &&& forall|k: int, l: int|
            0 <= k < l < self.routes@.len() ==> self.routes@[k].symbol@ != self.routes@[l].symbol@
    }

    pub closed spec fn backends_view(&self) -> Seq<B> {
        self.backends@
    }

    /// Builds the registry from one list of symbols per backend. A symbol that
    /// two different backends claim is refused; a backend may list a symbol
    /// twice.
    pub fn new(backends: Vec<B>, symbols: Vec<Vec<String>>) -> (r: Result<Self, RegistryError>)
        ensures
            backends@.len() != symbols@.len() ==> r == Err::<Self, RegistryError>(
                RegistryError::ClaimCountMismatch,
            ),
            backends@.len() == symbols@.len() ==> (r is Ok <==> !has_overlap(symbols@)),
            r matches Err(e) ==> (e matches RegistryError::OverlappingClaim(s) ==> has_claim_conflict(symbols@, s@)),
            r matches Ok(c) ==> {
                &&& c.wf()
                &&& c.backends_view() == backends@
                &&& forall|s: Seq<char>, b: int|
                    claims(symbols@, b, s) <==> c.registry().contains_key(s) && c.registry()[s]
                        == b
            },
    {
        if backends.len() != symbols.len() {
            return Err(RegistryError::ClaimCountMismatch);
        }
        let mut routes: Vec<Route> = Vec::new();
        let mut i: usize = 0;
        while i < symbols.len()
            invariant
                i <= symbols@.len(),
                backends@.len() == symbols@.len(),
                forall|k: int| 0 <= k < routes@.len() ==> routes@[k].backend < i,
                forall|k: int, l: int|
                    0 <= k < l < routes@.len() ==> routes@[k].symbol@ != routes@[l].symbol@,
                forall|k: int|
                    0 <= k < routes@.len() ==> claims(symbols@, routes@[k].backend as int, routes@[k].symbol@),
                forall|b: int, s: Seq<char>|
                    0 <= b < i && claims(symbols@, b, s) ==> exists|k: int|
                        0 <= k < routes@.len() && routes@[k].symbol@ == s && routes@[k].backend == b,
            decreases symbols@.len() - i,
        {
            let list = &symbols[i];
            let mut j: usize = 0;
            while j < list.len()
                invariant
                    i < symbols@.len(),
                    backends@.len() == symbols@.len(),
                    list == symbols@[i as int],
                    j <= list@.len(),
                    forall|k: int| 0 <= k < routes@.len() ==> routes@[k].backend <= i,
                    forall|k: int, l: int|
                        0 <= k < l < routes@.len() ==> routes@[k].symbol@ != routes@[l].symbol@,
                    forall|k: int|
                        0 <= k < routes@.len() ==> claims(
                            symbols@,
                            routes@[k].backend as int,
                            routes@[k].symbol@,
                        ),
                    forall|b: int, s: Seq<char>|
                        0 <= b < i && claims(symbols@, b, s) ==> exists|k: int|
                            0 <= k < routes@.len() && routes@[k].symbol@ == s && routes@[k].backend
                                == b,
                    forall|jj: int|
                        #![trigger list@[jj]]
                        0 <= jj < j ==> exists|k: int|
                            0 <= k < routes@.len() && routes@[k].symbol@ == list@[jj]@
                                && routes@[k].backend == i,
                decreases list@.len() - j,
            {
                let sym = &list[j];
                proof {
                    assert(claims(symbols@, i as int, sym@)) by {
                        assert(symbols@[i as int]@[j as int]@ == sym@);
                    }
                }
                match find_route(&routes, sym) {
                    Some(k) => {
                        if routes[k].backend != i {
                            let name = sym.clone();
                            proof {
                                let a = routes@[k as int].backend as int;
                                assert(name@ == sym@);
                                assert(a != i as int && claims(symbols@, a, name@) && claims(
                                    symbols@,
                                    i as int,
                                    name@,
                                ));
                                assert(has_claim_conflict(symbols@, name@));
                            }
                            return Err(RegistryError::OverlappingClaim(name));
                        }
                    },
                    None => {
                        let ghost prev = routes@;
                        routes.push(Route { symbol: sym.clone(), backend: i });
                        proof {
                            assert(routes@[prev.len() as int].symbol@ == sym@);
                            assert forall|b: int, s: Seq<char>|
                                0 <= b < i && claims(symbols@, b, s) implies exists|q: int|
                                    0 <= q < routes@.len() && routes@[q].symbol@ == s
                                        && routes@[q].backend == b by {
                                let q = choose|q: int|
                                    0 <= q < prev.len() && prev[q].symbol@ == s && prev[q].backend
                                        == b;
                                assert(routes@[q] == prev[q]);
                            }
                            assert forall|jj: int| #![trigger list@[jj]] 0 <= jj < j + 1 implies exists|q: int|
                                0 <= q < routes@.len() && routes@[q].symbol@ == list@[jj]@
                                    && routes@[q].backend == i by {
                                if jj < j {
                                    let q = choose|q: int|
                                        0 <= q < prev.len() && prev[q].symbol@ == list@[jj]@
                                            && prev[q].backend == i;
                                    assert(routes@[q] == prev[q]);
                                } else {
                                    assert(routes@[prev.len() as int].symbol@ == list@[jj]@);
                                }
                            }
                        }
                    },
                }
                j = j + 1;
            }
            proof {
                assert forall|b: int, s: Seq<char>|
                    0 <= b < i + 1 && claims(symbols@, b, s) implies exists|k: int|
                        0 <= k < routes@.len() && routes@[k].symbol@ == s && routes@[k].backend
                            == b by {
                    if b == i {
                        let jj = choose|jj: int| 0 <= jj < list@.len() && list@[jj]@ == s;
                    }
                }
            }
            i = i + 1;
        }
        let c = CombinedClient { backends, routes };
        proof {
            assert forall|s: Seq<char>, b: int|
                claims(symbols@, b, s) <==> c.registry().contains_key(s) && c.registry()[s]
                    == b by {
                if claims(symbols@, b, s) {
                    let k = choose|k: int|
                        0 <= k < c.routes@.len() && c.routes@[k].symbol@ == s
                            && c.routes@[k].backend == b;
                    assert(c.registry().contains_key(s));
                    let k2 = choose|k2: int|
                        0 <= k2 < c.routes@.len() && c.routes@[k2].symbol@ == s;
                    assert(k2 == k);
                }
                if c.registry().contains_key(s) && c.registry()[s] == b {
                    let k = choose|k: int|
                        0 <= k < c.routes@.len() && c.routes@[k].symbol@ == s;
                    assert(claims(symbols@, c.routes@[k].backend as int, c.routes@[k].symbol@));
                }
            }
            assert(!has_overlap(symbols@)) by {
                if has_overlap(symbols@) {
                    let s = choose|s: Seq<char>| has_claim_conflict(symbols@, s);
                    let (a, b) = choose|a: int, b: int|
                        a != b && claims(symbols@, a, s) && claims(symbols@, b, s);
                    let ka = choose|k: int|
                        0 <= k < c.routes@.len() && c.routes@[k].symbol@ == s
                            && c.routes@[k].backend == a;
                    let kb = choose|k: int|
                        0 <= k < c.routes@.len() && c.routes@[k].symbol@ == s
                            && c.routes@[k].backend == b;
                    assert(ka == kb);
                }
            }
        }
        Ok(c)
    }
}

impl<B> CombinedClient<B> {
    pub fn backend_count(&self) -> (r: usize)
        ensures
            r == self.backends_view().len(),
    {
        self.backends.len()
    }

    /// The backend at position `i`.
    pub fn backend(&self, i: usize) -> (r: &B)
        requires
            i < self.backends_view().len(),
        ensures
            *r == self.backends_view()[i as int],
    {
        &self.backends[i]
    }

    /// The position of the backend that owns `symbol`; a symbol that no
    /// backend owns is a routing error. Every symbol-addressed request
    /// (existence, balance, orders) goes through here.
    pub fn route(&self, symbol: &String) -> (r: Result<usize, RoutingError>)
        requires
            self.wf(),
        ensures
            r is Err <==> !self.registry().contains_key(symbol@),
            r matches Ok(b) ==> self.registry()[symbol@] == b && b < self.backends_view().len(),
            r matches Err(e) ==> e == RoutingError::SymbolNotRouted(*symbol),
    {
        match find_route(&self.routes, symbol) {
            Some(k) => {
                proof {
                    assert(self.registry().contains_key(symbol@));
                    let k2 = choose|k2: int|
                        0 <= k2 < self.routes@.len() && self.routes@[k2].symbol@ == symbol@;
                    assert(k2 == k as int);
                }
                Ok(self.routes[k].backend)
            },
            None => Err(RoutingError::SymbolNotRouted(symbol.clone())),
        }
    }

    /// Routes a limit order to the backend that owns `symbol`; the symbol is
    /// handed on as given, and the backend normalizes it.
    pub fn place_order(&self, side: Side, symbol: &String, qty: Amount, price: Amount) -> (r: Result<
        Dispatch,
        RoutingError,
    >)
        requires
            self.wf(),
        ensures
            r is Err <==> !self.registry().contains_key(symbol@),
            r matches Err(e) ==> e == RoutingError::SymbolNotRouted(*symbol),
            r matches Ok(d) ==> {
                &&& d.backend == self.registry()[symbol@]
                &&& d.backend < self.backends_view().len()
                &&& d.order.symbol == *symbol
                &&& d.order.side == side
                &&& d.order.qty == qty
                &&& d.order.price == price
            },
    {
        let backend = self.route(symbol)?;
        Ok(Dispatch { backend, order: OrderIntent::new(symbol.clone(), side, qty, price) })
    }

    /// A buy order for the backend that owns `symbol`.
    pub fn buy_order(&self, symbol: &String, qty: Amount, price: Amount) -> (r: Result<
        Dispatch,
        RoutingError,
    >)
        requires
            self.wf(),
        ensures
            r is Err <==> !self.registry().contains_key(symbol@),
            r matches Err(e) ==> e == RoutingError::SymbolNotRouted(*symbol),
            r matches Ok(d) ==> {
                &&& d.backend == self.registry()[symbol@]
                &&& d.backend < self.backends_view().len()
                &&& d.order.symbol == *symbol
                &&& d.order.side == Side::Buy
                &&& d.order.qty == qty
                &&& d.order.price == price
            },
    {
        self.place_order(Side::Buy, symbol, qty, price)
    }

    /// A sell order for the backend that owns `symbol`.
    pub fn sell_order(&self, symbol: &String, qty: Amount, price: Amount) -> (r: Result<
        Dispatch,
        RoutingError,
    >)
        requires
            self.wf(),
        ensures
            r is Err <==> !self.registry().contains_key(symbol@),
            r matches Err(e) ==> e == RoutingError::SymbolNotRouted(*symbol),
            r matches Ok(d) ==> {
                &&& d.backend == self.registry()[symbol@]
                &&& d.backend < self.backends_view().len()
                &&& d.order.symbol == *symbol
                &&& d.order.side == Side::Sell
                &&& d.order.qty == qty
                &&& d.order.price == price
            },
    {
        self.place_order(Side::Sell, symbol, qty, price)
    }
}

/// The position of the route for `sym`, if there is one.
fn find_route(routes: &Vec<Route>, sym: &String) -> (r: Option<usize>)
    ensures
        r matches Some(k) ==> k < routes@.len() && routes@[k as int].symbol@ == sym@,
        r is None ==> forall|q: int| 0 <= q < routes@.len() ==> routes@[q].symbol@ != sym@,
{
    let mut k: usize = 0;
    while k < routes.len()
        invariant
            k <= routes@.len(),
            forall|q: int| 0 <= q < k ==> routes@[q].symbol@ != sym@,
        decreases routes@.len() - k,
    {
        if routes[k].symbol == *sym {
            return Some(k);
        }
        k = k + 1;
    }
    None
}

} // verus!
