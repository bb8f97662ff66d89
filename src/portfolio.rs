use vstd::prelude::*;

use crate::market::MarketPair;

verus! {

/// Makes `uuid::Uuid` usable as an opaque engine identifier.
#[verifier::external_type_specification]
#[verifier::external_body]
pub struct ExUuid(uuid::Uuid);

/// An open exposure in one market: a signed size (zero is flat, positive is
/// long, negative is short) and the fixed-point price it was entered at.
#[derive(Clone, Copy, Debug, PartialEq, Eq, Structural)]
pub struct Position {
    pub size: i32,
    pub price: i64,
}

impl Position {
    pub open spec fn is_open(&self) -> bool {
        self.size != 0
    }
}

/// The ledger: at most one position per market, plus the markets it tracks.
pub struct Portfolio {
    pub engine_id: uuid::Uuid,
    pub markets: Vec<MarketPair>,
    pub positions: Vec<(MarketPair, Position)>,
    pub model: Ghost<Map<(Seq<char>, Seq<char>), Position>>,
}

/// Whether the ledger `m` holds an open (non-flat) position for market `k`.
pub open spec fn has_open_position(m: Map<(Seq<char>, Seq<char>), Position>, k: (Seq<char>, Seq<char>)) -> bool {
    m.contains_key(k) && m[k].is_open()
}

/// The ledger after a fill of `p` for market `k`: the position is recorded
/// only where no open position stands there already.
pub open spec fn after_fill(
    m: Map<(Seq<char>, Seq<char>), Position>,
    k: (Seq<char>, Seq<char>),
    p: Position,
) -> Map<(Seq<char>, Seq<char>), Position> {
    if has_open_position(m, k) {
        m
    } else {
        m.insert(k, p)
    }
}

impl View for Portfolio {
    type V = Map<(Seq<char>, Seq<char>), Position>;

    open spec fn view(&self) -> Map<(Seq<char>, Seq<char>), Position> {
        self.model@
    }
}

impl Portfolio {
    /// Entries have distinct markets, and the model maps each entry's market
    /// to its position and nothing else.
    pub open spec fn wf(&self) -> bool {
        &&& forall|i: int, j: int|
            0 <= i < j < self.positions@.len() ==> #[trigger] self.positions@[i].0@
                != #[trigger] self.positions@[j].0@
        &&& forall|i: int|
            0 <= i < self.positions@.len() ==> self.model@.contains_key(#[trigger] self.positions@[i].0@)
                && self.model@[self.positions@[i].0@] == self.positions@[i].1
        &&& forall|k|
            #[trigger] self.model@.contains_key(k) ==> exists|i: int|
                0 <= i < self.positions@.len() && #[trigger] self.positions@[i].0@ == k
        &&& self.model@.dom().finite()
        &&& self.model@.len() == self.positions@.len()
    }

    /// An empty ledger for the given engine, tracking `markets`.
    pub fn new(engine_id: uuid::Uuid, markets: Vec<MarketPair>) -> (r: Portfolio)
        ensures
            r.wf(),
            r@ == Map::<(Seq<char>, Seq<char>), Position>::empty(),
            r.engine_id == engine_id,
            r.markets == markets,
    {
        Portfolio { engine_id, markets, positions: Vec::new(), model: Ghost(Map::empty()) }
    }

    fn find(&self, market: &MarketPair) -> (r: Option<usize>)
        requires
            self.wf(),
        ensures
            match r {
                Some(i) => i < self.positions@.len() && self.positions@[i as int].0@ == market@,
                None => !self@.contains_key(market@),
            },
    {
        let mut i: usize = 0;
        while i < self.positions.len()
            invariant
                self.wf(),
                i <= self.positions@.len(),
                forall|j: int| 0 <= j < i ==> self.positions@[j].0@ != market@,
            decreases self.positions@.len() - i,
        {
            if self.positions[i].0.same_market(market) {
                return Some(i);
            }
            i = i + 1;
        }
        None
    }

    /// The position recorded for `market`, if any.
    pub fn get(&self, market: &MarketPair) -> (r: Option<Position>)
        requires
            self.wf(),
        ensures
            r == (if self@.contains_key(market@) {
                Some(self@[market@])
            } else {
                None::<Position>
            }),
    {
        match self.find(market) {
            Some(i) => Some(self.positions[i].1),
            None => None,
        }
    }

    /// Number of markets with a recorded position.
    pub fn position_count(&self) -> (r: usize)
        requires
            self.wf(),
        ensures
            r == self@.len(),
    {
        self.positions.len()
    }

    /// Records `position` for `market` unless an open position is already
    /// there; a flat entry counts as no position. Returns whether it was recorded.
    pub fn insert_if_absent(&mut self, market: MarketPair, position: Position) -> (r: bool)
        requires
            old(self).wf(),
        ensures
            final(self).wf(),
            r == !has_open_position(old(self)@, market@),
            final(self)@ == after_fill(old(self)@, market@, position),
            final(self).engine_id == old(self).engine_id,
            final(self).markets == old(self).markets,
    {
        match self.find(&market) {
            Some(i) => {
                if self.positions[i].1.size != 0 {
                    return false;
                }
                let ghost key = market@;
                self.positions.set(i, (market, position));
                self.model = Ghost(self.model@.insert(key, position));
                assert(old(self).model@.dom().insert(key) =~= old(self).model@.dom());
                assert forall|k| #[trigger] self.model@.contains_key(k) implies exists|j: int|
                    0 <= j < self.positions@.len() && #[trigger] self.positions@[j].0@ == k by {
                    if k != key {
                        let j = choose|j: int|
                            0 <= j < old(self).positions@.len() && #[trigger] old(self).positions@[j].0@ == k;
                        assert(self.positions@[j].0@ == k);
                    } else {
                        assert(self.positions@[i as int].0@ == k);
                    }
                }
                true
            },
            None => {
                let ghost key = market@;
                self.positions.push((market, position));
                self.model = Ghost(self.model@.insert(key, position));
                assert forall|j: int| 0 <= j < old(self).positions@.len() implies
                    #[trigger] self.positions@[j].0@ != key by {
                    assert(old(self).model@.contains_key(old(self).positions@[j].0@));
                }
                assert forall|k| #[trigger] self.model@.contains_key(k) implies exists|j: int|
                    0 <= j < self.positions@.len() && #[trigger] self.positions@[j].0@ == k by {
                    if k != key {
                        let j = choose|j: int|
                            0 <= j < old(self).positions@.len() && #[trigger] old(self).positions@[j].0@ == k;
                        assert(self.positions@[j].0@ == k);
                    } else {
                        assert(self.positions@[old(self).positions@.len() as int].0@ == k);
                    }
                }
                true
            },
        }
    }

    /// Removes the position of `market`; nothing happens where there is none.
    pub fn close_position(&mut self, market: &MarketPair)
        requires
            old(self).wf(),
        ensures
            final(self).wf(),
            final(self)@ == old(self)@.remove(market@),
            final(self).engine_id == old(self).engine_id,
            final(self).markets == old(self).markets,
    {
        if let Some(i) = self.find(market) {
            let ghost key = market@;
            let ghost last = (self.positions@.len() - 1) as int;
            let _removed = self.positions.swap_remove(i);
            self.model = Ghost(self.model@.remove(key));
            proof {
                assert forall|k| #[trigger] self.model@.contains_key(k) implies exists|j: int|
                    0 <= j < self.positions@.len() && #[trigger] self.positions@[j].0@ == k by {
                    let j = choose|j: int|
                        0 <= j < old(self).positions@.len() && #[trigger] old(self).positions@[j].0@ == k;
                    if j == last {
                        assert(self.positions@[i as int].0@ == k);
                    } else {
                        assert(self.positions@[j].0@ == k);
                    }
                }
            }
        }
    }
}

} // verus!
