use vstd::prelude::*;
use crate::address::Address;
use crate::constants::{MAX_MARKETS, MAX_POOLS};
use crate::position::{saturating_add_u64, saturating_sub_u64, Position};

verus! {

/// A position together with the market it is open in.
#[derive(Clone, Copy, Debug, PartialEq, Eq)]
pub struct PositionMeta {
    pub market: Address,
    pub position: Position,
}

/// What a trader has parked against one pool.
#[derive(Clone, Copy, Debug, PartialEq, Eq)]
pub struct Ledger {
    pub pool: Address,
    pub amount: u64,
}

/// One trader's books: a deposit per pool and a position per market.
#[derive(Clone, Debug, PartialEq, Eq)]
pub struct Basket {
    pub deposits: Vec<Ledger>,
    pub positions: Vec<PositionMeta>,
}

impl Default for PositionMeta {
    fn default() -> (r: PositionMeta)
        ensures
            r.market.is_zero(),
            r.position == Position::empty(),
    {
        PositionMeta { market: Address::default(), position: Position::default() }
    }
}

impl Default for Ledger {
    fn default() -> (r: Ledger)
        ensures
            r.pool.is_zero(),
            r.amount == 0,
    {
        Ledger { pool: Address::default(), amount: 0 }
    }
}

impl Default for Basket {
    fn default() -> (r: Basket)
        ensures
            r.deposits@.len() == 0,
            r.positions@.len() == 0,
            r.within_limits(),
    {
        Basket { deposits: Vec::new(), positions: Vec::new() }
    }
}

/// The index of the first deposit for `pool` at or after `from`.
pub open spec fn find_deposit(deposits: Seq<Ledger>, pool: Address, from: int) -> Option<int>
    decreases deposits.len() - from,
{
    if from < 0 || from >= deposits.len() {
        None
    } else if deposits[from].pool == pool {
        Some(from)
    } else {
        find_deposit(deposits, pool, from + 1)
    }
}

/// The index of the first position in `market` at or after `from`.
pub open spec fn find_position(positions: Seq<PositionMeta>, market: Address, from: int) -> Option<
    int,
>
    decreases positions.len() - from,
{
    if from < 0 || from >= positions.len() {
        None
    } else if positions[from].market == market {
        Some(from)
    } else {
        find_position(positions, market, from + 1)
    }
}

/// The index of the first deposit for `pool`, or `None` when there is none.
pub open spec fn deposit_index_of(deposits: Seq<Ledger>, pool: Address) -> Option<int> {
    find_deposit(deposits, pool, 0)
}

/// The index of the first position in `market`, or `None` when there is none.
pub open spec fn position_index_of(positions: Seq<PositionMeta>, market: Address) -> Option<int> {
    find_position(positions, market, 0)
}

/// An index of a vector, as the number it stands for.
pub open spec fn index_value(index: Option<usize>) -> Option<int> {
    match index {
        Some(i) => Some(i as int),
        None => None,
    }
}

/// Whether `amount` can be parked against `pool` without the deposits
/// passing `MAX_POOLS`: the pool has a deposit already, or there is room for
/// one more.
pub open spec fn has_room_for(deposits: Seq<Ledger>, pool: Address) -> bool {
    deposit_index_of(deposits, pool) is Some || deposits.len() < MAX_POOLS
}

/// Whether no two deposits are for the same pool.
pub open spec fn has_distinct_pools(deposits: Seq<Ledger>) -> bool {
    forall|i: int, j: int|
        0 <= i < j < deposits.len() ==> (#[trigger] deposits[i]).pool
            != (#[trigger] deposits[j]).pool
}

/// What is parked against `pool`: the amount of its first deposit, or zero.
pub open spec fn deposit_amount_of(deposits: Seq<Ledger>, pool: Address) -> u64 {
    match deposit_index_of(deposits, pool) {
        Some(index) => deposits[index].amount,
        None => 0,
    }
}

/// The deposits after `amount` was parked against `pool`: the first deposit
/// for the pool grows, stopping at the top of its range, or a new deposit is
/// added at the end.
pub open spec fn deposits_after_deposit(deposits: Seq<Ledger>, pool: Address, amount: u64) -> Seq<
    Ledger,
> {
    match deposit_index_of(deposits, pool) {
        Some(index) => deposits.update(
            index,
            Ledger { pool: deposits[index].pool, amount: saturating_add_u64(
                deposits[index].amount,
                amount,
            ) },
        ),
        None => deposits.push(Ledger { pool, amount }),
    }
}

/// The deposits after `amount` was taken back from `pool`: the first deposit
/// for the pool shrinks, stopping at zero; without one nothing changes.
pub open spec fn deposits_after_withdrawal(
    deposits: Seq<Ledger>,
    pool: Address,
    amount: u64,
) -> Seq<Ledger> {
    match deposit_index_of(deposits, pool) {
        Some(index) => deposits.update(
            index,
            Ledger { pool: deposits[index].pool, amount: saturating_sub_u64(
                deposits[index].amount,
                amount,
            ) },
        ),
        None => deposits,
    }
}

/// The search for a deposit finds the first one for the pool, and finds none
/// only where there is none.
pub proof fn lemma_find_deposit(deposits: Seq<Ledger>, pool: Address, from: int)
    requires
        0 <= from,
    ensures
        match find_deposit(deposits, pool, from) {
            Some(index) => from <= index < deposits.len() && deposits[index].pool == pool
                && forall|j: int| from <= j < index ==> (#[trigger] deposits[j]).pool != pool,
            None => forall|j: int|
                from <= j < deposits.len() ==> (#[trigger] deposits[j]).pool != pool,
        },
    decreases deposits.len() - from,
{
    if from < deposits.len() && deposits[from].pool != pool {
        lemma_find_deposit(deposits, pool, from + 1);
        match find_deposit(deposits, pool, from) {
            Some(index) => {
                assert forall|j: int| from <= j < index implies deposits[j].pool != pool by {
                    if j > from {
                        assert(from + 1 <= j < index);
                    }
                }
            },
            None => {
                assert forall|j: int| from <= j < deposits.len() implies deposits[j].pool
                    != pool by {
                    if j > from {
                        assert(from + 1 <= j < deposits.len());
                    }
                }
            },
        }
    }
}

/// The search for a position finds the first one in the market, and finds
/// none only where there is none.
pub proof fn lemma_find_position(positions: Seq<PositionMeta>, market: Address, from: int)
    requires
        0 <= from,
    ensures
        match find_position(positions, market, from) {
            Some(index) => from <= index < positions.len() && positions[index].market == market
                && forall|j: int| from <= j < index ==> (#[trigger] positions[j]).market != market,
            None => forall|j: int|
                from <= j < positions.len() ==> (#[trigger] positions[j]).market != market,
        },
    decreases positions.len() - from,
{
    if from < positions.len() && positions[from].market != market {
        lemma_find_position(positions, market, from + 1);
        match find_position(positions, market, from) {
            Some(index) => {
                assert forall|j: int| from <= j < index implies positions[j].market != market by {
                    if j > from {
                        assert(from + 1 <= j < index);
                    }
                }
            },
            None => {
                assert forall|j: int| from <= j < positions.len() implies positions[j].market
                    != market by {
                    if j > from {
                        assert(from + 1 <= j < positions.len());
                    }
                }
            },
        }
    }
}

/// The search for a deposit looks at the pools alone: two runs of deposits
/// for the same pools, one by one, are searched alike.
pub proof fn lemma_find_deposit_by_pools(a: Seq<Ledger>, b: Seq<Ledger>, pool: Address, from: int)
    requires
        0 <= from,
        a.len() == b.len(),
        forall|i: int| 0 <= i < a.len() ==> (#[trigger] a[i]).pool == b[i].pool,
    ensures
        find_deposit(a, pool, from) == find_deposit(b, pool, from),
    decreases a.len() - from,
{
    if from < a.len() {
        assert(a[from].pool == b[from].pool);
        if a[from].pool != pool {
            lemma_find_deposit_by_pools(a, b, pool, from + 1);
        }
    }
}

/// A deposit added at the end is found only where the search found none
/// before it.
pub proof fn lemma_find_deposit_pushed(a: Seq<Ledger>, ledger: Ledger, pool: Address, from: int)
    requires
        0 <= from <= a.len(),
    ensures
        find_deposit(a.push(ledger), pool, from) == match find_deposit(a, pool, from) {
            Some(index) => Some(index),
            None => if ledger.pool == pool {
                Some(a.len() as int)
            } else {
                None
            },
        },
    decreases a.len() - from,
{
    let b = a.push(ledger);
    if from < a.len() {
        assert(b[from] == a[from]);
        if a[from].pool != pool {
            lemma_find_deposit_pushed(a, ledger, pool, from + 1);
        }
    } else {
        assert(b[from] == ledger);
        assert(find_deposit(b, pool, from + 1) is None);
    }
}

/// A deposit against one pool leaves what is parked against every other pool
/// as it was.
pub proof fn law_deposit_touches_one_pool(
    deposits: Seq<Ledger>,
    pool: Address,
    amount: u64,
    other: Address,
)
    requires
        other != pool,
    ensures
        deposit_amount_of(deposits_after_deposit(deposits, pool, amount), other)
            == deposit_amount_of(deposits, other),
{
    let after = deposits_after_deposit(deposits, pool, amount);
    lemma_find_deposit(deposits, pool, 0);
    lemma_find_deposit(deposits, other, 0);
    match deposit_index_of(deposits, pool) {
        Some(index) => {
            lemma_find_deposit_by_pools(after, deposits, other, 0);
        },
        None => {
            lemma_find_deposit_pushed(deposits, Ledger { pool, amount }, other, 0);
        },
    }
}

/// A deposit against a pool adds the amount to what is parked against it,
/// stopping at the top of the range, and keeps the deposits one to a pool.
pub proof fn law_deposit_grows_its_pool(deposits: Seq<Ledger>, pool: Address, amount: u64)
    ensures
        deposit_amount_of(deposits_after_deposit(deposits, pool, amount), pool)
            == saturating_add_u64(deposit_amount_of(deposits, pool), amount),
        has_distinct_pools(deposits) ==> has_distinct_pools(
            deposits_after_deposit(deposits, pool, amount),
        ),
{
    let after = deposits_after_deposit(deposits, pool, amount);
    lemma_find_deposit(deposits, pool, 0);
    match deposit_index_of(deposits, pool) {
        Some(index) => {
            lemma_find_deposit_by_pools(after, deposits, pool, 0);
            if has_distinct_pools(deposits) {
                assert forall|i: int, j: int|
                    0 <= i < j < after.len() implies (#[trigger] after[i]).pool
                    != (#[trigger] after[j]).pool by {
                    assert(after[i].pool == deposits[i].pool);
                    assert(after[j].pool == deposits[j].pool);
                }
            }
        },
        None => {
            lemma_find_deposit_pushed(deposits, Ledger { pool, amount }, pool, 0);
            if has_distinct_pools(deposits) {
                assert forall|i: int, j: int|
                    0 <= i < j < after.len() implies (#[trigger] after[i]).pool
                    != (#[trigger] after[j]).pool by {
                    if j < deposits.len() {
                        assert(after[i] == deposits[i]);
                        assert(after[j] == deposits[j]);
                    } else {
                        assert(after[i] == deposits[i]);
                        assert(after[j].pool == pool);
                    }
                }
            }
        },
    }
}

impl Basket {
    /// Whether the basket holds no more deposits than `MAX_POOLS` and no more
    /// positions than `MAX_MARKETS`.
    pub open spec fn within_limits(self) -> bool {
        self.deposits@.len() <= MAX_POOLS && self.positions@.len() <= MAX_MARKETS
    }

    /// A basket with no deposit and no position.
    pub fn new() -> (r: Basket)
        ensures
            r.deposits@.len() == 0,
            r.positions@.len() == 0,
            r.within_limits(),
    {
        Basket { deposits: Vec::new(), positions: Vec::new() }
    }

    /// Finds the position that the basket holds in the market.
    pub fn get_position_index(&self, market_key: &Address) -> (r: Option<usize>)
        ensures
            index_value(r) == position_index_of(self.positions@, *market_key),
            match r {
                Some(index) => {
                    &&& index < self.positions@.len()
                    &&& self.positions@[index as int].market == *market_key
                    &&& forall|j: int|
                        0 <= j < index ==> (#[trigger] self.positions@[j]).market != *market_key
                },
                None => forall|j: int|
                    0 <= j < self.positions@.len() ==> (#[trigger] self.positions@[j]).market
                        != *market_key,
            },
    {
        let mut i: usize = 0;
        while i < self.positions.len()
            invariant
                i <= self.positions@.len(),
                find_position(self.positions@, *market_key, 0) == find_position(
                    self.positions@,
                    *market_key,
                    i as int,
                ),
            decreases self.positions@.len() - i,
        {
            if self.positions[i].market.equals(market_key) {
                proof {
                    lemma_find_position(self.positions@, *market_key, 0);
                }
                return Some(i);
            }
            i = i + 1;
        }
        proof {
            lemma_find_position(self.positions@, *market_key, 0);
        }
        None
    }

    /// Finds the deposit that the basket holds for the pool.
    pub fn get_deposit_index(&self, pool_key: &Address) -> (r: Option<usize>)
        ensures
            index_value(r) == deposit_index_of(self.deposits@, *pool_key),
            match r {
                Some(index) => {
                    &&& index < self.deposits@.len()
                    &&& self.deposits@[index as int].pool == *pool_key
                    &&& forall|j: int|
                        0 <= j < index ==> (#[trigger] self.deposits@[j]).pool != *pool_key
                },
                None => forall|j: int|
                    0 <= j < self.deposits@.len() ==> (#[trigger] self.deposits@[j]).pool
                        != *pool_key,
            },
    {
        let mut i: usize = 0;
        while i < self.deposits.len()
            invariant
                i <= self.deposits@.len(),
                find_deposit(self.deposits@, *pool_key, 0) == find_deposit(
                    self.deposits@,
                    *pool_key,
                    i as int,
                ),
            decreases self.deposits@.len() - i,
        {
            if self.deposits[i].pool.equals(pool_key) {
                proof {
                    lemma_find_deposit(self.deposits@, *pool_key, 0);
                }
                return Some(i);
            }
            i = i + 1;
        }
        proof {
            lemma_find_deposit(self.deposits@, *pool_key, 0);
        }
        None
    }

    /// Whether the basket can take a deposit for the pool.
    pub fn has_room_for_deposit(&self, pool_key: &Address) -> (r: bool)
        ensures
            r == has_room_for(self.deposits@, *pool_key),
    {
        self.get_deposit_index(pool_key).is_some() || self.deposits.len() < MAX_POOLS as usize
    }

    /// What the basket has parked against the pool; zero without a deposit.
    pub fn get_deposit_amount(&self, pool_key: &Address) -> (r: u64)
        ensures
            r == deposit_amount_of(self.deposits@, *pool_key),
    {
        match self.get_deposit_index(pool_key) {
            Some(index) => self.deposits[index].amount,
            None => 0,
        }
    }

    /// Parks `amount` more against the pool, opening a deposit for it where
    /// the basket has none. The basket must have room for that deposit.
    pub fn process_deposit(&mut self, pool_key: Address, amount: u64)
        requires
            has_room_for(old(self).deposits@, pool_key),
        ensures
            final(self).deposits@ == deposits_after_deposit(old(self).deposits@, pool_key, amount),
            deposit_amount_of(final(self).deposits@, pool_key) == saturating_add_u64(
                deposit_amount_of(old(self).deposits@, pool_key),
                amount,
            ),
            old(self).within_limits() ==> final(self).within_limits(),
            has_distinct_pools(old(self).deposits@) ==> has_distinct_pools(final(self).deposits@),
            final(self).deposits@.len() == old(self).deposits@.len() + (if deposit_index_of(
                old(self).deposits@,
                pool_key,
            ) is Some {
                0int
            } else {
                1int
            }),
            final(self).positions == old(self).positions,
    {
        proof {
            law_deposit_grows_its_pool(self.deposits@, pool_key, amount);
        }
        match self.get_deposit_index(&pool_key) {
            Some(index) => {
                let ledger = self.deposits[index];
                self.deposits.set(
                    index,
                    Ledger { pool: ledger.pool, amount: ledger.amount.saturating_add(amount) },
                );
            },
            None => {
                self.deposits.push(Ledger { pool: pool_key, amount });
            },
        }
    }

    /// Takes `amount` back from what is parked against the pool, or all of it
    /// where less is parked.
    pub fn process_withdrawal(&mut self, pool_key: Address, amount: u64)
        ensures
            final(self).deposits@ == deposits_after_withdrawal(
                old(self).deposits@,
                pool_key,
                amount,
            ),
            final(self).deposits@.len() == old(self).deposits@.len(),
            final(self).positions == old(self).positions,
    {
        match self.get_deposit_index(&pool_key) {
            Some(index) => {
                let ledger = self.deposits[index];
                self.deposits.set(
                    index,
                    Ledger { pool: ledger.pool, amount: ledger.amount.saturating_sub(amount) },
                );
            },
            None => {},
        }
    }
}

} // verus!
