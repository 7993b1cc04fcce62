//! The positions in a pool, in a map of the host.

use vstd::prelude::*;

use crate::financing_pool::model::{has_room, lemma_room, with_position};
use crate::shared::table::Stored;
use crate::shared::types::{Address, AddressKind, Position};

verus! {

/// The host, which keeps the map.
#[verifier::external_type_specification]
#[verifier::external_body]
pub struct ExEnv(soroban_sdk::Env);

/// A map that the host keeps, ordered by its keys.
#[verifier::external_type_specification]
#[verifier::external_body]
#[verifier::reject_recursive_types(K)]
#[verifier::reject_recursive_types(V)]
pub struct ExMap<K, V>(soroban_sdk::Map<K, V>);

/// An investor's address: 0 for an account and 1 for a contract, then the two
/// halves.
pub type InvestorKey = (u32, u128, u128);

/// The rest of a position: invoice, contribution, share and claimed yield.
pub type Holding = (u64, i128, u32, i128);

/// The pairs in a map, in the order of their keys.
pub uninterp spec fn pairs(map: soroban_sdk::Map<InvestorKey, Holding>) -> Seq<
    (InvestorKey, Holding),
>;

/// The order of tuples: by the first component in which they differ.
pub open spec fn key_precedes(a: InvestorKey, b: InvestorKey) -> bool {
    a.0 < b.0 || (a.0 == b.0 && (a.1 < b.1 || (a.1 == b.1 && a.2 < b.2)))
}

/// The pairs before the key, the pair, and the pairs after the key: an earlier
/// pair with the same key is gone.
pub open spec fn with_pair(
    pairs: Seq<(InvestorKey, Holding)>,
    key: InvestorKey,
    holding: Holding,
) -> Seq<(InvestorKey, Holding)> {
    pairs.filter(|p: (InvestorKey, Holding)| key_precedes(p.0, key)).push((key, holding))
        + pairs.filter(|p: (InvestorKey, Holding)| key_precedes(key, p.0))
}

/// `soroban_sdk::Map::new`: a map without pairs.
#[verifier::external_body]
fn new_map(host: &soroban_sdk::Env) -> (r: soroban_sdk::Map<InvestorKey, Holding>)
    ensures
        pairs(r).len() == 0,
{
    soroban_sdk::Map::new(host)
}

/// `soroban_sdk::Map::set`: puts the pair in its place in the order of the keys,
/// in place of a pair with the same key; all others stay. The host takes no
/// more than `u32::MAX` pairs. What the work costs is charged to the
/// invocation's budget; an invocation that exceeds it is aborted as a whole.
#[verifier::external_body]
fn set_pair(
    map: &mut soroban_sdk::Map<InvestorKey, Holding>,
    key: InvestorKey,
    holding: Holding,
)
    requires
        with_pair(pairs(*old(map)), key, holding).len() <= u32::MAX,
    ensures
        pairs(*final(map)) == with_pair(pairs(*old(map)), key, holding),
{
    map.set(key, holding)
}

/// `soroban_sdk::Map::iter`: hands out the pairs in the order of their keys. The
/// maps here are made by `new_map` and `set_pair` alone, so all their pairs are
/// of the map's types.
#[verifier::external_body]
fn all_pairs(map: &soroban_sdk::Map<InvestorKey, Holding>) -> (r: Vec<(InvestorKey, Holding)>)
    ensures
        r@ == pairs(*map),
{
    map.iter().collect()
}

/// `Clone` of `soroban_sdk::Map`: another handle to the same pairs. Setting a
/// pair gives a handle a map of its own, so neither sees what is set in the
/// other.
#[verifier::external_body]
fn same_map(map: &soroban_sdk::Map<InvestorKey, Holding>) -> (r: soroban_sdk::Map<
    InvestorKey,
    Holding,
>)
    ensures
        pairs(r) == pairs(*map),
{
    map.clone()
}

pub open spec fn key_of(investor: Address) -> InvestorKey {
    match investor.kind {
        AddressKind::Account => (0, investor.hi, investor.lo),
        AddressKind::Contract => (1, investor.hi, investor.lo),
    }
}

pub open spec fn holding_of(position: Position) -> Holding {
    (position.invoice_id, position.contributed, position.share_bps, position.yield_claimed)
}

pub open spec fn position_of(pair: (InvestorKey, Holding)) -> Position {
    Position {
        investor: Address {
            kind: if pair.0.0 == 0 {
                AddressKind::Account
            } else {
                AddressKind::Contract
            },
            hi: pair.0.1,
            lo: pair.0.2,
        },
        invoice_id: pair.1.0,
        contributed: pair.1.1,
        share_bps: pair.1.2,
        yield_claimed: pair.1.3,
    }
}

/// The positions in one pool, at most one of each investor, in the order of the
/// investors.
pub struct PositionBook {
    map: soroban_sdk::Map<InvestorKey, Holding>,
}

impl View for PositionBook {
    type V = Seq<Position>;

    closed spec fn view(&self) -> Seq<Position> {
        pairs(self.map).map_values(|p: (InvestorKey, Holding)| position_of(p))
    }
}

impl PositionBook {
    /// Every key stands for an address.
    #[verifier::type_invariant]
    spec fn keys_are_addresses(self) -> bool {
        forall|i: int| 0 <= i < pairs(self.map).len() ==> (#[trigger] pairs(self.map)[i]).0.0 <= 1
    }

    /// A book without positions.
    pub fn new(host: &soroban_sdk::Env) -> (r: Self)
        ensures
            r@ == Seq::<Position>::empty(),
    {
        let r = PositionBook { map: new_map(host) };
        assert(r@ =~= Seq::<Position>::empty());
        r
    }

    /// The book with one more position, in place of an earlier one of the same
    /// investor.
    pub fn record(self, position: Position) -> (r: Self)
        requires
            has_room(self@, position),
        ensures
            r@ == with_position(self@, position),
    {
        proof {
            use_type_invariant(&self);
        }
        let ghost before = pairs(self.map);
        let kind: u32 = match position.investor.kind {
            AddressKind::Account => 0,
            AddressKind::Contract => 1,
        };
        let key = (kind, position.investor.hi, position.investor.lo);
        let holding = (
            position.invoice_id,
            position.contributed,
            position.share_bps,
            position.yield_claimed,
        );
        let mut map = self.map;
        proof {
            lemma_with_pair(before, position);
            lemma_room(self@, position);
        }
        set_pair(&mut map, key, holding);
        PositionBook { map }
    }

    /// The positions, in the order of the investors.
    pub fn to_vec(&self) -> (r: Vec<Position>)
        ensures
            r@ == self@,
    {
        let all = all_pairs(&self.map);
        let mut positions: Vec<Position> = Vec::new();
        let mut i: usize = 0;
        while i < all.len()
            invariant
                i <= all.len(),
                all@ == pairs(self.map),
                positions@ =~= self@.take(i as int),
            decreases all.len() - i,
        {
            let (key, holding) = all[i];
            let kind = if key.0 == 0 {
                AddressKind::Account
            } else {
                AddressKind::Contract
            };
            positions.push(
                Position {
                    investor: Address { kind, hi: key.1, lo: key.2 },
                    invoice_id: holding.0,
                    contributed: holding.1,
                    share_bps: holding.2,
                    yield_claimed: holding.3,
                },
            );
            i = i + 1;
        }
        assert(self@.take(i as int) =~= self@);
        positions
    }
}

impl Stored for PositionBook {
    fn duplicate(&self) -> (r: Self) {
        proof {
            use_type_invariant(self);
        }
        PositionBook { map: same_map(&self.map) }
    }
}

/// Filtering what comes out of a map is mapping what a matching filter lets
/// through.
proof fn lemma_filter_mapped<A, B>(
    s: Seq<A>,
    f: spec_fn(A) -> B,
    before: spec_fn(A) -> bool,
    after: spec_fn(B) -> bool,
)
    requires
        forall|i: int| 0 <= i < s.len() ==> before(#[trigger] s[i]) == after(f(s[i])),
    ensures
        s.filter(before).map_values(f) == s.map_values(f).filter(after),
    decreases s.len(),
{
    reveal(Seq::filter);
    if s.len() > 0 {
        let front = s.drop_last();
        assert forall|i: int| 0 <= i < front.len() implies before(#[trigger] front[i]) == after(
            f(front[i]),
        ) by {
            assert(s[i] == front[i]);
        }
        lemma_filter_mapped(front, f, before, after);
        assert(s.map_values(f).drop_last() =~= front.map_values(f));
        assert(s[s.len() - 1] == s.last());
        assert(front.filter(before).push(s.last()).map_values(f) =~= front.filter(
            before,
        ).map_values(f).push(f(s.last())));
    }
    assert(s.filter(before).map_values(f) =~= s.map_values(f).filter(after));
}

/// What holds of all elements holds of those that a filter lets through.
proof fn lemma_filter_all<A>(s: Seq<A>, keep: spec_fn(A) -> bool, holds: spec_fn(A) -> bool)
    requires
        forall|i: int| 0 <= i < s.len() ==> holds(#[trigger] s[i]),
    ensures
        forall|i: int| 0 <= i < s.filter(keep).len() ==> holds(#[trigger] s.filter(keep)[i]),
    decreases s.len(),
{
    reveal(Seq::filter);
    if s.len() > 0 {
        let front = s.drop_last();
        assert forall|i: int| 0 <= i < front.len() implies holds(#[trigger] front[i]) by {
            assert(s[i] == front[i]);
        }
        lemma_filter_all(front, keep, holds);
        let kept = front.filter(keep);
        assert(holds(s[s.len() - 1]));
        assert forall|i: int| 0 <= i < s.filter(keep).len() implies holds(
            #[trigger] s.filter(keep)[i],
        ) by {
            if i < kept.len() {
                assert(holds(kept[i]));
            }
        }
    }
}

/// Setting a pair is recording the position it stands for.
proof fn lemma_with_pair(pairs: Seq<(InvestorKey, Holding)>, position: Position)
    requires
        forall|i: int| 0 <= i < pairs.len() ==> (#[trigger] pairs[i]).0.0 <= 1,
    ensures
        ({
            let f = |p: (InvestorKey, Holding)| position_of(p);
            let set = with_pair(pairs, key_of(position.investor), holding_of(position));
            &&& set.map_values(f) == with_position(pairs.map_values(f), position)
            &&& forall|i: int| 0 <= i < set.len() ==> (#[trigger] set[i]).0.0 <= 1
        }),
{
    let f = |p: (InvestorKey, Holding)| position_of(p);
    let key = key_of(position.investor);
    let pair = (key, holding_of(position));
    let below = |p: (InvestorKey, Holding)| key_precedes(p.0, key);
    let above = |p: (InvestorKey, Holding)| key_precedes(key, p.0);
    let lower = |p: Position| p.investor.spec_precedes(position.investor);
    let upper = |p: Position| position.investor.spec_precedes(p.investor);
    lemma_filter_mapped(pairs, f, below, lower);
    lemma_filter_mapped(pairs, f, above, upper);
    let set = with_pair(pairs, key, holding_of(position));
    assert(set == pairs.filter(below).push(pair) + pairs.filter(above));
    assert(position_of(pair) == position);
    assert(set.map_values(f) =~= pairs.filter(below).map_values(f).push(position) + pairs.filter(
        above,
    ).map_values(f));
    let valid = |p: (InvestorKey, Holding)| p.0.0 <= 1;
    assert forall|i: int| 0 <= i < pairs.len() implies valid(#[trigger] pairs[i]) by {}
    lemma_filter_all(pairs, below, valid);
    lemma_filter_all(pairs, above, valid);
    assert forall|i: int| 0 <= i < set.len() implies (#[trigger] set[i]).0.0 <= 1 by {
        let n = pairs.filter(below).len();
        if i < n {
            assert(valid(pairs.filter(below)[i]));
        } else if i > n {
            assert(valid(pairs.filter(above)[i - n - 1]));
        }
    }
}

} // verus!
