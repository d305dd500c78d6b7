use crate::address::Address;
use crate::error::BridgeError;
use vstd::map_lib::lemma_submap_of_trans;
use vstd::prelude::*;
use vstd::string::*;

verus! {

/// The two tables under which the cache is kept: one keyed by address, one
/// keyed by token account.
#[derive(Clone, Copy, Debug, PartialEq, Eq, Structural)]
pub enum StorageKey {
    Erc20ToNep141,
    Nep141ToErc20,
}

impl StorageKey {
    /// The byte that starts every storage key of the table.
    pub open spec fn spec_prefix(self) -> u8 {
        match self {
            StorageKey::Erc20ToNep141 => 0,
            StorageKey::Nep141ToErc20 => 1,
        }
    }

    /// The byte that starts every storage key of the table.
    pub fn prefix(&self) -> (p: u8)
        ensures
            p == self.spec_prefix(),
    {
        match self {
            StorageKey::Erc20ToNep141 => 0,
            StorageKey::Nep141ToErc20 => 1,
        }
    }
}

/// A token account together with the address of its token contract.
#[derive(Clone, Debug, PartialEq, Eq)]
pub struct MappingEntry {
    pub token_id: String,
    pub address: Address,
}

impl View for MappingEntry {
    type V = (Seq<char>, Address);

    open spec fn view(&self) -> (Seq<char>, Address) {
        (self.token_id@, self.address)
    }
}

/// Whether no token account and no address occurs in two of the pairs.
pub open spec fn pairs_distinct(pairs: Seq<(Seq<char>, Address)>) -> bool {
    forall|i: int, j: int|
        0 <= i < j < pairs.len() ==> (#[trigger] pairs[i]).0 != (#[trigger] pairs[j]).0
            && pairs[i].1 != pairs[j].1
}

/// Whether one of the pairs is for the token account `id`.
pub open spec fn has_id(pairs: Seq<(Seq<char>, Address)>, id: Seq<char>) -> bool {
    exists|i: int| 0 <= i < pairs.len() && (#[trigger] pairs[i]).0 == id
}

/// Whether one of the pairs is for the address `address`.
pub open spec fn has_address(pairs: Seq<(Seq<char>, Address)>, address: Address) -> bool {
    exists|i: int| 0 <= i < pairs.len() && (#[trigger] pairs[i]).1 == address
}

/// The table keyed by token account.
pub open spec fn forward(pairs: Seq<(Seq<char>, Address)>) -> Map<Seq<char>, Address> {
    Map::new(
        |id: Seq<char>| has_id(pairs, id),
        |id: Seq<char>| pairs[choose|i: int| 0 <= i < pairs.len() && (#[trigger] pairs[i]).0 == id].1,
    )
}

/// The table keyed by address.
pub open spec fn backward(pairs: Seq<(Seq<char>, Address)>) -> Map<Address, Seq<char>> {
    Map::new(
        |address: Address| has_address(pairs, address),
        |address: Address|
            pairs[choose|i: int| 0 <= i < pairs.len() && (#[trigger] pairs[i]).1 == address].0,
    )
}

/// The cache of resolved tokens: a one-to-one relation between token
/// accounts and addresses that only ever grows.
#[derive(Debug)]
pub struct MappingCache {
    entries: Vec<MappingEntry>,
}

impl View for MappingCache {
    type V = Seq<(Seq<char>, Address)>;

    closed spec fn view(&self) -> Seq<(Seq<char>, Address)> {
        self.entries@.map_values(|e: MappingEntry| e@)
    }
}

impl MappingCache {
    /// The invariant of the cache: no token account has two addresses and no
    /// address has two token accounts.
    #[verifier::type_invariant]
    pub open spec fn wf(&self) -> bool {
        pairs_distinct(self@)
    }

    /// The table keyed by token account.
    pub open spec fn by_id(&self) -> Map<Seq<char>, Address> {
        forward(self@)
    }

    /// The table keyed by address.
    pub open spec fn by_address(&self) -> Map<Address, Seq<char>> {
        backward(self@)
    }

    /// What a lookup by token account gives.
    pub open spec fn address_of(&self, id: Seq<char>) -> Option<Address> {
        if self.by_id().contains_key(id) {
            Some(self.by_id()[id])
        } else {
            None
        }
    }

    /// What a lookup by address gives.
    pub open spec fn token_of(&self, address: Address) -> Option<Seq<char>> {
        if self.by_address().contains_key(address) {
            Some(self.by_address()[address])
        } else {
            None
        }
    }

    /// Whether the pair can be recorded without touching another entry:
    /// either both sides are unknown, or the pair is cached already.
    pub open spec fn admits(&self, id: Seq<char>, address: Address) -> bool {
        ||| !self.by_id().contains_key(id) && !self.by_address().contains_key(address)
        ||| self.by_id().contains_pair(id, address)
    }

    /// Whether the cache holds every entry of `earlier`, unchanged.
    pub open spec fn extends(&self, earlier: MappingCache) -> bool {
        &&& earlier.by_id().submap_of(self.by_id())
        &&& earlier.by_address().submap_of(self.by_address())
    }

    /// The empty cache.
    pub fn new() -> (cache: MappingCache)
        ensures
            cache.wf(),
            cache@ == Seq::<(Seq<char>, Address)>::empty(),
            cache.by_id() == Map::<Seq<char>, Address>::empty(),
            cache.by_address() == Map::<Address, Seq<char>>::empty(),
    {
        let cache = MappingCache { entries: Vec::new() };
        assert(cache@ =~= Seq::<(Seq<char>, Address)>::empty());
        assert(cache.by_id() =~= Map::<Seq<char>, Address>::empty());
        assert(cache.by_address() =~= Map::<Address, Seq<char>>::empty());
        cache
    }

    /// The number of cached pairs.
    pub fn len(&self) -> (n: usize)
        ensures
            n == self@.len(),
    {
        self.entries.len()
    }

    /// The pair at `index`, in the order in which the pairs were recorded.
    pub fn get(&self, index: usize) -> (r: Option<&MappingEntry>)
        ensures
            r is Some <==> index < self@.len(),
            r matches Some(entry) ==> entry@ == self@[index as int],
    {
        if index < self.entries.len() {
            Some(&self.entries[index])
        } else {
            None
        }
    }

    /// The index of the entry for `id`, if there is one.
    fn position_of_id(&self, id: &String) -> (r: Option<usize>)
        ensures
            r matches Some(i) ==> i < self@.len() && self@[i as int].0 == id@,
            r is None ==> !has_id(self@, id@),
    {
        let mut i: usize = 0;
        while i < self.entries.len()
            invariant
                i <= self.entries.len(),
                forall|k: int| 0 <= k < i ==> (#[trigger] self@[k]).0 != id@,
            decreases self.entries.len() - i,
        {
            if self.entries[i].token_id == *id {
                return Some(i);
            }
            i += 1;
        }
        None
    }

    /// The index of the entry for `address`, if there is one.
    fn position_of_address(&self, address: &Address) -> (r: Option<usize>)
        ensures
            r matches Some(i) ==> i < self@.len() && self@[i as int].1 == *address,
            r is None ==> !has_address(self@, *address),
    {
        let mut i: usize = 0;
        while i < self.entries.len()
            invariant
                i <= self.entries.len(),
                forall|k: int| 0 <= k < i ==> (#[trigger] self@[k]).1 != *address,
            decreases self.entries.len() - i,
        {
            if self.entries[i].address.same(address) {
                return Some(i);
            }
            i += 1;
        }
        None
    }

    /// The address cached for the token account `token_id`.
    pub fn lookup(&self, token_id: &str) -> (r: Option<Address>)
        ensures
            r == self.address_of(token_id@),
    {
        proof {
            use_type_invariant(self);
        }
        let id = String::from_str(token_id);
        match self.position_of_id(&id) {
            Some(i) => {
                proof {
                    lemma_tables_at(self@, i as int);
                }
                Some(self.entries[i].address)
            },
            None => None,
        }
    }

    /// The token account cached for `address`.
    pub fn lookup_address(&self, address: &Address) -> (r: Option<String>)
        ensures
            r is Some <==> self.token_of(*address) is Some,
            r matches Some(id) ==> Some(id@) == self.token_of(*address),
    {
        proof {
            use_type_invariant(self);
        }
        match self.position_of_address(address) {
            Some(i) => {
                proof {
                    lemma_tables_at(self@, i as int);
                }
                Some(self.entries[i].token_id.clone())
            },
            None => None,
        }
    }

    /// Records that the token account `token_id` has the address `address`.
    ///
    /// An entry is written once: where neither side is cached the pair is
    /// added to both tables, where the very pair is cached nothing changes,
    /// and where either side is cached with another partner the pair is
    /// refused and nothing changes.
    pub fn insert(&mut self, token_id: String, address: Address) -> (r: Result<(), BridgeError>)
        ensures
            final(self).wf(),
            old(self).admits(token_id@, address) ==> r is Ok,
            !old(self).admits(token_id@, address) ==> r == Err::<(), BridgeError>(
                BridgeError::MappingConflict,
            ) && final(self)@ == old(self)@,
            r is Ok ==> final(self).by_id() == old(self).by_id().insert(token_id@, address),
            r is Ok ==> final(self).by_address() == old(self).by_address().insert(
                address,
                token_id@,
            ),
            r is Ok ==> final(self)@ == if old(self).by_id().contains_key(token_id@) {
                old(self)@
            } else {
                old(self)@.push((token_id@, address))
            },
            final(self).extends(*old(self)),
    {
        proof {
            use_type_invariant(&*self);
        }
        let by_id = self.position_of_id(&token_id);
        let by_address = self.position_of_address(&address);
        match (by_id, by_address) {
            (None, None) => {
                let ghost before = self@;
                let mut entries: Vec<MappingEntry> = Vec::new();
                core::mem::swap(&mut self.entries, &mut entries);
                proof {
                    lemma_tables_push(before, (token_id@, address));
                    assert(entries@.push(MappingEntry { token_id, address }).map_values(
                        |e: MappingEntry| e@,
                    ) =~= before.push((token_id@, address)));
                }
                entries.push(MappingEntry { token_id, address });
                self.entries = entries;
                Ok(())
            },
            (Some(i), Some(j)) => {
                proof {
                    lemma_tables_at(self@, i as int);
                    lemma_tables_at(self@, j as int);
                }
                if i == j {
                    proof {
                        assert(self.by_id().insert(token_id@, address) =~= self.by_id());
                        assert(self.by_address().insert(address, token_id@) =~= self.by_address());
                    }
                    Ok(())
                } else {
                    Err(BridgeError::MappingConflict)
                }
            },
            (Some(i), None) => {
                proof {
                    lemma_tables_at(self@, i as int);
                }
                Err(BridgeError::MappingConflict)
            },
            (None, Some(j)) => {
                proof {
                    lemma_tables_at(self@, j as int);
                }
                Err(BridgeError::MappingConflict)
            },
        }
    }
}

/// In distinct pairs, each pair is what both tables hold for its sides.
pub proof fn lemma_tables_at(pairs: Seq<(Seq<char>, Address)>, i: int)
    requires
        pairs_distinct(pairs),
        0 <= i < pairs.len(),
    ensures
        forward(pairs).contains_pair(pairs[i].0, pairs[i].1),
        backward(pairs).contains_pair(pairs[i].1, pairs[i].0),
{
    let id = pairs[i].0;
    let address = pairs[i].1;
    assert(has_id(pairs, id));
    assert(has_address(pairs, address));
    let k = choose|k: int| 0 <= k < pairs.len() && (#[trigger] pairs[k]).0 == id;
    assert(k == i);
    let m = choose|m: int| 0 <= m < pairs.len() && (#[trigger] pairs[m]).1 == address;
    assert(m == i);
}

/// Adding a pair with two unknown sides to distinct pairs adds it to both
/// tables and changes nothing else.
pub proof fn lemma_tables_push(pairs: Seq<(Seq<char>, Address)>, pair: (Seq<char>, Address))
    requires
        pairs_distinct(pairs),
        !has_id(pairs, pair.0),
        !has_address(pairs, pair.1),
    ensures
        pairs_distinct(pairs.push(pair)),
        forward(pairs.push(pair)) == forward(pairs).insert(pair.0, pair.1),
        backward(pairs.push(pair)) == backward(pairs).insert(pair.1, pair.0),
{
    let grown = pairs.push(pair);
    assert forall|i: int, j: int| 0 <= i < j < grown.len() implies (#[trigger] grown[i]).0 != (
    #[trigger] grown[j]).0 && grown[i].1 != grown[j].1 by {
        if j == pairs.len() {
            assert(grown[i] == pairs[i]);
        } else {
            assert(grown[i] == pairs[i] && grown[j] == pairs[j]);
        }
    }
    assert forall|id: Seq<char>| has_id(grown, id) <==> (has_id(pairs, id) || id == pair.0) by {
        if has_id(pairs, id) {
            let k = choose|k: int| 0 <= k < pairs.len() && (#[trigger] pairs[k]).0 == id;
            assert(grown[k].0 == id);
        }
        if id == pair.0 {
            assert(grown[pairs.len() as int].0 == id);
        }
        if has_id(grown, id) {
            let k = choose|k: int| 0 <= k < grown.len() && (#[trigger] grown[k]).0 == id;
            if k < pairs.len() {
                assert(pairs[k].0 == id);
            }
        }
    }
    assert forall|a: Address| has_address(grown, a) <==> (has_address(pairs, a) || a == pair.1) by {
        if has_address(pairs, a) {
            let k = choose|k: int| 0 <= k < pairs.len() && (#[trigger] pairs[k]).1 == a;
            assert(grown[k].1 == a);
        }
        if a == pair.1 {
            assert(grown[pairs.len() as int].1 == a);
        }
        if has_address(grown, a) {
            let k = choose|k: int| 0 <= k < grown.len() && (#[trigger] grown[k]).1 == a;
            if k < pairs.len() {
                assert(pairs[k].1 == a);
            }
        }
    }
    assert forall|id: Seq<char>| has_id(grown, id) implies forward(grown)[id] == forward(
        pairs,
    ).insert(pair.0, pair.1)[id] by {
        let k = choose|k: int| 0 <= k < grown.len() && (#[trigger] grown[k]).0 == id;
        lemma_tables_at(grown, k);
        if k < pairs.len() {
            assert(grown[k] == pairs[k]);
            lemma_tables_at(pairs, k);
        }
    }
    assert forall|a: Address| has_address(grown, a) implies backward(grown)[a] == backward(
        pairs,
    ).insert(pair.1, pair.0)[a] by {
        let k = choose|k: int| 0 <= k < grown.len() && (#[trigger] grown[k]).1 == a;
        lemma_tables_at(grown, k);
        if k < pairs.len() {
            assert(grown[k] == pairs[k]);
            lemma_tables_at(pairs, k);
        }
    }
    assert(forward(grown) =~= forward(pairs).insert(pair.0, pair.1));
    assert(backward(grown) =~= backward(pairs).insert(pair.1, pair.0));
}

/// What is cached stays cached: a cache that extends another holds each of
/// its pairs, in both tables.
pub proof fn lemma_entries_persist(
    earlier: MappingCache,
    later: MappingCache,
    id: Seq<char>,
    address: Address,
)
    requires
        earlier.wf(),
        later.extends(earlier),
        earlier.by_id().contains_pair(id, address),
    ensures
        later.address_of(id) == Some(address),
        later.token_of(address) == Some(id),
{
    lemma_tables_inverse(earlier, id, address);
}

/// Every cache extends itself.
pub proof fn lemma_extends_is_reflexive(cache: MappingCache)
    ensures
        cache.extends(cache),
{
}

/// A cache that extends one that extends a third extends the third.
pub proof fn lemma_extends_is_transitive(
    first: MappingCache,
    second: MappingCache,
    third: MappingCache,
)
    requires
        second.extends(first),
        third.extends(second),
    ensures
        third.extends(first),
{
    lemma_submap_of_trans(first.by_id(), second.by_id(), third.by_id());
    lemma_submap_of_trans(first.by_address(), second.by_address(), third.by_address());
}

/// The two tables of a cache are each other's inverse: a token account has
/// an address exactly when that address has that token account.
pub proof fn lemma_tables_inverse(cache: MappingCache, id: Seq<char>, address: Address)
    requires
        cache.wf(),
    ensures
        cache.by_id().contains_pair(id, address) <==> cache.by_address().contains_pair(
            address,
            id,
        ),
{
    let pairs = cache@;
    if forward(pairs).contains_pair(id, address) {
        let k = choose|k: int| 0 <= k < pairs.len() && (#[trigger] pairs[k]).0 == id;
        lemma_tables_at(pairs, k);
    }
    if backward(pairs).contains_pair(address, id) {
        let k = choose|k: int| 0 <= k < pairs.len() && (#[trigger] pairs[k]).1 == address;
        lemma_tables_at(pairs, k);
    }
}

} // verus!
