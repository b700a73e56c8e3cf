use vstd::prelude::*;
use crate::actor::ActorId;
use crate::reputation_types::{SkillFtData, SkillNftMetadata, TokenId};

verus! {

pub open spec fn empty_balances() -> Map<(TokenId, ActorId), u128> {
    Map::empty()
}

pub open spec fn empty_fts() -> Map<TokenId, SkillFtData> {
    Map::empty()
}

pub open spec fn empty_nfts() -> Map<TokenId, SkillNftMetadata> {
    Map::empty()
}

pub open spec fn empty_owned() -> Map<ActorId, Seq<TokenId>> {
    Map::empty()
}

/// Balance of each (token, owner) pair, in a hashbrown map.
#[verifier::external_body]
pub struct BalanceTable {
    inner: hashbrown::HashMap<(TokenId, ActorId), u128>,
}

/// What a [`BalanceTable`] holds.
pub uninterp spec fn balances_of(t: BalanceTable) -> Map<(TokenId, ActorId), u128>;

impl BalanceTable {
    /// Relies on hashbrown's `HashMap::new`: a new map is empty.
    #[verifier::external_body]
    pub fn new() -> (r: BalanceTable)
        ensures
            balances_of(r) == empty_balances(),
    {
        BalanceTable { inner: hashbrown::HashMap::new() }
    }

    /// Relies on hashbrown's `HashMap::get`: the value under the key, if any.
    #[verifier::external_body]
    pub fn get(&self, id: TokenId, owner: ActorId) -> (r: Option<u128>)
        ensures
            r == (if balances_of(*self).contains_key((id, owner)) {
                Some(balances_of(*self)[(id, owner)])
            } else {
                None
            }),
    {
        self.inner.get(&(id, owner)).copied()
    }

    /// Relies on hashbrown's `HashMap::insert`: the key now maps to the value.
    #[verifier::external_body]
    pub fn insert(&mut self, id: TokenId, owner: ActorId, amount: u128)
        ensures
            balances_of(*final(self)) == balances_of(*old(self)).insert((id, owner), amount),
    {
        self.inner.insert((id, owner), amount);
    }

    /// Relies on hashbrown's `HashMap::into_iter`: every entry exactly once,
    /// in an order the map chooses.
    #[verifier::external_body]
    pub fn into_entries(self) -> (r: Vec<((TokenId, ActorId), u128)>)
        ensures
            r@.len() == balances_of(self).dom().len(),
            forall|i: int|
                0 <= i < r@.len() ==> #[trigger] balances_of(self).contains_key(r@[i].0) && balances_of(self)[r@[i].0]
                    == r@[i].1,
            forall|i: int, j: int| 0 <= i < r@.len() && 0 <= j < r@.len() && i != j ==> r@[i].0 != r@[j].0,
    {
        self.inner.into_iter().collect()
    }
}

/// Skill fungible tokens by id, in a hashbrown map.
#[verifier::external_body]
pub struct FtTable {
    inner: hashbrown::HashMap<TokenId, SkillFtData>,
}

/// What an [`FtTable`] holds.
pub uninterp spec fn fts_of(t: FtTable) -> Map<TokenId, SkillFtData>;

impl FtTable {
    /// Relies on hashbrown's `HashMap::new`: a new map is empty.
    #[verifier::external_body]
    pub fn new() -> (r: FtTable)
        ensures
            fts_of(r) == empty_fts(),
    {
        FtTable { inner: hashbrown::HashMap::new() }
    }

    /// Relies on hashbrown's `HashMap::contains_key`.
    #[verifier::external_body]
    pub fn contains_key(&self, id: TokenId) -> (r: bool)
        ensures
            r == fts_of(*self).contains_key(id),
    {
        self.inner.contains_key(&id)
    }

    /// Relies on hashbrown's `HashMap::insert`: the key now maps to the value.
    #[verifier::external_body]
    pub fn insert(&mut self, id: TokenId, data: SkillFtData)
        ensures
            fts_of(*final(self)) == fts_of(*old(self)).insert(id, data),
    {
        self.inner.insert(id, data);
    }

    /// Relies on hashbrown's `HashMap::into_iter`: every entry exactly once,
    /// in an order the map chooses.
    #[verifier::external_body]
    pub fn into_entries(self) -> (r: Vec<(TokenId, SkillFtData)>)
        ensures
            r@.len() == fts_of(self).dom().len(),
            forall|i: int|
                0 <= i < r@.len() ==> #[trigger] fts_of(self).contains_key(r@[i].0) && fts_of(self)[r@[i].0]
                    == r@[i].1,
            forall|i: int, j: int| 0 <= i < r@.len() && 0 <= j < r@.len() && i != j ==> r@[i].0 != r@[j].0,
    {
        self.inner.into_iter().collect()
    }
}

/// Skill badge metadata by token id, in a hashbrown map.
#[verifier::external_body]
pub struct NftTable {
    inner: hashbrown::HashMap<TokenId, SkillNftMetadata>,
}

/// What an [`NftTable`] holds.
pub uninterp spec fn nfts_of(t: NftTable) -> Map<TokenId, SkillNftMetadata>;

impl NftTable {
    /// Relies on hashbrown's `HashMap::new`: a new map is empty.
    #[verifier::external_body]
    pub fn new() -> (r: NftTable)
        ensures
            nfts_of(r) == empty_nfts(),
    {
        NftTable { inner: hashbrown::HashMap::new() }
    }

    /// Relies on hashbrown's `HashMap::contains_key`.
    #[verifier::external_body]
    pub fn contains_key(&self, id: TokenId) -> (r: bool)
        ensures
            r == nfts_of(*self).contains_key(id),
    {
        self.inner.contains_key(&id)
    }

    /// Relies on hashbrown's `HashMap::insert`: the key now maps to the value.
    #[verifier::external_body]
    pub fn insert(&mut self, id: TokenId, metadata: SkillNftMetadata)
        ensures
            nfts_of(*final(self)) == nfts_of(*old(self)).insert(id, metadata),
    {
        self.inner.insert(id, metadata);
    }

    /// Relies on hashbrown's `HashMap::into_iter`: every entry exactly once,
    /// in an order the map chooses.
    #[verifier::external_body]
    pub fn into_entries(self) -> (r: Vec<(TokenId, SkillNftMetadata)>)
        ensures
            r@.len() == nfts_of(self).dom().len(),
            forall|i: int|
                0 <= i < r@.len() ==> #[trigger] nfts_of(self).contains_key(r@[i].0) && nfts_of(self)[r@[i].0]
                    == r@[i].1,
            forall|i: int, j: int| 0 <= i < r@.len() && 0 <= j < r@.len() && i != j ==> r@[i].0 != r@[j].0,
    {
        self.inner.into_iter().collect()
    }
}

/// The token ids each owner holds, in order of receipt, in a hashbrown map.
#[verifier::external_body]
pub struct OwnerIndex {
    inner: hashbrown::HashMap<ActorId, Vec<TokenId>>,
}

/// What an [`OwnerIndex`] holds.
pub uninterp spec fn owned_of(t: OwnerIndex) -> Map<ActorId, Seq<TokenId>>;

/// `owners` after `id` is appended to `owner`'s list, which starts empty.
pub open spec fn owned_push(owners: Map<ActorId, Seq<TokenId>>, owner: ActorId, id: TokenId) -> Map<
    ActorId,
    Seq<TokenId>,
> {
    owners.insert(
        owner,
        (if owners.contains_key(owner) {
            owners[owner]
        } else {
            Seq::empty()
        }).push(id),
    )
}

impl OwnerIndex {
    /// Relies on hashbrown's `HashMap::new`: a new map is empty.
    #[verifier::external_body]
    pub fn new() -> (r: OwnerIndex)
        ensures
            owned_of(r) == empty_owned(),
    {
        OwnerIndex { inner: hashbrown::HashMap::new() }
    }

    /// Relies on hashbrown's `HashMap::get`: the list under the key, if any.
    #[verifier::external_body]
    pub fn get(&self, owner: &ActorId) -> (r: Option<&Vec<TokenId>>)
        ensures
            r is Some == owned_of(*self).contains_key(*owner),
            r matches Some(v) ==> v@ == owned_of(*self)[*owner],
    {
        self.inner.get(owner)
    }

    /// Relies on hashbrown's `HashMap::insert`: the key now maps to the value.
    #[verifier::external_body]
    pub fn insert(&mut self, owner: ActorId, ids: Vec<TokenId>)
        ensures
            owned_of(*final(self)) == owned_of(*old(self)).insert(owner, ids@),
    {
        self.inner.insert(owner, ids);
    }

    /// Relies on hashbrown's `HashMap::into_iter`: every entry exactly once,
    /// in an order the map chooses.
    #[verifier::external_body]
    pub fn into_entries(self) -> (r: Vec<(ActorId, Vec<TokenId>)>)
        ensures
            r@.len() == owned_of(self).dom().len(),
            forall|i: int|
                0 <= i < r@.len() ==> #[trigger] owned_of(self).contains_key(r@[i].0) && owned_of(self)[r@[i].0]
                    == r@[i].1@,
            forall|i: int, j: int| 0 <= i < r@.len() && 0 <= j < r@.len() && i != j ==> r@[i].0 != r@[j].0,
    {
        self.inner.into_iter().collect()
    }
}

} // verus!
