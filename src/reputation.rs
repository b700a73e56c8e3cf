use vstd::prelude::*;
use crate::actor::{lemma_actor_eq, ActorId};
use crate::ledger_tables::{
    balances_of, fts_of, nfts_of, owned_of, owned_push, BalanceTable, FtTable, NftTable,
    OwnerIndex,
};
use crate::reputation_types::{MTKError, MTKEvent, SkillFtData, SkillNftMetadata, TokenId};

verus! {

/// `names` with every copy of `name` taken out, the rest in order.
pub open spec fn without(names: Seq<Seq<char>>, name: Seq<char>) -> Seq<Seq<char>>
    decreases names.len(),
{
    if names.len() == 0 {
        names
    } else {
        let rest = without(names.drop_last(), name);
        if names.last() == name {
            rest
        } else {
            rest.push(names.last())
        }
    }
}

/// The names skill badges may be minted under.
pub struct AvailableSkillNames {
    names: Vec<String>,
}

impl View for AvailableSkillNames {
    type V = Seq<Seq<char>>;

    closed spec fn view(&self) -> Seq<Seq<char>> {
        self.names@.map_values(|n: String| n@)
    }
}

impl AvailableSkillNames {
    pub fn new() -> (r: AvailableSkillNames)
        ensures
            r@ == Seq::<Seq<char>>::empty(),
    {
        let r = AvailableSkillNames { names: Vec::new() };
        assert(r@ =~= Seq::<Seq<char>>::empty());
        r
    }

    pub fn add_name(&mut self, name: String)
        ensures
            final(self)@ == old(self)@.push(name@),
    {
        self.names.push(name);
        assert(self@ =~= old(self)@.push(name@));
    }

    /// Takes out every copy of `name`; false, with nothing changed, when
    /// there is none.
    pub fn remove_name(&mut self, name: &String) -> (r: bool)
        ensures
            r == old(self)@.contains(name@),
            final(self)@ == (if r {
                without(old(self)@, name@)
            } else {
                old(self)@
            }),
    {
        if !self.check_name(name) {
            return false;
        }
        let ghost all = self@;
        let mut kept: Vec<String> = Vec::new();
        let mut i: usize = 0;
        while i < self.names.len()
            invariant
                i <= self.names@.len(),
                all == self@,
                kept@.map_values(|n: String| n@) == without(all.take(i as int), name@),
            decreases self.names@.len() - i,
        {
            let n = self.names[i].clone();
            let ghost before = kept@.map_values(|n: String| n@);
            proof {
                assert(all.take(i + 1).drop_last() =~= all.take(i as int));
                assert(all[i as int] == self.names@[i as int]@);
            }
            if !(n == *name) {
                kept.push(n);
                assert(kept@.map_values(|n: String| n@) =~= before.push(all[i as int]));
            }
            i = i + 1;
        }
        proof {
            assert(all.take(all.len() as int) =~= all);
        }
        self.names = kept;
        true
    }

    pub fn check_name(&self, name: &String) -> (r: bool)
        ensures
            r == self@.contains(name@),
    {
        let mut i: usize = 0;
        while i < self.names.len()
            invariant
                i <= self.names@.len(),
                forall|j: int| 0 <= j < i ==> self@[j] != name@,
            decreases self.names@.len() - i,
        {
            if self.names[i] == *name {
                assert(self@[i as int] == name@);
                return true;
            }
            i = i + 1;
        }
        proof {
            if self@.contains(name@) {
                let j = choose|j: int| 0 <= j < self@.len() && self@[j] == name@;
                assert(self@[j] != name@);
            }
        }
        false
    }
}

/// The ledger's tokens: skill tokens with their balances, and skill badges.
pub struct MtkData {
    pub name: String,
    pub symbol: String,
    pub base_uri: String,
    pub available_skill_names: AvailableSkillNames,
    pub balances: BalanceTable,
    pub skill_fungible_tokens: FtTable,
    /// The skill tokens each account has ever been minted.
    pub ft_owners: OwnerIndex,
    pub skill_nft_metadata: NftTable,
    /// The skill badges each account holds.
    pub nft_owners: OwnerIndex,
}

/// The reputation ledger.
pub struct Mtk {
    pub tokens: MtkData,
    /// The account that created the ledger; only it may define tokens.
    pub creator: ActorId,
}

/// The mathematical value of an [`Mtk`].
pub struct MtkView {
    pub name: String,
    pub symbol: String,
    pub base_uri: String,
    pub skill_names: Seq<Seq<char>>,
    pub balances: Map<(TokenId, ActorId), u128>,
    pub fts: Map<TokenId, SkillFtData>,
    pub ft_owners: Map<ActorId, Seq<TokenId>>,
    pub nfts: Map<TokenId, SkillNftMetadata>,
    pub nft_owners: Map<ActorId, Seq<TokenId>>,
    pub creator: ActorId,
}

impl View for Mtk {
    type V = MtkView;

    open spec fn view(&self) -> MtkView {
        MtkView {
            name: self.tokens.name,
            symbol: self.tokens.symbol,
            base_uri: self.tokens.base_uri,
            skill_names: self.tokens.available_skill_names@,
            balances: balances_of(self.tokens.balances),
            fts: fts_of(self.tokens.skill_fungible_tokens),
            ft_owners: owned_of(self.tokens.ft_owners),
            nfts: nfts_of(self.tokens.skill_nft_metadata),
            nft_owners: owned_of(self.tokens.nft_owners),
            creator: self.creator,
        }
    }
}

/// A request to the ledger. Ids for new tokens come with the request.
pub enum MTKAction {
    MintFtTo { id: TokenId, amount: u128, to: ActorId },
    Burn { id: TokenId, from: ActorId, amount: u128 },
    MintNftTo { to: ActorId, metadata: SkillNftMetadata },
    VerifyReputation { target: ActorId, skill_type: bool, token_id: TokenId },
    AddFt { token_data: SkillFtData },
    ChangeFt { id: TokenId, new_data: SkillFtData },
    AddNft { name: String },
    RemoveNft { name: String },
    ChangeBaseUri { new_base_uri: String },
}

pub open spec fn owns(owners: Map<ActorId, Seq<TokenId>>, who: ActorId, id: TokenId) -> bool {
    owners.contains_key(who) && owners[who].contains(id)
}

impl MtkView {
    pub open spec fn mint_ft_to(self, id: TokenId, amount: u128, to: ActorId) -> (MtkView, Result<MTKEvent, MTKError>) {
        if !self.fts.contains_key(id) {
            (self, Err(MTKError::TokenDoesNotExists))
        } else if self.balances.contains_key((id, to)) {
            if self.balances[(id, to)] + amount > u128::MAX {
                (self, Err(MTKError::BalanceOverflow))
            } else {
                (
                    MtkView { balances: self.balances.insert((id, to), (self.balances[(id, to)] + amount) as u128), ..self },
                    Ok(MTKEvent::SkillTokenMinted { id, amount, to }),
                )
            }
        } else {
            (
                MtkView {
                    balances: self.balances.insert((id, to), amount),
                    ft_owners: owned_push(self.ft_owners, to, id),
                    ..self
                },
                Ok(MTKEvent::SkillTokenMinted { id, amount, to }),
            )
        }
    }

    pub open spec fn burn(self, id: TokenId, from: ActorId, amount: u128) -> (MtkView, Result<MTKEvent, MTKError>) {
        if !self.fts.contains_key(id) {
            (self, Err(MTKError::TokenDoesNotExists))
        } else if !self.balances.contains_key((id, from)) {
            (self, Err(MTKError::OwnerDoesNotExists))
        } else if self.balances[(id, from)] < amount {
            (self, Err(MTKError::InsufficientBalance))
        } else {
            (
                MtkView { balances: self.balances.insert((id, from), (self.balances[(id, from)] - amount) as u128), ..self },
                Ok(MTKEvent::SkillTokenBurned { from, id, amount }),
            )
        }
    }

    /// Minting a badge needs its title to be an available skill name and
    /// its fresh id to be unused.
    pub open spec fn mint_nft_to(self, to: ActorId, metadata: SkillNftMetadata, id: TokenId) -> (MtkView, Result<MTKEvent, MTKError>) {
        if !(metadata.title matches Some(t) && self.skill_names.contains(t@)) {
            (self, Err(MTKError::SkillNameDoesNotExists))
        } else if self.nfts.contains_key(id) {
            (self, Err(MTKError::TokenAlreadyExists))
        } else {
            (
                MtkView {
                    nfts: self.nfts.insert(id, metadata),
                    nft_owners: owned_push(self.nft_owners, to, id),
                    ..self
                },
                Ok(MTKEvent::SkillNftMinted { id, to }),
            )
        }
    }

    pub open spec fn add_ft(self, caller: ActorId, id: TokenId, token_data: SkillFtData) -> (MtkView, Result<MTKEvent, MTKError>) {
        if caller != self.creator {
            (self, Err(MTKError::OnlyCreaterCanOperate))
        } else if self.fts.contains_key(id) {
            (self, Err(MTKError::TokenAlreadyExists))
        } else {
            (MtkView { fts: self.fts.insert(id, token_data), ..self }, Ok(MTKEvent::NewFtAdded { id }))
        }
    }

    pub open spec fn change_ft(self, caller: ActorId, id: TokenId, new_data: SkillFtData) -> (MtkView, Result<MTKEvent, MTKError>) {
        if caller != self.creator {
            (self, Err(MTKError::OnlyCreaterCanOperate))
        } else if !self.fts.contains_key(id) {
            (self, Err(MTKError::TokenDoesNotExists))
        } else {
            (MtkView { fts: self.fts.insert(id, new_data), ..self }, Ok(MTKEvent::SkillFtChanged { id }))
        }
    }

    pub open spec fn add_nft(self, caller: ActorId, name: String) -> (MtkView, Result<MTKEvent, MTKError>) {
        if caller != self.creator {
            (self, Err(MTKError::OnlyCreaterCanOperate))
        } else {
            (MtkView { skill_names: self.skill_names.push(name@), ..self }, Ok(MTKEvent::SkillNftAdded { name }))
        }
    }

    pub open spec fn remove_nft(self, caller: ActorId, name: String) -> (MtkView, Result<MTKEvent, MTKError>) {
        if caller != self.creator {
            (self, Err(MTKError::OnlyCreaterCanOperate))
        } else if !self.skill_names.contains(name@) {
            (self, Err(MTKError::SkillNameDoesNotExists))
        } else {
            (MtkView { skill_names: without(self.skill_names, name@), ..self }, Ok(MTKEvent::SkillNftRemoved { name }))
        }
    }

    pub open spec fn change_base_uri(self, caller: ActorId, new_uri: String) -> (MtkView, Result<MTKEvent, MTKError>) {
        if caller != self.creator {
            (self, Err(MTKError::OnlyCreaterCanOperate))
        } else {
            (MtkView { base_uri: new_uri, ..self }, Ok(MTKEvent::MtkUriChanged { new_uri }))
        }
    }

    /// Whether `target` holds `token_id`: a badge when `skill_type`, else a
    /// skill token it has been minted.
    pub open spec fn verify_repu(self, caller: ActorId, target: ActorId, skill_type: bool, token_id: TokenId) -> MTKEvent {
        if owns(if skill_type { self.nft_owners } else { self.ft_owners }, target, token_id) {
            MTKEvent::RepuVerified { initiator: caller, target }
        } else {
            MTKEvent::RepuVerificationFail { initiator: caller, target }
        }
    }

    /// One request handled; `fresh_id` names a token the request creates.
    pub open spec fn step(self, caller: ActorId, fresh_id: TokenId, action: MTKAction) -> (MtkView, Result<MTKEvent, MTKError>) {
        match action {
            MTKAction::MintFtTo { id, amount, to } => self.mint_ft_to(id, amount, to),
            MTKAction::Burn { id, from, amount } => self.burn(id, from, amount),
            MTKAction::MintNftTo { to, metadata } => self.mint_nft_to(to, metadata, fresh_id),
            MTKAction::VerifyReputation { target, skill_type, token_id } => (self, Ok(self.verify_repu(caller, target, skill_type, token_id))),
            MTKAction::AddFt { token_data } => self.add_ft(caller, fresh_id, token_data),
            MTKAction::ChangeFt { id, new_data } => self.change_ft(caller, id, new_data),
            MTKAction::AddNft { name } => self.add_nft(caller, name),
            MTKAction::RemoveNft { name } => self.remove_nft(caller, name),
            MTKAction::ChangeBaseUri { new_base_uri } => self.change_base_uri(caller, new_base_uri),
        }
    }
}

/// `owners` with `id` appended to `owner`'s list, which starts empty.
fn push_owned(owners: &mut OwnerIndex, owner: ActorId, id: TokenId)
    ensures
        owned_of(*final(owners)) == owned_push(owned_of(*old(owners)), owner, id),
{
    let mut ids: Vec<TokenId> = Vec::new();
    match owners.get(&owner) {
        Some(held) => {
            let mut i: usize = 0;
            while i < held.len()
                invariant
                    i <= held@.len(),
                    ids@ == held@.subrange(0, i as int),
                decreases held@.len() - i,
            {
                ids.push(held[i]);
                assert(ids@ =~= held@.subrange(0, i + 1));
                i = i + 1;
            }
            assert(held@.subrange(0, held@.len() as int) =~= held@);
        },
        None => {
            assert(ids@ =~= Seq::<TokenId>::empty());
        },
    }
    ids.push(id);
    owners.insert(owner, ids);
}

/// Whether `list` holds `id`.
fn holds(list: &Vec<TokenId>, id: TokenId) -> (r: bool)
    ensures
        r == list@.contains(id),
{
    let mut i: usize = 0;
    while i < list.len()
        invariant
            i <= list@.len(),
            forall|j: int| 0 <= j < i ==> list@[j] != id,
        decreases list@.len() - i,
    {
        if list[i] == id {
            return true;
        }
        i = i + 1;
    }
    false
}

impl Mtk {
    /// An empty ledger created by `creator`.
    pub fn new(creator: ActorId, name: String, symbol: String, base_uri: String) -> (r: Mtk)
        ensures
            r@.creator == creator,
            r@.name == name,
            r@.symbol == symbol,
            r@.base_uri == base_uri,
            r@.skill_names.len() == 0,
            r@.balances == crate::ledger_tables::empty_balances(),
            r@.fts == crate::ledger_tables::empty_fts(),
            r@.ft_owners == crate::ledger_tables::empty_owned(),
            r@.nfts == crate::ledger_tables::empty_nfts(),
            r@.nft_owners == crate::ledger_tables::empty_owned(),
    {
        Mtk {
            tokens: MtkData {
                name,
                symbol,
                base_uri,
                available_skill_names: AvailableSkillNames::new(),
                balances: BalanceTable::new(),
                skill_fungible_tokens: FtTable::new(),
                ft_owners: OwnerIndex::new(),
                skill_nft_metadata: NftTable::new(),
                nft_owners: OwnerIndex::new(),
            },
            creator,
        }
    }

    fn is_creator(&self, caller: ActorId) -> (r: bool)
        ensures
            r == (caller == self.creator),
    {
        proof {
            lemma_actor_eq(caller, self.creator);
        }
        caller == self.creator
    }

    pub fn mint_ft_to(&mut self, id: TokenId, amount: u128, to: ActorId) -> (r: Result<MTKEvent, MTKError>)
        ensures
            (final(self)@, r) == old(self)@.mint_ft_to(id, amount, to),
    {
        if !self.tokens.skill_fungible_tokens.contains_key(id) {
            return Err(MTKError::TokenDoesNotExists);
        }
        match self.tokens.balances.get(id, to) {
            Some(balance) => {
                if balance > u128::MAX - amount {
                    return Err(MTKError::BalanceOverflow);
                }
                self.tokens.balances.insert(id, to, balance + amount);
            },
            None => {
                self.tokens.balances.insert(id, to, amount);
                push_owned(&mut self.tokens.ft_owners, to, id);
            },
        }
        Ok(MTKEvent::SkillTokenMinted { id, amount, to })
    }

    /// `id` is the fresh id the badge would get.
    pub fn mint_nft_to(&mut self, to: ActorId, metadata: SkillNftMetadata, id: TokenId) -> (r: Result<MTKEvent, MTKError>)
        ensures
            (final(self)@, r) == old(self)@.mint_nft_to(to, metadata, id),
    {
        let known = match &metadata.title {
            Some(title) => self.tokens.available_skill_names.check_name(title),
            None => false,
        };
        if !known {
            return Err(MTKError::SkillNameDoesNotExists);
        }
        if self.tokens.skill_nft_metadata.contains_key(id) {
            return Err(MTKError::TokenAlreadyExists);
        }
        self.tokens.skill_nft_metadata.insert(id, metadata);
        push_owned(&mut self.tokens.nft_owners, to, id);
        Ok(MTKEvent::SkillNftMinted { id, to })
    }

    pub fn burn(&mut self, id: TokenId, from: ActorId, amount: u128) -> (r: Result<MTKEvent, MTKError>)
        ensures
            (final(self)@, r) == old(self)@.burn(id, from, amount),
    {
        if !self.tokens.skill_fungible_tokens.contains_key(id) {
            return Err(MTKError::TokenDoesNotExists);
        }
        match self.tokens.balances.get(id, from) {
            Some(balance) => {
                if balance < amount {
                    return Err(MTKError::InsufficientBalance);
                }
                self.tokens.balances.insert(id, from, balance - amount);
                Ok(MTKEvent::SkillTokenBurned { from, id, amount })
            },
            None => Err(MTKError::OwnerDoesNotExists),
        }
    }

    /// `id` is the fresh id the token would get.
    pub fn add_ft(&mut self, caller: ActorId, id: TokenId, token_data: SkillFtData) -> (r: Result<MTKEvent, MTKError>)
        ensures
            (final(self)@, r) == old(self)@.add_ft(caller, id, token_data),
    {
        if !self.is_creator(caller) {
            return Err(MTKError::OnlyCreaterCanOperate);
        }
        if self.tokens.skill_fungible_tokens.contains_key(id) {
            return Err(MTKError::TokenAlreadyExists);
        }
        self.tokens.skill_fungible_tokens.insert(id, token_data);
        Ok(MTKEvent::NewFtAdded { id })
    }

    pub fn change_ft(&mut self, caller: ActorId, id: TokenId, new_data: SkillFtData) -> (r: Result<MTKEvent, MTKError>)
        ensures
            (final(self)@, r) == old(self)@.change_ft(caller, id, new_data),
    {
        if !self.is_creator(caller) {
            return Err(MTKError::OnlyCreaterCanOperate);
        }
        if !self.tokens.skill_fungible_tokens.contains_key(id) {
            return Err(MTKError::TokenDoesNotExists);
        }
        self.tokens.skill_fungible_tokens.insert(id, new_data);
        Ok(MTKEvent::SkillFtChanged { id })
    }

    pub fn change_base_uri(&mut self, caller: ActorId, new_uri: String) -> (r: Result<MTKEvent, MTKError>)
        ensures
            (final(self)@, r) == old(self)@.change_base_uri(caller, new_uri),
    {
        if !self.is_creator(caller) {
            return Err(MTKError::OnlyCreaterCanOperate);
        }
        self.tokens.base_uri = new_uri.clone();
        Ok(MTKEvent::MtkUriChanged { new_uri })
    }

    pub fn add_nft(&mut self, caller: ActorId, name: String) -> (r: Result<MTKEvent, MTKError>)
        ensures
            (final(self)@, r) == old(self)@.add_nft(caller, name),
    {
        if !self.is_creator(caller) {
            return Err(MTKError::OnlyCreaterCanOperate);
        }
        self.tokens.available_skill_names.add_name(name.clone());
        Ok(MTKEvent::SkillNftAdded { name })
    }

    pub fn remove_nft(&mut self, caller: ActorId, name: String) -> (r: Result<MTKEvent, MTKError>)
        ensures
            (final(self)@, r) == old(self)@.remove_nft(caller, name),
    {
        if !self.is_creator(caller) {
            return Err(MTKError::OnlyCreaterCanOperate);
        }
        if self.tokens.available_skill_names.remove_name(&name) {
            Ok(MTKEvent::SkillNftRemoved { name })
        } else {
            Err(MTKError::SkillNameDoesNotExists)
        }
    }

    pub fn verify_repu(&self, caller: ActorId, target: ActorId, skill_type: bool, token_id: TokenId) -> (r: MTKEvent)
        ensures
            r == self@.verify_repu(caller, target, skill_type, token_id),
    {
        let owners = if skill_type {
            &self.tokens.nft_owners
        } else {
            &self.tokens.ft_owners
        };
        let held = match owners.get(&target) {
            Some(list) => holds(list, token_id),
            None => false,
        };
        if held {
            MTKEvent::RepuVerified { initiator: caller, target }
        } else {
            MTKEvent::RepuVerificationFail { initiator: caller, target }
        }
    }

    /// Handles one request from `caller`; `fresh_id` names the token that an
    /// `AddFt` or `MintNftTo` creates.
    pub fn handle(&mut self, caller: ActorId, fresh_id: TokenId, action: MTKAction) -> (r: Result<MTKEvent, MTKError>)
        ensures
            (final(self)@, r) == old(self)@.step(caller, fresh_id, action),
    {
        match action {
            MTKAction::MintFtTo { id, amount, to } => self.mint_ft_to(id, amount, to),
            MTKAction::Burn { id, from, amount } => self.burn(id, from, amount),
            MTKAction::MintNftTo { to, metadata } => self.mint_nft_to(to, metadata, fresh_id),
            MTKAction::VerifyReputation { target, skill_type, token_id } => Ok(
                self.verify_repu(caller, target, skill_type, token_id),
            ),
            MTKAction::AddFt { token_data } => self.add_ft(caller, fresh_id, token_data),
            MTKAction::ChangeFt { id, new_data } => self.change_ft(caller, id, new_data),
            MTKAction::AddNft { name } => self.add_nft(caller, name),
            MTKAction::RemoveNft { name } => self.remove_nft(caller, name),
            MTKAction::ChangeBaseUri { new_base_uri } => self.change_base_uri(caller, new_base_uri),
        }
    }
}

} // verus!
