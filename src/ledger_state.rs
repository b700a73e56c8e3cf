use vstd::prelude::*;
use crate::actor::{lemma_actor_eq, ActorId};
use crate::ledger_tables::{balances_of, fts_of, nfts_of, owned_of};
use crate::reputation::{AvailableSkillNames, Mtk, MtkData};
use crate::reputation_types::{SkillFtData, SkillNftMetadata, TokenId};

verus! {

/// The ledger laid out as lists, for reading from outside.
pub struct State {
    pub name: String,
    pub symbol: String,
    pub base_uri: String,
    pub creator: ActorId,
    pub available_skill_names: AvailableSkillNames,
    pub balances: Vec<((TokenId, ActorId), u128)>,
    pub skill_fungible_tokens: Vec<(TokenId, SkillFtData)>,
    pub ft_owners: Vec<(ActorId, Vec<TokenId>)>,
    pub skill_nft_metadata: Vec<(TokenId, SkillNftMetadata)>,
    pub nft_owners: Vec<(ActorId, Vec<TokenId>)>,
}

/// `s` lists the entries of `m`, each key once, in some order.
pub open spec fn lists<K, V>(s: Seq<(K, V)>, m: Map<K, V>) -> bool {
    &&& s.len() == m.dom().len()
    &&& forall|i: int| 0 <= i < s.len() ==> #[trigger] m.contains_key(s[i].0) && m[s[i].0] == s[i].1
    &&& forall|i: int, j: int| 0 <= i < s.len() && 0 <= j < s.len() && i != j ==> s[i].0 != s[j].0
}

/// `s` lists the token lists of `m`, each owner once, in some order.
pub open spec fn lists_owned(s: Seq<(ActorId, Vec<TokenId>)>, m: Map<ActorId, Seq<TokenId>>) -> bool {
    &&& s.len() == m.dom().len()
    &&& forall|i: int| 0 <= i < s.len() ==> #[trigger] m.contains_key(s[i].0) && m[s[i].0] == s[i].1@
    &&& forall|i: int, j: int| 0 <= i < s.len() && 0 <= j < s.len() && i != j ==> s[i].0 != s[j].0
}

impl Mtk {
    /// The whole ledger as lists; the lists' order is the maps' own.
    pub fn into_state(self) -> (r: State)
        ensures
            r.name == self@.name,
            r.symbol == self@.symbol,
            r.base_uri == self@.base_uri,
            r.creator == self@.creator,
            r.available_skill_names@ == self@.skill_names,
            lists(r.balances@, self@.balances),
            lists(r.skill_fungible_tokens@, self@.fts),
            lists_owned(r.ft_owners@, self@.ft_owners),
            lists(r.skill_nft_metadata@, self@.nfts),
            lists_owned(r.nft_owners@, self@.nft_owners),
    {
        let Mtk { tokens, creator } = self;
        let MtkData {
            name,
            symbol,
            base_uri,
            available_skill_names,
            balances,
            skill_fungible_tokens,
            ft_owners,
            skill_nft_metadata,
            nft_owners,
        } = tokens;
        State {
            name,
            symbol,
            base_uri,
            creator,
            available_skill_names,
            balances: balances.into_entries(),
            skill_fungible_tokens: skill_fungible_tokens.into_entries(),
            ft_owners: ft_owners.into_entries(),
            skill_nft_metadata: skill_nft_metadata.into_entries(),
            nft_owners: nft_owners.into_entries(),
        }
    }
}

/// The name of the first listed token with id `id`, if it has one.
pub open spec fn ft_name(fts: Seq<(TokenId, SkillFtData)>, id: TokenId) -> Option<String>
    decreases fts.len(),
{
    if fts.len() == 0 {
        None
    } else if fts[0].0 == id {
        fts[0].1.name
    } else {
        ft_name(fts.subrange(1, fts.len() as int), id)
    }
}

/// For each balance `actor` holds, in listed order, the token's name and
/// the amount; balances of unnamed tokens are left out.
pub open spec fn skill_fts(
    balances: Seq<((TokenId, ActorId), u128)>,
    fts: Seq<(TokenId, SkillFtData)>,
    actor: ActorId,
) -> Seq<(Seq<char>, u128)>
    decreases balances.len(),
{
    if balances.len() == 0 {
        Seq::empty()
    } else {
        let rest = skill_fts(balances.drop_last(), fts, actor);
        let entry = balances.last();
        if entry.0.1 == actor && ft_name(fts, entry.0.0) is Some {
            rest.push((ft_name(fts, entry.0.0)->0@, entry.1))
        } else {
            rest
        }
    }
}

pub open spec fn named_amounts(v: Seq<(String, u128)>) -> Seq<(Seq<char>, u128)> {
    v.map_values(|p: (String, u128)| (p.0@, p.1))
}

fn find_ft_name(fts: &Vec<(TokenId, SkillFtData)>, id: TokenId) -> (r: Option<&String>)
    ensures
        r is Some == ft_name(fts@, id) is Some,
        r matches Some(n) ==> *n == ft_name(fts@, id)->0,
{
    let mut i: usize = 0;
    assert(fts@.subrange(0, fts@.len() as int) =~= fts@);
    while i < fts.len()
        invariant
            i <= fts@.len(),
            ft_name(fts@, id) == ft_name(fts@.subrange(i as int, fts@.len() as int), id),
        decreases fts@.len() - i,
    {
        let ghost rest = fts@.subrange(i as int, fts@.len() as int);
        assert(rest[0] == fts@[i as int]);
        assert(rest.subrange(1, rest.len() as int) =~= fts@.subrange(i + 1, fts@.len() as int));
        if fts[i].0 == id {
            return fts[i].1.name.as_ref();
        }
        i = i + 1;
    }
    None
}

/// The named skill tokens `actor_id` holds a balance of, with the amounts.
pub fn get_skill_ft_by_id(state: &State, actor_id: ActorId) -> (r: Vec<(String, u128)>)
    ensures
        named_amounts(r@) == skill_fts(state.balances@, state.skill_fungible_tokens@, actor_id),
{
    let mut results: Vec<(String, u128)> = Vec::new();
    let mut i: usize = 0;
    while i < state.balances.len()
        invariant
            i <= state.balances@.len(),
            named_amounts(results@) == skill_fts(
                state.balances@.take(i as int),
                state.skill_fungible_tokens@,
                actor_id,
            ),
        decreases state.balances@.len() - i,
    {
        let entry = &state.balances[i];
        proof {
            assert(state.balances@.take(i + 1).drop_last() =~= state.balances@.take(i as int));
            lemma_actor_eq((entry.0).1, actor_id);
        }
        if (entry.0).1 == actor_id {
            match find_ft_name(&state.skill_fungible_tokens, (entry.0).0) {
                Some(name) => {
                    let ghost before = results@;
                    results.push((name.clone(), entry.1));
                    assert(named_amounts(results@) =~= named_amounts(before).push((name@, entry.1)));
                },
                None => {},
            }
        }
        i = i + 1;
    }
    assert(state.balances@.take(state.balances@.len() as int) =~= state.balances@);
    results
}

} // verus!
