use vstd::prelude::*;
use crate::account_types::Account;
use crate::actor::ActorId;

verus! {

/// A set of accounts, in a hashbrown set.
#[verifier::external_body]
pub struct ActorSet {
    inner: hashbrown::HashSet<ActorId>,
}

/// What an [`ActorSet`] holds.
pub uninterp spec fn members_of(s: ActorSet) -> Set<ActorId>;

pub open spec fn no_members() -> Set<ActorId> {
    Set::empty()
}

impl ActorSet {
    /// Relies on hashbrown's `HashSet::new`: a new set is empty.
    #[verifier::external_body]
    pub fn new() -> (r: ActorSet)
        ensures
            members_of(r) == no_members(),
    {
        ActorSet { inner: hashbrown::HashSet::new() }
    }

    /// Relies on hashbrown's `HashSet::contains`.
    #[verifier::external_body]
    pub fn contains(&self, who: &ActorId) -> (r: bool)
        ensures
            r == members_of(*self).contains(*who),
    {
        self.inner.contains(who)
    }

    /// Relies on hashbrown's `HashSet::insert`: the value is now a member.
    #[verifier::external_body]
    pub fn insert(&mut self, who: ActorId)
        ensures
            members_of(*final(self)) == members_of(*old(self)).insert(who),
    {
        self.inner.insert(who);
    }
}

/// Accounts by address, in a hashbrown map.
#[verifier::external_body]
pub struct AccountTable {
    inner: hashbrown::HashMap<ActorId, Account>,
}

/// What an [`AccountTable`] holds.
pub uninterp spec fn accounts_of(t: AccountTable) -> Map<ActorId, Account>;

pub open spec fn no_accounts() -> Map<ActorId, Account> {
    Map::empty()
}

impl AccountTable {
    /// Relies on hashbrown's `HashMap::new`: a new map is empty.
    #[verifier::external_body]
    pub fn new() -> (r: AccountTable)
        ensures
            accounts_of(r) == no_accounts(),
    {
        AccountTable { inner: hashbrown::HashMap::new() }
    }

    /// Relies on hashbrown's `HashMap::get`: the value under the key, if any.
    #[verifier::external_body]
    pub fn get(&self, who: &ActorId) -> (r: Option<&Account>)
        ensures
            r is Some == accounts_of(*self).contains_key(*who),
            r matches Some(a) ==> *a == accounts_of(*self)[*who],
    {
        self.inner.get(who)
    }

    /// Relies on hashbrown's `HashMap::insert`: the key now maps to the value.
    #[verifier::external_body]
    pub fn insert(&mut self, who: ActorId, account: Account)
        ensures
            accounts_of(*final(self)) == accounts_of(*old(self)).insert(who, account),
    {
        self.inner.insert(who, account);
    }

    /// Relies on hashbrown's `HashMap::remove`: the key is gone, and its
    /// value is handed back.
    #[verifier::external_body]
    pub fn remove(&mut self, who: &ActorId) -> (r: Option<Account>)
        ensures
            accounts_of(*final(self)) == accounts_of(*old(self)).remove(*who),
            r is Some == accounts_of(*old(self)).contains_key(*who),
            r matches Some(a) ==> a == accounts_of(*old(self))[*who],
    {
        self.inner.remove(who)
    }
}

} // verus!
