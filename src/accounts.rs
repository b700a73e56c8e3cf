use vstd::prelude::*;
use crate::account_tables::{accounts_of, members_of, AccountTable, ActorSet};
use crate::account_types::{
    Account, AccountAction, AccountError, AccountEvent, Badges, RecruiterStatus, Roles,
    SeekerStatus, Status,
};
use crate::actor::ActorId;

verus! {

/// The mathematical value of an [`Account`].
pub struct AccountView {
    pub username: Seq<char>,
    pub role: Roles,
    pub badges: Seq<Badges>,
    pub quests: Seq<(String, Status)>,
    pub quest_decks: Seq<(String, Status)>,
}

impl View for Account {
    type V = AccountView;

    open spec fn view(&self) -> AccountView {
        AccountView {
            username: self.username@,
            role: self.role,
            badges: self.badges@,
            quests: self.quests@,
            quest_decks: self.quest_decks@,
        }
    }
}

/// The mathematical value of an [`AccountEvent`].
pub enum AccountEventView {
    AccountExists { username: Seq<char> },
    AccountCreated { account: ActorId, timestamp: u64 },
    NameChanged { account: ActorId, timestamp: u64 },
    AccountDeleted { account: ActorId, timestamp: u64 },
    InterviewReceived { quest_id: Seq<char>, seeker_id: ActorId },
    OfferReceived { quest_id: Seq<char>, recruiter_id: ActorId, seeker_id: ActorId },
    InterviewAccepted { quest_id: Seq<char>, seeker_id: ActorId },
    OfferAccepted { quest_id: Seq<char>, seeker_id: ActorId },
    Rejected { quest_id: Seq<char>, seeker_id: ActorId },
    QuestPublished { recruiter_id: ActorId, quest_id: Seq<char>, timestamp: u64 },
    StatusRecorded { actor: ActorId, quest_id: Seq<char> },
    Failed { reason: AccountError },
}

impl View for AccountEvent {
    type V = AccountEventView;

    open spec fn view(&self) -> AccountEventView {
        match self {
            AccountEvent::AccountExists { username } => AccountEventView::AccountExists { username: username@ },
            AccountEvent::AccountCreated { account, timestamp } => AccountEventView::AccountCreated { account: *account, timestamp: *timestamp },
            AccountEvent::NameChanged { account, timestamp } => AccountEventView::NameChanged { account: *account, timestamp: *timestamp },
            AccountEvent::AccountDeleted { account, timestamp } => AccountEventView::AccountDeleted { account: *account, timestamp: *timestamp },
            AccountEvent::InterviewReceived { quest_id, seeker_id } => AccountEventView::InterviewReceived { quest_id: quest_id@, seeker_id: *seeker_id },
            AccountEvent::OfferReceived { quest_id, recruiter_id, seeker_id } => AccountEventView::OfferReceived { quest_id: quest_id@, recruiter_id: *recruiter_id, seeker_id: *seeker_id },
            AccountEvent::InterviewAccepted { quest_id, seeker_id } => AccountEventView::InterviewAccepted { quest_id: quest_id@, seeker_id: *seeker_id },
            AccountEvent::OfferAccepted { quest_id, seeker_id } => AccountEventView::OfferAccepted { quest_id: quest_id@, seeker_id: *seeker_id },
            AccountEvent::Rejected { quest_id, seeker_id } => AccountEventView::Rejected { quest_id: quest_id@, seeker_id: *seeker_id },
            AccountEvent::QuestPublished { recruiter_id, quest_id, timestamp } => AccountEventView::QuestPublished { recruiter_id: *recruiter_id, quest_id: quest_id@, timestamp: *timestamp },
            AccountEvent::StatusRecorded { actor, quest_id } => AccountEventView::StatusRecorded { actor: *actor, quest_id: quest_id@ },
            AccountEvent::Failed { reason } => AccountEventView::Failed { reason: *reason },
        }
    }
}

/// The status recorded for `quest_id` in `quests`: that of its first entry,
/// or Unrecorded when there is none.
pub open spec fn status_of(quests: Seq<(String, Status)>, quest_id: Seq<char>) -> Status
    decreases quests.len(),
{
    if quests.len() == 0 {
        Status::Seeker(SeekerStatus::Unrecorded)
    } else if quests[0].0@ == quest_id {
        quests[0].1
    } else {
        status_of(quests.subrange(1, quests.len() as int), quest_id)
    }
}

/// `quests` with every entry for `quest_id` set to `status`.
pub open spec fn restatus(quests: Seq<(String, Status)>, quest_id: Seq<char>, status: Status) -> Seq<(String, Status)> {
    Seq::new(quests.len(), |i: int| if quests[i].0@ == quest_id { (quests[i].0, status) } else { quests[i] })
}

pub open spec fn has_entry(quests: Seq<(String, Status)>, quest_id: Seq<char>) -> bool {
    exists|i: int| 0 <= i < quests.len() && #[trigger] quests[i].0@ == quest_id
}

/// `quests` after recording `status` for `quest_id`: existing entries are
/// updated, else a new entry is appended.
pub open spec fn recorded(quests: Seq<(String, Status)>, quest_id: String, status: Status) -> Seq<(String, Status)> {
    if has_entry(quests, quest_id@) {
        restatus(quests, quest_id@, status)
    } else {
        quests.push((quest_id, status))
    }
}

/// The mathematical value of the account registry.
pub struct AccountsView {
    pub owner_id: ActorId,
    pub max_num_accounts: u32,
    pub num_counter: u32,
    pub seekers: Set<ActorId>,
    pub recruiters: Set<ActorId>,
    pub accounts: Map<ActorId, AccountView>,
}

impl AccountsView {
    pub open spec fn role_members(self, role: Roles) -> Set<ActorId> {
        match role {
            Roles::Seeker => self.seekers,
            Roles::Recruiter => self.recruiters,
        }
    }

    pub open spec fn status(self, address: ActorId, quest_id: Seq<char>) -> Status {
        if self.accounts.contains_key(address) {
            status_of(self.accounts[address].quests, quest_id)
        } else {
            Status::Seeker(SeekerStatus::Unrecorded)
        }
    }

    pub open spec fn with_quests(self, who: ActorId, quests: Seq<(String, Status)>) -> AccountsView {
        if self.accounts.contains_key(who) {
            AccountsView { accounts: self.accounts.insert(who, AccountView { quests, ..self.accounts[who] }), ..self }
        } else {
            self
        }
    }

    pub open spec fn set_status(self, who: ActorId, quest_id: Seq<char>, status: Status) -> AccountsView {
        self.with_quests(who, restatus(self.accounts[who].quests, quest_id, status))
    }

    pub open spec fn login(self, caller: ActorId, role: Roles, now: u64) -> (AccountsView, AccountEventView) {
        if self.role_members(role).contains(caller) && self.accounts.contains_key(caller) {
            (self, AccountEventView::AccountExists { username: self.accounts[caller].username })
        } else if self.num_counter >= self.max_num_accounts {
            (self, AccountEventView::Failed { reason: AccountError::MaxLimitReached })
        } else {
            let fresh = AccountView {
                username: Seq::empty(),
                role,
                badges: Seq::empty(),
                quests: Seq::empty(),
                quest_decks: Seq::empty(),
            };
            (
                AccountsView {
                    seekers: if role == Roles::Seeker { self.seekers.insert(caller) } else { self.seekers },
                    recruiters: if role == Roles::Recruiter { self.recruiters.insert(caller) } else { self.recruiters },
                    accounts: self.accounts.insert(caller, fresh),
                    num_counter: (self.num_counter + 1) as u32,
                    ..self
                },
                AccountEventView::AccountCreated { account: caller, timestamp: now },
            )
        }
    }

    /// The seeker's status on the quest must be `required` for the change
    /// to `next`; the reply is `done`.
    pub open spec fn advance(
        self,
        seeker: ActorId,
        quest_id: Seq<char>,
        required: SeekerStatus,
        next: SeekerStatus,
        refusal: AccountError,
        done: AccountEventView,
    ) -> (AccountsView, AccountEventView) {
        if self.status(seeker, quest_id) != Status::Seeker(required) {
            (self, AccountEventView::Failed { reason: refusal })
        } else {
            (self.set_status(seeker, quest_id, Status::Seeker(next)), done)
        }
    }

    pub open spec fn step(self, caller: ActorId, now: u64, action: AccountAction) -> (AccountsView, AccountEventView) {
        match action {
            AccountAction::Login { role } => self.login(caller, role, now),
            AccountAction::ChangeName { new_name } => if self.accounts.contains_key(caller) {
                (
                    AccountsView {
                        accounts: self.accounts.insert(caller, AccountView { username: new_name@, ..self.accounts[caller] }),
                        ..self
                    },
                    AccountEventView::NameChanged { account: caller, timestamp: now },
                )
            } else {
                (self, AccountEventView::Failed { reason: AccountError::AccountNotFound })
            },
            AccountAction::Delete => if self.accounts.contains_key(caller) {
                (
                    AccountsView {
                        accounts: self.accounts.remove(caller),
                        num_counter: if self.num_counter > 0 { (self.num_counter - 1) as u32 } else { 0 },
                        ..self
                    },
                    AccountEventView::AccountDeleted { account: caller, timestamp: now },
                )
            } else {
                (self, AccountEventView::Failed { reason: AccountError::AccountNotFound })
            },
            AccountAction::SendInterview { quest_id, seeker_id } => self.advance(
                seeker_id, quest_id@, SeekerStatus::Submitted, SeekerStatus::InterviewReceived,
                AccountError::NotSubmitted,
                AccountEventView::InterviewReceived { quest_id: quest_id@, seeker_id },
            ),
            AccountAction::SendOffer { quest_id, recruiter_id, seeker_id } => self.advance(
                seeker_id, quest_id@, SeekerStatus::InterviewAccepted, SeekerStatus::OfferReceived,
                AccountError::NotInterviewAccepted,
                AccountEventView::OfferReceived { quest_id: quest_id@, recruiter_id, seeker_id },
            ),
            AccountAction::AcceptInterview { quest_id, seeker_id } => self.advance(
                seeker_id, quest_id@, SeekerStatus::InterviewReceived, SeekerStatus::InterviewAccepted,
                AccountError::NotInterviewReceived,
                AccountEventView::InterviewAccepted { quest_id: quest_id@, seeker_id },
            ),
            AccountAction::AcceptOffer { quest_id, seeker_id } => self.advance(
                seeker_id, quest_id@, SeekerStatus::OfferReceived, SeekerStatus::OfferAccepted,
                AccountError::NotOfferReceived,
                AccountEventView::OfferAccepted { quest_id: quest_id@, seeker_id },
            ),
            AccountAction::RecruiterReject { quest_id, seeker_id } => {
                let s = self.status(seeker_id, quest_id@);
                if s != Status::Seeker(SeekerStatus::Submitted) && s != Status::Seeker(SeekerStatus::InterviewAccepted) {
                    (self, AccountEventView::Failed { reason: AccountError::NotRejectable })
                } else {
                    (
                        self.set_status(seeker_id, quest_id@, Status::Seeker(SeekerStatus::Rejected)),
                        AccountEventView::Rejected { quest_id: quest_id@, seeker_id },
                    )
                }
            },
            AccountAction::PublishQuest { recruiter_id, quest_id } => if self.accounts.contains_key(recruiter_id) {
                (
                    self.with_quests(
                        recruiter_id,
                        self.accounts[recruiter_id].quests.push((quest_id, Status::Recruiter(RecruiterStatus::Published))),
                    ),
                    AccountEventView::QuestPublished { recruiter_id, quest_id: quest_id@, timestamp: now },
                )
            } else {
                (self, AccountEventView::Failed { reason: AccountError::AccountNotFound })
            },
            AccountAction::RecordStatus { actor, quest_id, status } => if self.accounts.contains_key(actor) {
                (
                    self.with_quests(actor, recorded(self.accounts[actor].quests, quest_id, status)),
                    AccountEventView::StatusRecorded { actor, quest_id: quest_id@ },
                )
            } else {
                (self, AccountEventView::Failed { reason: AccountError::AccountNotFound })
            },
        }
    }
}

pub open spec fn account_views(m: Map<ActorId, Account>) -> Map<ActorId, AccountView> {
    m.map_values(|a: Account| a@)
}

proof fn lemma_views_insert(m: Map<ActorId, Account>, who: ActorId, a: Account)
    ensures
        account_views(m.insert(who, a)) == account_views(m).insert(who, a@),
{
    assert(account_views(m.insert(who, a)) =~= account_views(m).insert(who, a@));
}

proof fn lemma_views_remove(m: Map<ActorId, Account>, who: ActorId)
    ensures
        account_views(m.remove(who)) == account_views(m).remove(who),
        !m.contains_key(who) ==> m.remove(who) == m,
{
    assert(account_views(m.remove(who)) =~= account_views(m).remove(who));
    if !m.contains_key(who) {
        assert(m.remove(who) =~= m);
    }
}

/// The status recorded for `quest_id`.
fn status_in(quests: &Vec<(String, Status)>, quest_id: &String) -> (r: Status)
    ensures
        r == status_of(quests@, quest_id@),
{
    let mut i: usize = 0;
    assert(quests@.subrange(0, quests@.len() as int) =~= quests@);
    while i < quests.len()
        invariant
            i <= quests@.len(),
            status_of(quests@, quest_id@) == status_of(quests@.subrange(i as int, quests@.len() as int), quest_id@),
        decreases quests@.len() - i,
    {
        let ghost rest = quests@.subrange(i as int, quests@.len() as int);
        assert(rest[0] == quests@[i as int]);
        assert(rest.subrange(1, rest.len() as int) =~= quests@.subrange(i + 1, quests@.len() as int));
        if quests[i].0 == *quest_id {
            return quests[i].1;
        }
        i = i + 1;
    }
    Status::Seeker(SeekerStatus::Unrecorded)
}

/// Sets every entry for `quest_id` to `status`.
fn restatus_in(quests: &mut Vec<(String, Status)>, quest_id: &String, status: Status)
    ensures
        final(quests)@ == restatus(old(quests)@, quest_id@, status),
{
    let ghost start = quests@;
    let mut i: usize = 0;
    while i < quests.len()
        invariant
            quests@.len() == start.len(),
            i <= quests@.len(),
            forall|j: int| 0 <= j < i ==> quests@[j] == restatus(start, quest_id@, status)[j],
            forall|j: int| i <= j < quests@.len() ==> quests@[j] == start[j],
        decreases quests@.len() - i,
    {
        if quests[i].0 == *quest_id {
            let id = quests[i].0.clone();
            quests.set(i, (id, status));
        }
        i = i + 1;
    }
    assert(quests@ =~= restatus(start, quest_id@, status));
}

/// Whether `quests` has an entry for `quest_id`.
fn entry_exists(quests: &Vec<(String, Status)>, quest_id: &String) -> (r: bool)
    ensures
        r == has_entry(quests@, quest_id@),
{
    let mut i: usize = 0;
    while i < quests.len()
        invariant
            i <= quests@.len(),
            forall|j: int| 0 <= j < i ==> quests@[j].0@ != quest_id@,
        decreases quests@.len() - i,
    {
        if quests[i].0 == *quest_id {
            return true;
        }
        i = i + 1;
    }
    false
}

/// The account registry.
pub struct Accounts {
    pub owner_id: ActorId,
    /// How many accounts the registry may hold.
    pub max_num_accounts: u32,
    /// How many accounts it holds.
    pub num_counter: u32,
    pub seekers: ActorSet,
    pub recruiters: ActorSet,
    pub accounts: AccountTable,
}

impl View for Accounts {
    type V = AccountsView;

    open spec fn view(&self) -> AccountsView {
        AccountsView {
            owner_id: self.owner_id,
            max_num_accounts: self.max_num_accounts,
            num_counter: self.num_counter,
            seekers: members_of(self.seekers),
            recruiters: members_of(self.recruiters),
            accounts: account_views(accounts_of(self.accounts)),
        }
    }
}

impl Accounts {
    pub fn new(owner_id: ActorId, max_num_accounts: u32) -> (r: Accounts)
        ensures
            r@.owner_id == owner_id,
            r@.max_num_accounts == max_num_accounts,
            r@.num_counter == 0,
            r@.seekers == crate::account_tables::no_members(),
            r@.recruiters == crate::account_tables::no_members(),
            r@.accounts == account_views(crate::account_tables::no_accounts()),
    {
        Accounts {
            owner_id,
            max_num_accounts,
            num_counter: 0,
            seekers: ActorSet::new(),
            recruiters: ActorSet::new(),
            accounts: AccountTable::new(),
        }
    }

    /// Whether `address` is registered under `role`.
    pub fn is_exists(&self, address: ActorId, role: Roles) -> (r: bool)
        ensures
            r == self@.role_members(role).contains(address),
    {
        match role {
            Roles::Seeker => self.seekers.contains(&address),
            Roles::Recruiter => self.recruiters.contains(&address),
        }
    }

    /// Whether another account fits.
    pub fn check_capacity(&self) -> (r: bool)
        ensures
            r == (self@.num_counter < self@.max_num_accounts),
    {
        self.num_counter < self.max_num_accounts
    }

    /// The status `address` has recorded for `quest_id`.
    pub fn get_status(&self, address: ActorId, quest_id: &String) -> (r: Status)
        ensures
            r == self@.status(address, quest_id@),
    {
        match self.accounts.get(&address) {
            Some(account) => status_in(&account.quests, quest_id),
            None => Status::Seeker(SeekerStatus::Unrecorded),
        }
    }

    pub fn change_name(&mut self, caller: ActorId, new_name: String) -> (r: bool)
        ensures
            r == old(self)@.accounts.contains_key(caller),
            final(self)@ == (if r {
                AccountsView {
                    accounts: old(self)@.accounts.insert(caller, AccountView { username: new_name@, ..old(self)@.accounts[caller] }),
                    ..old(self)@
                }
            } else {
                old(self)@
            }),
    {
        proof {
            lemma_views_remove(accounts_of(self.accounts), caller);
        }
        match self.accounts.remove(&caller) {
            Some(mut account) => {
                account.username = new_name;
                proof {
                    lemma_views_insert(accounts_of(self.accounts), caller, account);
                    assert(account_views(accounts_of(self.accounts).insert(caller, account)) =~= old(self)@.accounts.insert(caller, account@));
                }
                self.accounts.insert(caller, account);
                true
            },
            None => false,
        }
    }

    pub fn delete_account(&mut self, caller: ActorId) -> (r: bool)
        ensures
            r == old(self)@.accounts.contains_key(caller),
            final(self)@ == (AccountsView { accounts: old(self)@.accounts.remove(caller), ..old(self)@ }),
    {
        proof {
            lemma_views_remove(accounts_of(self.accounts), caller);
        }
        self.accounts.remove(&caller).is_some()
    }

    /// Replaces `who`'s quest records by `quests`, when `who` has an account.
    fn set_quests(&mut self, who: ActorId, quests: Vec<(String, Status)>)
        ensures
            final(self)@ == old(self)@.with_quests(who, quests@),
    {
        proof {
            lemma_views_remove(accounts_of(self.accounts), who);
        }
        match self.accounts.remove(&who) {
            Some(mut account) => {
                account.quests = quests;
                proof {
                    lemma_views_insert(accounts_of(self.accounts), who, account);
                    assert(account_views(accounts_of(self.accounts).insert(who, account)) =~= old(self)@.accounts.insert(who, account@));
                }
                self.accounts.insert(who, account);
            },
            None => {},
        }
    }

    /// Sets `seeker`'s status on `quest_id` to `status`.
    fn set_status(&mut self, seeker: ActorId, quest_id: &String, status: Status)
        ensures
            final(self)@ == old(self)@.set_status(seeker, quest_id@, status),
    {
        let mut quests: Vec<(String, Status)> = Vec::new();
        let found = match self.accounts.get(&seeker) {
            Some(account) => {
                quests = clone_quests(&account.quests);
                true
            },
            None => false,
        };
        if found {
            restatus_in(&mut quests, quest_id, status);
            self.set_quests(seeker, quests);
        }
    }

    pub fn receive_interview(&mut self, quest_id: &String, seeker_id: ActorId)
        ensures
            final(self)@ == old(self)@.set_status(seeker_id, quest_id@, Status::Seeker(SeekerStatus::InterviewReceived)),
    {
        self.set_status(seeker_id, quest_id, Status::Seeker(SeekerStatus::InterviewReceived))
    }

    pub fn receive_offer(&mut self, quest_id: &String, seeker_id: ActorId)
        ensures
            final(self)@ == old(self)@.set_status(seeker_id, quest_id@, Status::Seeker(SeekerStatus::OfferReceived)),
    {
        self.set_status(seeker_id, quest_id, Status::Seeker(SeekerStatus::OfferReceived))
    }

    pub fn accept_interview(&mut self, quest_id: &String, seeker_id: ActorId)
        ensures
            final(self)@ == old(self)@.set_status(seeker_id, quest_id@, Status::Seeker(SeekerStatus::InterviewAccepted)),
    {
        self.set_status(seeker_id, quest_id, Status::Seeker(SeekerStatus::InterviewAccepted))
    }

    pub fn accept_offer(&mut self, quest_id: &String, seeker_id: ActorId)
        ensures
            final(self)@ == old(self)@.set_status(seeker_id, quest_id@, Status::Seeker(SeekerStatus::OfferAccepted)),
    {
        self.set_status(seeker_id, quest_id, Status::Seeker(SeekerStatus::OfferAccepted))
    }

    pub fn recruiter_reject(&mut self, quest_id: &String, seeker_id: ActorId)
        ensures
            final(self)@ == old(self)@.set_status(seeker_id, quest_id@, Status::Seeker(SeekerStatus::Rejected)),
    {
        self.set_status(seeker_id, quest_id, Status::Seeker(SeekerStatus::Rejected))
    }

    /// Moves `seeker` from `required` to `next` on `quest_id`, or refuses.
    fn advance(
        &mut self,
        seeker: ActorId,
        quest_id: &String,
        required: SeekerStatus,
        next: SeekerStatus,
    ) -> (r: bool)
        ensures
            r == (old(self)@.status(seeker, quest_id@) == Status::Seeker(required)),
            final(self)@ == (if r {
                old(self)@.set_status(seeker, quest_id@, Status::Seeker(next))
            } else {
                old(self)@
            }),
    {
        if self.get_status(seeker, quest_id) != Status::Seeker(required) {
            return false;
        }
        self.set_status(seeker, quest_id, Status::Seeker(next));
        true
    }

    /// A copy of `who`'s quest records, when `who` has an account.
    fn quests_of(&self, who: ActorId) -> (r: Option<Vec<(String, Status)>>)
        ensures
            r is Some == self@.accounts.contains_key(who),
            r matches Some(q) ==> q@ == self@.accounts[who].quests,
    {
        match self.accounts.get(&who) {
            Some(account) => Some(clone_quests(&account.quests)),
            None => None,
        }
    }

    /// Handles one request from `caller` at time `now`.
    pub fn handle(&mut self, caller: ActorId, now: u64, action: AccountAction) -> (r: AccountEvent)
        ensures
            (final(self)@, r@) == old(self)@.step(caller, now, action),
    {
        match action {
            AccountAction::Login { role } => {
                if self.is_exists(caller, role) {
                    match self.accounts.get(&caller) {
                        Some(account) => {
                            return AccountEvent::AccountExists { username: account.username.clone() };
                        },
                        None => {},
                    }
                }
                if !self.check_capacity() {
                    return AccountEvent::Failed { reason: AccountError::MaxLimitReached };
                }
                match role {
                    Roles::Seeker => self.seekers.insert(caller),
                    Roles::Recruiter => self.recruiters.insert(caller),
                }
                let account = Account {
                    username: String::new(),
                    role,
                    badges: Vec::new(),
                    quests: Vec::new(),
                    quest_decks: Vec::new(),
                };
                proof {
                    lemma_views_insert(accounts_of(self.accounts), caller, account);
                    assert(account@.badges =~= Seq::<Badges>::empty());
                    assert(account@.quests =~= Seq::<(String, Status)>::empty());
                    assert(account@.quest_decks =~= Seq::<(String, Status)>::empty());
                }
                self.accounts.insert(caller, account);
                self.num_counter = self.num_counter + 1;
                AccountEvent::AccountCreated { account: caller, timestamp: now }
            },
            AccountAction::ChangeName { new_name } => {
                if self.change_name(caller, new_name) {
                    AccountEvent::NameChanged { account: caller, timestamp: now }
                } else {
                    AccountEvent::Failed { reason: AccountError::AccountNotFound }
                }
            },
            AccountAction::Delete => {
                if self.delete_account(caller) {
                    if self.num_counter > 0 {
                        self.num_counter = self.num_counter - 1;
                    }
                    AccountEvent::AccountDeleted { account: caller, timestamp: now }
                } else {
                    assert(old(self)@.accounts.remove(caller) =~= old(self)@.accounts);
                    AccountEvent::Failed { reason: AccountError::AccountNotFound }
                }
            },
            AccountAction::SendInterview { quest_id, seeker_id } => {
                if self.advance(seeker_id, &quest_id, SeekerStatus::Submitted, SeekerStatus::InterviewReceived) {
                    AccountEvent::InterviewReceived { quest_id, seeker_id }
                } else {
                    AccountEvent::Failed { reason: AccountError::NotSubmitted }
                }
            },
            AccountAction::SendOffer { quest_id, recruiter_id, seeker_id } => {
                if self.advance(seeker_id, &quest_id, SeekerStatus::InterviewAccepted, SeekerStatus::OfferReceived) {
                    AccountEvent::OfferReceived { quest_id, recruiter_id, seeker_id }
                } else {
                    AccountEvent::Failed { reason: AccountError::NotInterviewAccepted }
                }
            },
            AccountAction::AcceptInterview { quest_id, seeker_id } => {
                if self.advance(seeker_id, &quest_id, SeekerStatus::InterviewReceived, SeekerStatus::InterviewAccepted) {
                    AccountEvent::InterviewAccepted { quest_id, seeker_id }
                } else {
                    AccountEvent::Failed { reason: AccountError::NotInterviewReceived }
                }
            },
            AccountAction::AcceptOffer { quest_id, seeker_id } => {
                if self.advance(seeker_id, &quest_id, SeekerStatus::OfferReceived, SeekerStatus::OfferAccepted) {
                    AccountEvent::OfferAccepted { quest_id, seeker_id }
                } else {
                    AccountEvent::Failed { reason: AccountError::NotOfferReceived }
                }
            },
            AccountAction::RecruiterReject { quest_id, seeker_id } => {
                let current = self.get_status(seeker_id, &quest_id);
                if current != Status::Seeker(SeekerStatus::Submitted) && current != Status::Seeker(SeekerStatus::InterviewAccepted) {
                    return AccountEvent::Failed { reason: AccountError::NotRejectable };
                }
                self.recruiter_reject(&quest_id, seeker_id);
                AccountEvent::Rejected { quest_id, seeker_id }
            },
            AccountAction::PublishQuest { recruiter_id, quest_id } => {
                match self.quests_of(recruiter_id) {
                    Some(mut quests) => {
                        quests.push((quest_id.clone(), Status::Recruiter(RecruiterStatus::Published)));
                        self.set_quests(recruiter_id, quests);
                        AccountEvent::QuestPublished { recruiter_id, quest_id, timestamp: now }
                    },
                    None => AccountEvent::Failed { reason: AccountError::AccountNotFound },
                }
            },
            AccountAction::RecordStatus { actor, quest_id, status } => {
                match self.quests_of(actor) {
                    Some(mut quests) => {
                        if entry_exists(&quests, &quest_id) {
                            restatus_in(&mut quests, &quest_id, status);
                        } else {
                            quests.push((quest_id.clone(), status));
                        }
                        self.set_quests(actor, quests);
                        AccountEvent::StatusRecorded { actor, quest_id }
                    },
                    None => AccountEvent::Failed { reason: AccountError::AccountNotFound },
                }
            },
        }
    }
}

/// A copy of `quests`, entry by entry.
fn clone_quests(quests: &Vec<(String, Status)>) -> (r: Vec<(String, Status)>)
    ensures
        r@ == quests@,
{
    let mut out: Vec<(String, Status)> = Vec::new();
    let mut i: usize = 0;
    while i < quests.len()
        invariant
            i <= quests@.len(),
            out@ == quests@.subrange(0, i as int),
        decreases quests@.len() - i,
    {
        let id = quests[i].0.clone();
        out.push((id, quests[i].1));
        assert(out@ =~= quests@.subrange(0, i + 1));
        i = i + 1;
    }
    assert(quests@.subrange(0, quests@.len() as int) =~= quests@);
    out
}

} // verus!
