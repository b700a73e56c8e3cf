use vstd::prelude::*;
use crate::actor::ActorId;
use crate::model::{QuestAction, QuestEvent, QuestsView, RecordView};
use crate::quest_id::quest_id_gen;
use crate::quest_types::{
    CredentialReply, Gradings, IncomingQuest, Modifiable, QuestError, QuestId, QuestStatus,
    QuestType, SeekerStatus, SkillNFT, Submission,
};
use crate::quest::{tier_of, Quest};
use crate::tiers::{list_contains, MidTierQuest};

verus! {

/// One published quest as the registry keeps it.
pub struct QuestRecord {
    pub id: QuestId,
    pub quest: Quest,
    pub status: QuestStatus,
}

impl View for QuestRecord {
    type V = RecordView;

    open spec fn view(&self) -> RecordView {
        RecordView { quest: self.quest@, status: self.status }
    }
}

/// The quest registry: who may publish, and every quest published so far.
pub struct Quests {
    admin: ActorId,
    approved_providers: Vec<ActorId>,
    /// Free gradings a base- or mid-tier quest must offer at least.
    minimum_free_gradings: u8,
    /// The counter the next quest id is rendered from.
    next_id: u64,
    records: Vec<QuestRecord>,
    /// The records keyed by id.
    model: Ghost<Map<Seq<char>, RecordView>>,
}

impl View for Quests {
    type V = QuestsView;

    closed spec fn view(&self) -> QuestsView {
        QuestsView {
            admin: self.admin,
            approved_providers: self.approved_providers@,
            minimum_free_gradings: self.minimum_free_gradings,
            next_id: self.next_id,
            quests: self.model@,
        }
    }
}

/// Every record is in the map under its id, every id of the map has a
/// record, and no id is used twice.
spec fn consistent(s: Seq<QuestRecord>, m: Map<Seq<char>, RecordView>) -> bool {
    &&& forall|i: int| 0 <= i < s.len() ==> #[trigger] m.contains_key(s[i].id@) && m[s[i].id@] == s[i]@
    &&& forall|k: Seq<char>| #[trigger] m.contains_key(k) ==> exists|i: int| 0 <= i < s.len() && s[i].id@ == k
    &&& forall|i: int, j: int| 0 <= i < s.len() && 0 <= j < s.len() && i != j ==> s[i].id@ != s[j].id@
}

proof fn lemma_consistent_update(s: Seq<QuestRecord>, m: Map<Seq<char>, RecordView>, i: int, r: QuestRecord)
    requires
        consistent(s, m),
        0 <= i < s.len(),
        r.id@ == s[i].id@,
    ensures
        consistent(s.update(i, r), m.insert(r.id@, r@)),
{
    let s2 = s.update(i, r);
    let m2 = m.insert(r.id@, r@);
    assert forall|a: int| 0 <= a < s2.len() implies #[trigger] m2.contains_key(s2[a].id@) && m2[s2[a].id@] == s2[a]@ by {
        if a != i {
            assert(s[a].id@ != s[i].id@);
            assert(m.contains_key(s[a].id@));
        }
    }
    assert forall|k: Seq<char>| #[trigger] m2.contains_key(k) implies exists|a: int| 0 <= a < s2.len() && s2[a].id@ == k by {
        if k == r.id@ {
            assert(s2[i].id@ == k);
        } else {
            let a = choose|a: int| 0 <= a < s.len() && s[a].id@ == k;
            assert(s2[a].id@ == k);
        }
    }
    assert forall|a: int, b: int| 0 <= a < s2.len() && 0 <= b < s2.len() && a != b implies s2[a].id@ != s2[b].id@ by {
        assert(s[a].id@ != s[b].id@);
    }
}

proof fn lemma_consistent_push(s: Seq<QuestRecord>, m: Map<Seq<char>, RecordView>, r: QuestRecord)
    requires
        consistent(s, m),
        !m.contains_key(r.id@),
    ensures
        consistent(s.push(r), m.insert(r.id@, r@)),
{
    let s2 = s.push(r);
    let m2 = m.insert(r.id@, r@);
    let n = s.len() as int;
    assert forall|a: int| 0 <= a < s2.len() implies #[trigger] m2.contains_key(s2[a].id@) && m2[s2[a].id@] == s2[a]@ by {
        if a < n {
            assert(m.contains_key(s[a].id@));
        }
    }
    assert forall|k: Seq<char>| #[trigger] m2.contains_key(k) implies exists|a: int| 0 <= a < s2.len() && s2[a].id@ == k by {
        if k == r.id@ {
            assert(s2[n].id@ == k);
        } else {
            let a = choose|a: int| 0 <= a < s.len() && s[a].id@ == k;
            assert(s2[a].id@ == k);
        }
    }
    assert forall|a: int, b: int| 0 <= a < s2.len() && 0 <= b < s2.len() && a != b implies s2[a].id@ != s2[b].id@ by {
        if a < n && b < n {
            assert(s[a].id@ != s[b].id@);
        } else if a < n {
            assert(m.contains_key(s[a].id@));
        } else {
            assert(m.contains_key(s[b].id@));
        }
    }
}

impl Quests {
    pub closed spec fn wf(&self) -> bool {
        consistent(self.records@, self.model@) && self@.inv()
    }

    /// A well-formed registry keeps capacity and status coupled.
    pub proof fn lemma_inv(&self)
        requires
            self.wf(),
        ensures
            self@.inv(),
    {
    }

    /// An empty registry run by `admin`.
    pub fn new(admin: ActorId, approved_providers: Vec<ActorId>, minimum_free_gradings: u8) -> (r: Quests)
        ensures
            r.wf(),
            r@.admin == admin,
            r@.approved_providers == approved_providers@,
            r@.minimum_free_gradings == minimum_free_gradings,
            r@.next_id == 1,
            r@.quests == Map::<Seq<char>, RecordView>::empty(),
    {
        Quests {
            admin,
            approved_providers,
            minimum_free_gradings,
            next_id: 1,
            records: Vec::new(),
            model: Ghost(Map::empty()),
        }
    }

    /// Index of the record with the given id.
    fn position(&self, quest_id: &QuestId) -> (r: Option<usize>)
        requires
            self.wf(),
        ensures
            r is None <==> !self@.quests.contains_key(quest_id@),
            r matches Some(i) ==> i < self.records@.len() && self.records@[i as int].id@ == quest_id@
                && self@.quests[quest_id@] == self.records@[i as int]@,
    {
        let mut i: usize = 0;
        while i < self.records.len()
            invariant
                self.wf(),
                i <= self.records@.len(),
                forall|j: int| 0 <= j < i ==> self.records@[j].id@ != quest_id@,
            decreases self.records@.len() - i,
        {
            if self.records[i].id == *quest_id {
                proof {
                    assert(self.model@.contains_key(self.records@[i as int].id@));
                }
                return Some(i);
            }
            i = i + 1;
        }
        proof {
            if self@.quests.contains_key(quest_id@) {
                let j = choose|j: int| 0 <= j < self.records@.len() && self.records@[j].id@ == quest_id@;
                assert(self.records@[j].id@ != quest_id@);
            }
        }
        None
    }

    /// Whether `sender` may publish quests.
    pub fn is_approved(&self, sender: &ActorId) -> (r: bool)
        ensures
            r == self@.approved_providers.contains(*sender),
    {
        list_contains(&self.approved_providers, sender)
    }

    /// The account that runs the registry.
    pub fn admin(&self) -> (r: ActorId)
        ensures
            r == self@.admin,
    {
        self.admin
    }

    /// Whether `actor` runs the registry.
    pub fn is_owner(&self, actor: &ActorId) -> (r: bool)
        ensures
            r == (self@.admin == *actor),
    {
        proof {
            crate::actor::lemma_actor_eq(self.admin, *actor);
        }
        self.admin == *actor
    }

    proof fn lemma_count(&self)
        requires
            self.wf(),
        ensures
            self@.quests.dom().len() == self.records@.len(),
    {
        let ids = self.records@.map_values(|q: QuestRecord| q.id@);
        assert(ids.no_duplicates()) by {
            assert forall|i: int, j: int| 0 <= i < ids.len() && 0 <= j < ids.len() && i != j implies ids[i] != ids[j] by {
                assert(ids[i] == self.records@[i].id@);
                assert(ids[j] == self.records@[j].id@);
            }
        }
        assert(self.model@.dom() =~= ids.to_set()) by {
            assert forall|k: Seq<char>| #[trigger] self.model@.dom().contains(k) implies ids.to_set().contains(k) by {
                let i = choose|i: int| 0 <= i < self.records@.len() && self.records@[i].id@ == k;
                assert(ids[i] == k);
            }
            assert forall|k: Seq<char>| #[trigger] ids.to_set().contains(k) implies self.model@.dom().contains(k) by {
                let i = choose|i: int| 0 <= i < ids.len() && ids[i] == k;
                assert(self.model@.contains_key(self.records@[i].id@));
            }
        }
        ids.unique_seq_to_set();
    }

    /// Number of quests published.
    pub fn len(&self) -> (r: usize)
        requires
            self.wf(),
        ensures
            r as nat == self@.quests.dom().len(),
    {
        proof {
            self.lemma_count();
        }
        self.records.len()
    }

    /// The quest with the given id.
    pub fn get_quest(&self, quest_id: &QuestId) -> (r: Option<&Quest>)
        requires
            self.wf(),
        ensures
            r is Some == self@.quests.contains_key(quest_id@),
            r matches Some(q) ==> q@ == self@.quests[quest_id@].quest,
    {
        match self.position(quest_id) {
            Some(i) => Some(&self.records[i].quest),
            None => None,
        }
    }

    /// The aggregate status of the quest with the given id.
    pub fn quest_status(&self, quest_id: &QuestId) -> (r: Option<QuestStatus>)
        requires
            self.wf(),
        ensures
            r is Some == self@.quests.contains_key(quest_id@),
            r matches Some(s) ==> s == self@.quests[quest_id@].status,
    {
        match self.position(quest_id) {
            Some(i) => Some(self.records[i].status),
            None => None,
        }
    }

    /// Where `seeker` stands on the quest with the given id.
    pub fn seeker_status(&self, quest_id: &QuestId, seeker: &ActorId) -> (r: Option<&SeekerStatus>)
        requires
            self.wf(),
        ensures
            r is Some == (self@.quests.contains_key(quest_id@)
                && self@.quests[quest_id@].quest.base.submissions.contains_key(*seeker)),
            r matches Some(s) ==> *s == self@.quests[quest_id@].quest.base.submissions[*seeker],
    {
        match self.position(quest_id) {
            Some(i) => self.records[i].quest.base().submissions.get(seeker),
            None => None,
        }
    }

    /// Record that the record at `i` now holds `r` (same id).
    proof fn lemma_model_after_update(
        old_records: Seq<QuestRecord>,
        old_model: Map<Seq<char>, RecordView>,
        i: int,
        r: QuestRecord,
    )
        requires
            consistent(old_records, old_model),
            0 <= i < old_records.len(),
            r.id@ == old_records[i].id@,
        ensures
            consistent(old_records.update(i, r), old_model.insert(r.id@, r@)),
            r@ == old_records[i]@ ==> old_model.insert(r.id@, r@) == old_model,
    {
        lemma_consistent_update(old_records, old_model, i, r);
        if r@ == old_records[i]@ {
            assert(old_model.contains_key(old_records[i].id@));
            assert(old_model.insert(r.id@, r@) =~= old_model);
        }
    }

    /// Publishes a quest on behalf of `msg_src` at block `height`; returns
    /// the fresh quest id.
    pub fn publish(
        &mut self,
        msg_src: ActorId,
        quest_type: QuestType,
        quest_info: IncomingQuest,
        height: u64,
    ) -> (r: Result<QuestId, QuestError>)
        requires
            old(self).wf(),
        ensures
            final(self).wf(),
            final(self)@ == old(self)@.publish(msg_src, quest_type, quest_info, height).0,
            id_result(r) == old(self)@.publish(msg_src, quest_type, quest_info, height).1,
    {
        let ghost old_view = self@;
        if !self.is_approved(&msg_src) {
            return Err(QuestError::NotApproved);
        }
        match quest_type {
            QuestType::BaseTier | QuestType::MidTier => {
                if quest_info.free_gradings < self.minimum_free_gradings {
                    return Err(QuestError::InsufficientFreeGradings);
                }
            },
            QuestType::TopTier => {
                if quest_info.application_deadline as u64 <= height {
                    return Err(QuestError::DeadlinePassed);
                }
            },
            QuestType::Dedicated => {},
        }
        if self.next_id == u64::MAX {
            return Err(QuestError::IdsExhausted);
        }
        let quest_id = quest_id_gen(self.next_id);
        self.next_id = self.next_id + 1;
        if self.position(&quest_id).is_some() {
            return Err(QuestError::DuplicateQuestId);
        }
        let quest = Quest::construct_quest(quest_type, quest_info, msg_src);
        let record = QuestRecord { id: quest_id.clone(), quest, status: QuestStatus::Open };
        proof {
            lemma_consistent_push(self.records@, self.model@, record);
        }
        proof {
            crate::laws::lemma_publish_keeps_coupling(old_view, msg_src, quest_type, quest_info, height);
        }
        self.model = Ghost(self.model@.insert(record.id@, record@));
        self.records.push(record);
        Ok(quest_id)
    }

    /// `msg_src` commits to a quest at block `height`; for a mid-tier quest
    /// `credential` is the ledger's answer to consuming the badge that
    /// [`Quests::required_credential`] named.
    pub fn commit(
        &mut self,
        msg_src: ActorId,
        quest_id: &QuestId,
        height: u64,
        credential: CredentialReply,
    ) -> (r: Result<(), QuestError>)
        requires
            old(self).wf(),
        ensures
            final(self).wf(),
            (final(self)@, r) == old(self)@.commit(msg_src, quest_id@, height, credential),
    {
        let ghost old_view = self@;
        let i = match self.position(quest_id) {
            Some(i) => i,
            None => {
                return Err(QuestError::QuestNotFound);
            },
        };
        match self.records[i].status {
            QuestStatus::Closed => {
                return Err(QuestError::QuestClosed);
            },
            QuestStatus::Full => {
                return Err(QuestError::QuestNotOpen);
            },
            QuestStatus::Open => {},
        }
        let ghost old_records = self.records@;
        let ghost old_model = self.model@;
        let rec = &mut self.records[i];
        let res = rec.quest.commit(msg_src, height, credential);
        if res.is_ok() {
            let base = rec.quest.base();
            if base.max_capacity > 0 && base.capacity == 0 {
                rec.status = QuestStatus::Full;
            }
        }
        proof {
            Self::lemma_model_after_update(old_records, old_model, i as int, self.records@[i as int]);
        }
        proof {
            crate::laws::lemma_commit_keeps_coupling(old_view, msg_src, quest_id@, height, credential);
        }
        self.model = Ghost(old_model.insert(quest_id@, self.records@[i as int]@));
        res
    }

    /// `msg_src` hands in `submission` for a quest it committed to.
    pub fn submit(&mut self, msg_src: ActorId, quest_id: &QuestId, submission: Submission) -> (r: Result<(), QuestError>)
        requires
            old(self).wf(),
        ensures
            final(self).wf(),
            (final(self)@, r) == old(self)@.submit(msg_src, quest_id@, submission),
    {
        let ghost old_view = self@;
        let i = match self.position(quest_id) {
            Some(i) => i,
            None => {
                return Err(QuestError::QuestNotFound);
            },
        };
        let ghost old_records = self.records@;
        let ghost old_model = self.model@;
        let rec = &mut self.records[i];
        let res = rec.quest.submit(msg_src, submission);
        proof {
            Self::lemma_model_after_update(old_records, old_model, i as int, self.records@[i as int]);
        }
        proof {
            crate::laws::lemma_submit_keeps_coupling(old_view, msg_src, quest_id@, submission);
        }
        self.model = Ghost(old_model.insert(quest_id@, self.records@[i as int]@));
        res
    }

    /// The provider `msg_src` grades `commiter`'s `submission`.
    pub fn grade(
        &mut self,
        msg_src: ActorId,
        quest_id: &QuestId,
        commiter: ActorId,
        submission: Submission,
        grading: Gradings,
    ) -> (r: Result<(), QuestError>)
        requires
            old(self).wf(),
        ensures
            final(self).wf(),
            (final(self)@, r) == old(self)@.grade(msg_src, quest_id@, commiter, submission@, grading),
    {
        let ghost old_view = self@;
        let i = match self.position(quest_id) {
            Some(i) => i,
            None => {
                return Err(QuestError::QuestNotFound);
            },
        };
        let ghost old_records = self.records@;
        let ghost old_model = self.model@;
        let rec = &mut self.records[i];
        let res = rec.quest.grade(msg_src, commiter, submission, grading);
        if res.is_ok() {
            if rec.status == QuestStatus::Full && rec.quest.base().capacity > 0 {
                rec.status = QuestStatus::Open;
            }
        }
        proof {
            Self::lemma_model_after_update(old_records, old_model, i as int, self.records@[i as int]);
        }
        proof {
            crate::laws::lemma_grade_keeps_coupling(old_view, msg_src, quest_id@, commiter, submission@, grading);
        }
        self.model = Ghost(old_model.insert(quest_id@, self.records@[i as int]@));
        res
    }

    /// The provider rewrites the quest's display fields, once.
    pub fn modify(&mut self, msg_src: ActorId, quest_id: &QuestId, base_info: Modifiable) -> (r: Result<(), QuestError>)
        requires
            old(self).wf(),
        ensures
            final(self).wf(),
            (final(self)@, r) == old(self)@.modify(msg_src, quest_id@, base_info),
    {
        let ghost old_view = self@;
        let i = match self.position(quest_id) {
            Some(i) => i,
            None => {
                return Err(QuestError::QuestNotFound);
            },
        };
        let ghost old_records = self.records@;
        let ghost old_model = self.model@;
        let rec = &mut self.records[i];
        let res = rec.quest.modify(msg_src, base_info);
        proof {
            Self::lemma_model_after_update(old_records, old_model, i as int, self.records@[i as int]);
        }
        proof {
            crate::laws::lemma_modify_keeps_coupling(old_view, msg_src, quest_id@, base_info);
        }
        self.model = Ghost(old_model.insert(quest_id@, self.records@[i as int]@));
        res
    }

    /// The provider moves the deadline forward to `new_deadline`, once.
    pub fn extend(&mut self, msg_src: ActorId, quest_id: &QuestId, new_deadline: u64) -> (r: Result<(), QuestError>)
        requires
            old(self).wf(),
        ensures
            final(self).wf(),
            (final(self)@, r) == old(self)@.extend(msg_src, quest_id@, new_deadline),
    {
        let ghost old_view = self@;
        let i = match self.position(quest_id) {
            Some(i) => i,
            None => {
                return Err(QuestError::QuestNotFound);
            },
        };
        let ghost old_records = self.records@;
        let ghost old_model = self.model@;
        let rec = &mut self.records[i];
        let res = rec.quest.extend(msg_src, new_deadline);
        proof {
            Self::lemma_model_after_update(old_records, old_model, i as int, self.records@[i as int]);
        }
        proof {
            crate::laws::lemma_extend_keeps_coupling(old_view, msg_src, quest_id@, new_deadline);
        }
        self.model = Ghost(old_model.insert(quest_id@, self.records@[i as int]@));
        res
    }

    /// The provider closes the quest to new commits; work already committed
    /// may still be submitted and graded.
    pub fn close(&mut self, msg_src: ActorId, quest_id: &QuestId) -> (r: Result<(), QuestError>)
        requires
            old(self).wf(),
        ensures
            final(self).wf(),
            (final(self)@, r) == old(self)@.close(msg_src, quest_id@),
    {
        let ghost old_view = self@;
        let i = match self.position(quest_id) {
            Some(i) => i,
            None => {
                return Err(QuestError::QuestNotFound);
            },
        };
        if self.records[i].status == QuestStatus::Closed {
            return Err(QuestError::AlreadyClosed);
        }
        let provider = self.records[i].quest.base().provider;
        proof {
            crate::actor::lemma_actor_eq(provider, msg_src);
        }
        if !(provider == msg_src) {
            return Err(QuestError::NotProvider);
        }
        let ghost old_records = self.records@;
        let ghost old_model = self.model@;
        let rec = &mut self.records[i];
        rec.status = QuestStatus::Closed;
        proof {
            Self::lemma_model_after_update(old_records, old_model, i as int, self.records@[i as int]);
        }
        proof {
            crate::laws::lemma_close_keeps_coupling(old_view, msg_src, quest_id@);
        }
        self.model = Ghost(old_model.insert(quest_id@, self.records@[i as int]@));
        Ok(())
    }

    /// The admin approves another provider; approving one twice is refused.
    pub fn add_provider(&mut self, msg_src: ActorId, provider: ActorId) -> (r: Result<(), QuestError>)
        requires
            old(self).wf(),
        ensures
            final(self).wf(),
            (final(self)@, r) == old(self)@.add_provider(msg_src, provider),
    {
        if !self.is_owner(&msg_src) {
            return Err(QuestError::NotAdmin);
        }
        if self.is_approved(&provider) {
            return Err(QuestError::AlreadyApproved);
        }
        self.approved_providers.push(provider);
        Ok(())
    }

    /// The skill badge the ledger must consume before `msg_src` commits to
    /// the quest: present exactly when the quest is mid-tier and the commit
    /// would succeed once the badge is consumed.
    pub fn required_credential(&self, msg_src: ActorId, quest_id: &QuestId, height: u64) -> (r: Option<SkillNFT>)
        requires
            self.wf(),
        ensures
            r == (if self@.commit(msg_src, quest_id@, height, CredentialReply::Consumed).1 is Ok {
                self@.quests[quest_id@].quest.required_credential()
            } else {
                None
            }),
    {
        let i = match self.position(quest_id) {
            Some(i) => i,
            None => {
                return None;
            },
        };
        let rec = &self.records[i];
        if rec.status != QuestStatus::Open {
            return None;
        }
        match &rec.quest {
            crate::quest::Quest::MidTier(q) => {
                if q.base.submissions.contains_key(&msg_src) || q.free_gradings == 0 {
                    None
                } else {
                    Some(q.skill_tags)
                }
            },
            _ => None,
        }
    }

    /// Handles one request from `msg_src` at block `height`.
    pub fn handle(
        &mut self,
        msg_src: ActorId,
        height: u64,
        credential: CredentialReply,
        action: QuestAction,
    ) -> (r: QuestEvent)
        requires
            old(self).wf(),
        ensures
            final(self).wf(),
            (final(self)@, r@) == old(self)@.step(msg_src, height, credential, action),
    {
        match action {
            QuestAction::Publish { quest_type, quest_info } => {
                match self.publish(msg_src, quest_type, quest_info, height) {
                    Ok(quest_id) => QuestEvent::Published { quest_id },
                    Err(reason) => QuestEvent::Rejected { reason },
                }
            },
            QuestAction::Commit { quest_id } => {
                event(self.commit(msg_src, &quest_id, height, credential), QuestEvent::Committed)
            },
            QuestAction::Submit { quest_id, submission } => {
                event(self.submit(msg_src, &quest_id, submission), QuestEvent::Submitted)
            },
            QuestAction::Grade { quest_id, commiter, submission, grading } => {
                event(self.grade(msg_src, &quest_id, commiter, submission, grading), QuestEvent::Graded)
            },
            QuestAction::Modify { quest_id, base_info } => {
                event(self.modify(msg_src, &quest_id, base_info), QuestEvent::Modified)
            },
            QuestAction::Extend { quest_id, new_deadline } => {
                event(self.extend(msg_src, &quest_id, new_deadline), QuestEvent::Extended)
            },
            QuestAction::Close { quest_id } => {
                event(self.close(msg_src, &quest_id), QuestEvent::Closed)
            },
            QuestAction::AddProvider { provider } => {
                event(self.add_provider(msg_src, provider), QuestEvent::ProviderAdded)
            },
        }
    }
    /// The ids of all published quests, oldest first.
    pub fn quest_ids(&self) -> (r: Vec<QuestId>)
        requires
            self.wf(),
        ensures
            r@.len() == self@.quests.dom().len(),
            forall|i: int| 0 <= i < r@.len() ==> #[trigger] self@.quests.contains_key(r@[i]@),
    {
        let mut ids: Vec<QuestId> = Vec::new();
        let mut i: usize = 0;
        while i < self.records.len()
            invariant
                self.wf(),
                i <= self.records@.len(),
                ids@.len() == i,
                forall|j: int| 0 <= j < i ==> ids@[j]@ == self.records@[j].id@,
            decreases self.records@.len() - i,
        {
            ids.push(self.records[i].id.clone());
            i = i + 1;
        }
        proof {
            self.lemma_count();
            assert forall|j: int| 0 <= j < ids@.len() implies #[trigger] self@.quests.contains_key(ids@[j]@) by {
                assert(self.model@.contains_key(self.records@[j].id@));
            }
        }
        ids
    }
}

/// The mid-tier quest with the given id, if there is one.
pub fn get_quest_by_id<'a>(state: &'a Quests, quest_id: &QuestId) -> (r: Option<&'a MidTierQuest>)
    requires
        state.wf(),
    ensures
        r is Some == (state@.quests.contains_key(quest_id@) && tier_of(state@.quests[quest_id@].quest)
            == QuestType::MidTier),
        r matches Some(q) ==> q@ == state@.quests[quest_id@].quest,
{
    match state.get_quest(quest_id) {
        Some(Quest::MidTier(q)) => Some(q),
        _ => None,
    }
}

pub open spec fn id_result(r: Result<QuestId, QuestError>) -> Result<Seq<char>, QuestError> {
    match r {
        Ok(id) => Ok(id@),
        Err(e) => Err(e),
    }
}

fn event(r: Result<(), QuestError>, ok: QuestEvent) -> (e: QuestEvent)
    ensures
        e@ == crate::model::reply(r, ok@),
{
    match r {
        Ok(_) => ok,
        Err(reason) => QuestEvent::Rejected { reason },
    }
}

} // verus!
