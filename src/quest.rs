use vstd::prelude::*;
use crate::actor::ActorId;
use crate::base::{Base, BaseView};
use crate::quest_types::{
    CredentialReply, Gradings, IncomingQuest, Modifiable, QuestError, QuestType, Submission,
};
use crate::tiers::{
    dedication_view, BaseTierQuest, DedicatedQuest, MidTierQuest, QuestView, TierView,
    TopTierQuest,
};

verus! {

/// A quest of one of the four tiers.
pub enum Quest {
    BaseTier(BaseTierQuest),
    MidTier(MidTierQuest),
    TopTier(TopTierQuest),
    Dedicated(DedicatedQuest),
}

impl View for Quest {
    type V = QuestView;

    open spec fn view(&self) -> QuestView {
        match self {
            Quest::BaseTier(q) => q@,
            Quest::MidTier(q) => q@,
            Quest::TopTier(q) => q@,
            Quest::Dedicated(q) => q@,
        }
    }
}

pub open spec fn tier_of(q: QuestView) -> QuestType {
    match q.tier {
        TierView::BaseTier { .. } => QuestType::BaseTier,
        TierView::MidTier { .. } => QuestType::MidTier,
        TierView::TopTier { .. } => QuestType::TopTier,
        TierView::Dedicated { .. } => QuestType::Dedicated,
    }
}

/// The base record a publish builds: the provider is the publisher, every
/// slot is free and no seeker has committed.
pub open spec fn incoming_base(info: IncomingQuest, provider: ActorId) -> BaseView {
    BaseView {
        institution_name: info.institution_name,
        quest_name: info.quest_name,
        description: info.description,
        deliverables: info.deliverables,
        capacity: info.capacity,
        max_capacity: info.capacity,
        skill_token_name: info.skill_token_name,
        deadline: info.deadline,
        open_try: info.open_try,
        provider,
        provider_name: info.provider_name,
        contact_info: info.contact_info,
        submissions: Map::empty(),
        gradings: Map::empty(),
        extended: false,
        modified: false,
    }
}

/// The quest a publish builds from the provider's description.
pub open spec fn incoming_quest(quest_type: QuestType, info: IncomingQuest, provider: ActorId) -> QuestView {
    QuestView {
        tier: match quest_type {
            QuestType::BaseTier => TierView::BaseTier { free_gradings: info.free_gradings },
            QuestType::MidTier => TierView::MidTier {
                free_gradings: info.free_gradings,
                hiring_for: info.hiring_for,
                skill_tags: info.skill_tags,
                reputation_nft: info.reputation_nft,
            },
            QuestType::TopTier => TierView::TopTier {
                prize: info.prize,
                application_deadline: info.application_deadline,
                reputation_nft: info.reputation_nft,
            },
            QuestType::Dedicated => TierView::Dedicated {
                dedicated_to: dedication_view(info.dedicated_to),
            },
        },
        base: incoming_base(info, provider),
    }
}

impl Quest {
    pub fn base(&self) -> (r: &Base)
        ensures
            r@ == self@.base,
    {
        match self {
            Quest::BaseTier(q) => &q.base,
            Quest::MidTier(q) => &q.base,
            Quest::TopTier(q) => &q.base,
            Quest::Dedicated(q) => &q.base,
        }
    }

    pub fn quest_type(&self) -> (r: QuestType)
        ensures
            r == tier_of(self@),
    {
        match self {
            Quest::BaseTier(_) => QuestType::BaseTier,
            Quest::MidTier(_) => QuestType::MidTier,
            Quest::TopTier(_) => QuestType::TopTier,
            Quest::Dedicated(_) => QuestType::Dedicated,
        }
    }

    /// Builds the quest of the given tier that `provider` publishes.
    pub fn construct_quest(quest_type: QuestType, quest_info: IncomingQuest, provider: ActorId) -> (r: Quest)
        ensures
            r@ == incoming_quest(quest_type, quest_info, provider),
    {
        let IncomingQuest {
            institution_name,
            quest_name,
            description,
            deliverables,
            capacity,
            skill_token_name,
            deadline,
            open_try,
            provider_name,
            contact_info,
            free_gradings,
            hiring_for,
            skill_tags,
            reputation_nft,
            prize,
            application_deadline,
            dedicated_to,
        } = quest_info;
        let base = Base {
            institution_name,
            quest_name,
            description,
            deliverables,
            capacity,
            max_capacity: capacity,
            skill_token_name,
            deadline,
            open_try,
            provider,
            provider_name,
            contact_info,
            submissions: crate::actor_map::ActorMap::new(),
            gradings: crate::actor_map::ActorMap::new(),
            extended: false,
            modified: false,
        };
        match quest_type {
            QuestType::BaseTier => Quest::BaseTier(BaseTierQuest { base, free_gradings }),
            QuestType::MidTier => Quest::MidTier(
                MidTierQuest { base, free_gradings, hiring_for, skill_tags, reputation_nft },
            ),
            QuestType::TopTier => Quest::TopTier(
                TopTierQuest { base, prize, application_deadline, reputation_nft },
            ),
            QuestType::Dedicated => Quest::Dedicated(DedicatedQuest { base, dedicated_to }),
        }
    }

    /// `height` matters to top-tier quests and `credential` to mid-tier ones.
    pub fn commit(&mut self, msg_src: ActorId, height: u64, credential: CredentialReply) -> (r: Result<(), QuestError>)
        ensures
            r == old(self)@.commit_result(msg_src, height, credential),
            final(self)@ == (if r is Ok {
                old(self)@.committed(msg_src)
            } else {
                old(self)@
            }),
    {
        match self {
            Quest::BaseTier(q) => q.commit(msg_src),
            Quest::MidTier(q) => q.commit(msg_src, credential),
            Quest::TopTier(q) => q.commit(msg_src, height),
            Quest::Dedicated(q) => q.commit(msg_src),
        }
    }

    pub fn submit(&mut self, msg_src: ActorId, submission: Submission) -> (r: Result<(), QuestError>)
        ensures
            r == old(self)@.base.submit_result(msg_src),
            final(self)@ == (if r is Ok {
                old(self)@.with_base(old(self)@.base.submitted(msg_src, submission))
            } else {
                old(self)@
            }),
    {
        match self {
            Quest::BaseTier(q) => q.submit(msg_src, submission),
            Quest::MidTier(q) => q.submit(msg_src, submission),
            Quest::TopTier(q) => q.submit(msg_src, submission),
            Quest::Dedicated(q) => q.submit(msg_src, submission),
        }
    }

    pub fn grade(
        &mut self,
        msg_src: ActorId,
        commiter: ActorId,
        submission: Submission,
        grading: Gradings,
    ) -> (r: Result<(), QuestError>)
        ensures
            r == old(self)@.base.grade_result(msg_src, commiter, submission@),
            final(self)@ == (if r is Ok {
                old(self)@.with_base(old(self)@.base.graded(commiter, grading))
            } else {
                old(self)@
            }),
    {
        match self {
            Quest::BaseTier(q) => q.grade(msg_src, commiter, submission, grading),
            Quest::MidTier(q) => q.grade(msg_src, commiter, submission, grading),
            Quest::TopTier(q) => q.grade(msg_src, commiter, submission, grading),
            Quest::Dedicated(q) => q.grade(msg_src, commiter, submission, grading),
        }
    }

    pub fn modify(&mut self, msg_src: ActorId, fields: Modifiable) -> (r: Result<(), QuestError>)
        ensures
            r == old(self)@.base.modify_result(msg_src),
            final(self)@ == (if r is Ok {
                old(self)@.with_base(old(self)@.base.modified_with(fields))
            } else {
                old(self)@
            }),
    {
        match self {
            Quest::BaseTier(q) => q.base.modify(msg_src, fields),
            Quest::MidTier(q) => q.base.modify(msg_src, fields),
            Quest::TopTier(q) => q.base.modify(msg_src, fields),
            Quest::Dedicated(q) => q.base.modify(msg_src, fields),
        }
    }

    pub fn extend(&mut self, msg_src: ActorId, new_deadline: u64) -> (r: Result<(), QuestError>)
        ensures
            r == old(self)@.base.extend_result(msg_src, new_deadline),
            final(self)@ == (if r is Ok {
                old(self)@.with_base(old(self)@.base.extended_to(new_deadline))
            } else {
                old(self)@
            }),
    {
        match self {
            Quest::BaseTier(q) => q.base.extend(msg_src, new_deadline),
            Quest::MidTier(q) => q.base.extend(msg_src, new_deadline),
            Quest::TopTier(q) => q.base.extend(msg_src, new_deadline),
            Quest::Dedicated(q) => q.base.extend(msg_src, new_deadline),
        }
    }
}

} // verus!
