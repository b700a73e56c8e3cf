use vstd::prelude::*;
use crate::actor::{ActorId, lemma_actor_eq};
use crate::base::{Base, BaseView};
use crate::quest_types::{
    CredentialReply, Gradings, QuestError, RepuNFT, SkillNFT, Submission,
};

verus! {

/// Skill assessment quest: anyone may commit.
pub struct BaseTierQuest {
    pub base: Base,
    /// Gradings the provider hands out for free.
    pub free_gradings: u8,
}

/// Hiring quest: a commit uses up a free grading and the seeker's skill
/// credential.
pub struct MidTierQuest {
    pub base: Base,
    pub free_gradings: u8,
    /// The position the provider is hiring for.
    pub hiring_for: String,
    /// The skill badge a seeker must hold to commit.
    pub skill_tags: SkillNFT,
    pub reputation_nft: RepuNFT,
}

/// Competition quest: commits close at the application deadline.
pub struct TopTierQuest {
    pub base: Base,
    pub prize: String,
    /// Last block height at which a seeker may commit.
    pub application_deadline: u32,
    pub reputation_nft: RepuNFT,
}

/// Quest for a fixed audience; without a list (or with an empty one) anyone
/// who knows the id may commit.
pub struct DedicatedQuest {
    pub base: Base,
    pub dedicated_to: Option<Vec<ActorId>>,
}

/// The mathematical value of a tier's own fields.
pub enum TierView {
    BaseTier { free_gradings: u8 },
    MidTier { free_gradings: u8, hiring_for: String, skill_tags: SkillNFT, reputation_nft: RepuNFT },
    TopTier { prize: String, application_deadline: u32, reputation_nft: RepuNFT },
    Dedicated { dedicated_to: Option<Seq<ActorId>> },
}

/// The mathematical value of a quest of any tier.
pub struct QuestView {
    pub tier: TierView,
    pub base: BaseView,
}

pub open spec fn dedication_view(d: Option<Vec<ActorId>>) -> Option<Seq<ActorId>> {
    match d {
        Some(v) => Some(v@),
        None => None,
    }
}

impl QuestView {
    /// Whether `seeker` may commit, checked in order: a second commit is
    /// refused, then the tier's own rule applies.
    pub open spec fn commit_result(
        self,
        seeker: ActorId,
        height: u64,
        credential: CredentialReply,
    ) -> Result<(), QuestError> {
        if self.base.submissions.contains_key(seeker) {
            Err(QuestError::AlreadyCommitted)
        } else {
            match self.tier {
                TierView::BaseTier { .. } => Ok(()),
                TierView::MidTier { free_gradings, .. } => if free_gradings == 0 {
                    Err(QuestError::InsufficientFreeGradings)
                } else {
                    match credential {
                        CredentialReply::Consumed => Ok(()),
                        CredentialReply::Missing => Err(QuestError::MissingCredential),
                        CredentialReply::Unavailable => Err(QuestError::CollaboratorUnavailable),
                    }
                },
                TierView::TopTier { application_deadline, .. } => if height
                    > application_deadline as u64 {
                    Err(QuestError::DeadlinePassed)
                } else {
                    Ok(())
                },
                TierView::Dedicated { dedicated_to } => match dedicated_to {
                    Some(list) => if list.len() == 0 || list.contains(seeker) {
                        Ok(())
                    } else {
                        Err(QuestError::NotOnDedicationList)
                    },
                    None => Ok(()),
                },
            }
        }
    }

    /// The quest after an admissible commit; a mid-tier quest spends one
    /// free grading.
    pub open spec fn committed(self, seeker: ActorId) -> QuestView {
        QuestView {
            tier: match self.tier {
                TierView::MidTier { free_gradings, hiring_for, skill_tags, reputation_nft } =>
                    TierView::MidTier {
                    free_gradings: (free_gradings - 1) as u8,
                    hiring_for,
                    skill_tags,
                    reputation_nft,
                },
                t => t,
            },
            base: self.base.committed(seeker),
        }
    }

    /// The skill badge a commit to this quest consumes, if any.
    pub open spec fn required_credential(self) -> Option<SkillNFT> {
        match self.tier {
            TierView::MidTier { skill_tags, .. } => Some(skill_tags),
            _ => None,
        }
    }

    pub open spec fn with_base(self, base: BaseView) -> QuestView {
        QuestView { base, ..self }
    }
}

impl View for BaseTierQuest {
    type V = QuestView;

    open spec fn view(&self) -> QuestView {
        QuestView { tier: TierView::BaseTier { free_gradings: self.free_gradings }, base: self.base@ }
    }
}

impl View for MidTierQuest {
    type V = QuestView;

    open spec fn view(&self) -> QuestView {
        QuestView {
            tier: TierView::MidTier {
                free_gradings: self.free_gradings,
                hiring_for: self.hiring_for,
                skill_tags: self.skill_tags,
                reputation_nft: self.reputation_nft,
            },
            base: self.base@,
        }
    }
}

impl View for TopTierQuest {
    type V = QuestView;

    open spec fn view(&self) -> QuestView {
        QuestView {
            tier: TierView::TopTier {
                prize: self.prize,
                application_deadline: self.application_deadline,
                reputation_nft: self.reputation_nft,
            },
            base: self.base@,
        }
    }
}

impl View for DedicatedQuest {
    type V = QuestView;

    open spec fn view(&self) -> QuestView {
        QuestView {
            tier: TierView::Dedicated { dedicated_to: dedication_view(self.dedicated_to) },
            base: self.base@,
        }
    }
}

impl BaseTierQuest {
    /// Anyone who has not committed yet may commit; the height and the
    /// credential named in the contract play no part here.
    pub fn commit(&mut self, msg_src: ActorId) -> (r: Result<(), QuestError>)
        ensures
            r == old(self)@.commit_result(msg_src, 0, CredentialReply::Missing),
            final(self)@ == (if r is Ok {
                old(self)@.committed(msg_src)
            } else {
                old(self)@
            }),
    {
        if self.base.submissions.contains_key(&msg_src) {
            return Err(QuestError::AlreadyCommitted);
        }
        self.base.enter(msg_src);
        Ok(())
    }

    pub fn submit(&mut self, msg_src: ActorId, submission: Submission) -> (r: Result<(), QuestError>)
        ensures
            r == old(self)@.base.submit_result(msg_src),
            final(self)@ == (if r is Ok {
                old(self)@.with_base(old(self)@.base.submitted(msg_src, submission))
            } else {
                old(self)@
            }),
    {
        self.base.submit(msg_src, submission)
    }

    pub fn grade(
        &mut self,
        msg_src: ActorId,
        commiter: ActorId,
        submission: Submission,
        grading: Gradings,
    ) -> (r: Result<(), QuestError>)
        ensures
            r == old(self)@.base.grade_result(msg_src, commiter, submission@),
            final(self)@ == (if r is Ok {
                old(self)@.with_base(old(self)@.base.graded(commiter, grading))
            } else {
                old(self)@
            }),
    {
        self.base.grade(msg_src, commiter, submission, grading)
    }
}

impl MidTierQuest {
    /// `credential` is the ledger's answer to consuming the seeker's
    /// `skill_tags` badge; it is asked for only when the other checks pass.
    /// The height named in the contract plays no part here.
    pub fn commit(&mut self, msg_src: ActorId, credential: CredentialReply) -> (r: Result<(), QuestError>)
        ensures
            r == old(self)@.commit_result(msg_src, 0, credential),
            final(self)@ == (if r is Ok {
                old(self)@.committed(msg_src)
            } else {
                old(self)@
            }),
    {
        if self.base.submissions.contains_key(&msg_src) {
            return Err(QuestError::AlreadyCommitted);
        }
        if self.free_gradings == 0 {
            return Err(QuestError::InsufficientFreeGradings);
        }
        match credential {
            CredentialReply::Consumed => {},
            CredentialReply::Missing => {
                return Err(QuestError::MissingCredential);
            },
            CredentialReply::Unavailable => {
                return Err(QuestError::CollaboratorUnavailable);
            },
        }
        self.free_gradings = self.free_gradings - 1;
        self.base.enter(msg_src);
        Ok(())
    }

    pub fn submit(&mut self, msg_src: ActorId, submission: Submission) -> (r: Result<(), QuestError>)
        ensures
            r == old(self)@.base.submit_result(msg_src),
            final(self)@ == (if r is Ok {
                old(self)@.with_base(old(self)@.base.submitted(msg_src, submission))
            } else {
                old(self)@
            }),
    {
        self.base.submit(msg_src, submission)
    }

    pub fn grade(
        &mut self,
        msg_src: ActorId,
        commiter: ActorId,
        submission: Submission,
        grading: Gradings,
    ) -> (r: Result<(), QuestError>)
        ensures
            r == old(self)@.base.grade_result(msg_src, commiter, submission@),
            final(self)@ == (if r is Ok {
                old(self)@.with_base(old(self)@.base.graded(commiter, grading))
            } else {
                old(self)@
            }),
    {
        self.base.grade(msg_src, commiter, submission, grading)
    }
}

impl TopTierQuest {
    /// `height` is the current block height; the credential named in the
    /// contract plays no part here.
    pub fn commit(&mut self, msg_src: ActorId, height: u64) -> (r: Result<(), QuestError>)
        ensures
            r == old(self)@.commit_result(msg_src, height, CredentialReply::Missing),
            final(self)@ == (if r is Ok {
                old(self)@.committed(msg_src)
            } else {
                old(self)@
            }),
    {
        if self.base.submissions.contains_key(&msg_src) {
            return Err(QuestError::AlreadyCommitted);
        }
        if height > self.application_deadline as u64 {
            return Err(QuestError::DeadlinePassed);
        }
        self.base.enter(msg_src);
        Ok(())
    }

    pub fn submit(&mut self, msg_src: ActorId, submission: Submission) -> (r: Result<(), QuestError>)
        ensures
            r == old(self)@.base.submit_result(msg_src),
            final(self)@ == (if r is Ok {
                old(self)@.with_base(old(self)@.base.submitted(msg_src, submission))
            } else {
                old(self)@
            }),
    {
        self.base.submit(msg_src, submission)
    }

    pub fn grade(
        &mut self,
        msg_src: ActorId,
        commiter: ActorId,
        submission: Submission,
        grading: Gradings,
    ) -> (r: Result<(), QuestError>)
        ensures
            r == old(self)@.base.grade_result(msg_src, commiter, submission@),
            final(self)@ == (if r is Ok {
                old(self)@.with_base(old(self)@.base.graded(commiter, grading))
            } else {
                old(self)@
            }),
    {
        self.base.grade(msg_src, commiter, submission, grading)
    }
}

/// Whether `who` appears in `list`.
pub fn list_contains(list: &Vec<ActorId>, who: &ActorId) -> (r: bool)
    ensures
        r == list@.contains(*who),
{
    let mut i: usize = 0;
    while i < list.len()
        invariant
            i <= list@.len(),
            forall|j: int| 0 <= j < i ==> list@[j] != *who,
        decreases list@.len() - i,
    {
        proof {
            lemma_actor_eq(list@[i as int], *who);
        }
        if list[i] == *who {
            return true;
        }
        i = i + 1;
    }
    false
}

impl DedicatedQuest {
    /// Only listed seekers may commit, unless the list is absent or empty;
    /// the height and the credential named in the contract play no part.
    pub fn commit(&mut self, msg_src: ActorId) -> (r: Result<(), QuestError>)
        ensures
            r == old(self)@.commit_result(msg_src, 0, CredentialReply::Missing),
            final(self)@ == (if r is Ok {
                old(self)@.committed(msg_src)
            } else {
                old(self)@
            }),
    {
        if self.base.submissions.contains_key(&msg_src) {
            return Err(QuestError::AlreadyCommitted);
        }
        match &self.dedicated_to {
            Some(list) => {
                if list.len() > 0 && !list_contains(list, &msg_src) {
                    return Err(QuestError::NotOnDedicationList);
                }
            },
            None => {},
        }
        self.base.enter(msg_src);
        Ok(())
    }

    pub fn submit(&mut self, msg_src: ActorId, submission: Submission) -> (r: Result<(), QuestError>)
        ensures
            r == old(self)@.base.submit_result(msg_src),
            final(self)@ == (if r is Ok {
                old(self)@.with_base(old(self)@.base.submitted(msg_src, submission))
            } else {
                old(self)@
            }),
    {
        self.base.submit(msg_src, submission)
    }

    pub fn grade(
        &mut self,
        msg_src: ActorId,
        commiter: ActorId,
        submission: Submission,
        grading: Gradings,
    ) -> (r: Result<(), QuestError>)
        ensures
            r == old(self)@.base.grade_result(msg_src, commiter, submission@),
            final(self)@ == (if r is Ok {
                old(self)@.with_base(old(self)@.base.graded(commiter, grading))
            } else {
                old(self)@
            }),
    {
        self.base.grade(msg_src, commiter, submission, grading)
    }
}

} // verus!
