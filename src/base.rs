use vstd::prelude::*;
use crate::actor::ActorId;
use crate::actor_map::ActorMap;
use crate::quest_types::{Gradings, Modifiable, QuestError, SeekerStatus, SkillToken, Submission};

verus! {

/// The tier-independent part of a quest.
pub struct Base {
    pub institution_name: String,
    pub quest_name: String,
    pub description: String,
    pub deliverables: String,
    /// Slots still free; drops on each commit of a bounded quest and comes
    /// back when a commit is graded.
    pub capacity: u32,
    /// The capacity the quest was published with; 0 means unbounded.
    pub max_capacity: u32,
    pub skill_token_name: SkillToken,
    /// Deadline as a block height.
    pub deadline: u64,
    pub open_try: bool,
    pub provider: ActorId,
    pub provider_name: String,
    pub contact_info: String,
    pub submissions: ActorMap<SeekerStatus>,
    pub gradings: ActorMap<Option<Gradings>>,
    pub extended: bool,
    pub modified: bool,
}

/// The mathematical value of a [`Base`].
pub struct BaseView {
    pub institution_name: String,
    pub quest_name: String,
    pub description: String,
    pub deliverables: String,
    pub capacity: u32,
    pub max_capacity: u32,
    pub skill_token_name: SkillToken,
    pub deadline: u64,
    pub open_try: bool,
    pub provider: ActorId,
    pub provider_name: String,
    pub contact_info: String,
    pub submissions: Map<ActorId, SeekerStatus>,
    pub gradings: Map<ActorId, Option<Gradings>>,
    pub extended: bool,
    pub modified: bool,
}

impl View for Base {
    type V = BaseView;

    open spec fn view(&self) -> BaseView {
        BaseView {
            institution_name: self.institution_name,
            quest_name: self.quest_name,
            description: self.description,
            deliverables: self.deliverables,
            capacity: self.capacity,
            max_capacity: self.max_capacity,
            skill_token_name: self.skill_token_name,
            deadline: self.deadline,
            open_try: self.open_try,
            provider: self.provider,
            provider_name: self.provider_name,
            contact_info: self.contact_info,
            submissions: self.submissions@,
            gradings: self.gradings@,
            extended: self.extended,
            modified: self.modified,
        }
    }
}

impl BaseView {
    /// A bounded quest has a positive published capacity.
    pub open spec fn bounded(self) -> bool {
        self.max_capacity > 0
    }

    /// After `seeker` commits: a Waiting entry, an empty grading, and one
    /// slot fewer if the quest is bounded.
    pub open spec fn committed(self, seeker: ActorId) -> BaseView {
        BaseView {
            submissions: self.submissions.insert(seeker, SeekerStatus::Waiting),
            gradings: self.gradings.insert(seeker, None),
            capacity: if self.bounded() && self.capacity > 0 {
                (self.capacity - 1) as u32
            } else {
                self.capacity
            },
            ..self
        }
    }

    pub open spec fn submit_result(self, seeker: ActorId) -> Result<(), QuestError> {
        if !self.submissions.contains_key(seeker) {
            Err(QuestError::NotCommitted)
        } else if self.submissions[seeker] is Waiting {
            Ok(())
        } else {
            Err(QuestError::AlreadySubmitted)
        }
    }

    pub open spec fn submitted(self, seeker: ActorId, submission: Submission) -> BaseView {
        BaseView {
            submissions: self.submissions.insert(seeker, SeekerStatus::Submitted(submission)),
            ..self
        }
    }

    pub open spec fn grade_result(
        self,
        grader: ActorId,
        commiter: ActorId,
        submission: Seq<char>,
    ) -> Result<(), QuestError> {
        if grader != self.provider {
            Err(QuestError::NotProvider)
        } else if !self.submissions.contains_key(commiter) {
            Err(QuestError::NotCommitted)
        } else {
            match self.submissions[commiter] {
                SeekerStatus::Waiting => Err(QuestError::NotSubmitted),
                SeekerStatus::Submitted(s) => if s@ == submission {
                    Ok(())
                } else {
                    Err(QuestError::SubmissionMismatch)
                },
                SeekerStatus::Graded(_) => Err(QuestError::AlreadyGraded),
            }
        }
    }

    /// After grading: the verdict is recorded twice over, and a bounded
    /// quest gets the commiter's slot back.
    pub open spec fn graded(self, commiter: ActorId, grading: Gradings) -> BaseView {
        BaseView {
            submissions: self.submissions.insert(commiter, SeekerStatus::Graded(grading)),
            gradings: self.gradings.insert(commiter, Some(grading)),
            capacity: if self.bounded() && self.capacity < self.max_capacity {
                (self.capacity + 1) as u32
            } else {
                self.capacity
            },
            ..self
        }
    }

    pub open spec fn modify_result(self, caller: ActorId) -> Result<(), QuestError> {
        if caller != self.provider {
            Err(QuestError::NotProvider)
        } else if self.modified {
            Err(QuestError::AlreadyModified)
        } else {
            Ok(())
        }
    }

    /// The display fields rewritten, and the one-shot flag spent.
    pub open spec fn modified_with(self, fields: Modifiable) -> BaseView {
        BaseView {
            quest_name: fields.quest_name,
            description: fields.description,
            deliverables: fields.deliverables,
            deadline: fields.deadline,
            contact_info: fields.contact_info,
            modified: true,
            ..self
        }
    }

    pub open spec fn extend_result(self, caller: ActorId, new_deadline: u64) -> Result<(), QuestError> {
        if caller != self.provider {
            Err(QuestError::NotProvider)
        } else if self.extended {
            Err(QuestError::AlreadyExtended)
        } else if new_deadline <= self.deadline {
            Err(QuestError::InvalidDeadline)
        } else {
            Ok(())
        }
    }

    /// The deadline moved forward, and the one-shot flag spent.
    pub open spec fn extended_to(self, new_deadline: u64) -> BaseView {
        BaseView { deadline: new_deadline, extended: true, ..self }
    }
}

impl Base {
    /// Records a commit that the caller has already found admissible.
    pub fn enter(&mut self, seeker: ActorId)
        ensures
            final(self)@ == old(self)@.committed(seeker),
    {
        self.submissions.insert(seeker, SeekerStatus::Waiting);
        self.gradings.insert(seeker, None);
        if self.max_capacity > 0 && self.capacity > 0 {
            self.capacity = self.capacity - 1;
        }
    }

    pub fn submit(&mut self, msg_src: ActorId, submission: Submission) -> (r: Result<(), QuestError>)
        ensures
            r == old(self)@.submit_result(msg_src),
            final(self)@ == (if r is Ok {
                old(self)@.submitted(msg_src, submission)
            } else {
                old(self)@
            }),
    {
        match self.submissions.get(&msg_src) {
            None => {
                return Err(QuestError::NotCommitted);
            },
            Some(SeekerStatus::Waiting) => {},
            Some(_) => {
                return Err(QuestError::AlreadySubmitted);
            },
        }
        self.submissions.insert(msg_src, SeekerStatus::Submitted(submission));
        Ok(())
    }

    pub fn grade(
        &mut self,
        msg_src: ActorId,
        commiter: ActorId,
        submission: Submission,
        grading: Gradings,
    ) -> (r: Result<(), QuestError>)
        ensures
            r == old(self)@.grade_result(msg_src, commiter, submission@),
            final(self)@ == (if r is Ok {
                old(self)@.graded(commiter, grading)
            } else {
                old(self)@
            }),
    {
        if !(self.provider == msg_src) {
            proof {
                crate::actor::lemma_actor_eq(self.provider, msg_src);
            }
            return Err(QuestError::NotProvider);
        }
        proof {
            crate::actor::lemma_actor_eq(self.provider, msg_src);
        }
        match self.submissions.get(&commiter) {
            None => {
                return Err(QuestError::NotCommitted);
            },
            Some(SeekerStatus::Waiting) => {
                return Err(QuestError::NotSubmitted);
            },
            Some(SeekerStatus::Submitted(s)) => {
                if !(*s == submission) {
                    return Err(QuestError::SubmissionMismatch);
                }
            },
            Some(SeekerStatus::Graded(_)) => {
                return Err(QuestError::AlreadyGraded);
            },
        }
        self.gradings.insert(commiter, Some(grading));
        self.submissions.insert(commiter, SeekerStatus::Graded(grading));
        if self.max_capacity > 0 && self.capacity < self.max_capacity {
            self.capacity = self.capacity + 1;
        }
        Ok(())
    }

    pub fn modify(&mut self, msg_src: ActorId, fields: Modifiable) -> (r: Result<(), QuestError>)
        ensures
            r == old(self)@.modify_result(msg_src),
            final(self)@ == (if r is Ok {
                old(self)@.modified_with(fields)
            } else {
                old(self)@
            }),
    {
        proof {
            crate::actor::lemma_actor_eq(self.provider, msg_src);
        }
        if !(self.provider == msg_src) {
            return Err(QuestError::NotProvider);
        }
        if self.modified {
            return Err(QuestError::AlreadyModified);
        }
        let Modifiable { quest_name, description, deliverables, deadline, contact_info } = fields;
        self.quest_name = quest_name;
        self.description = description;
        self.deliverables = deliverables;
        self.deadline = deadline;
        self.contact_info = contact_info;
        self.modified = true;
        Ok(())
    }

    pub fn extend(&mut self, msg_src: ActorId, new_deadline: u64) -> (r: Result<(), QuestError>)
        ensures
            r == old(self)@.extend_result(msg_src, new_deadline),
            final(self)@ == (if r is Ok {
                old(self)@.extended_to(new_deadline)
            } else {
                old(self)@
            }),
    {
        proof {
            crate::actor::lemma_actor_eq(self.provider, msg_src);
        }
        if !(self.provider == msg_src) {
            return Err(QuestError::NotProvider);
        }
        if self.extended {
            return Err(QuestError::AlreadyExtended);
        }
        if new_deadline <= self.deadline {
            return Err(QuestError::InvalidDeadline);
        }
        self.deadline = new_deadline;
        self.extended = true;
        Ok(())
    }
}

} // verus!
