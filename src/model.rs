use vstd::prelude::*;
use crate::actor::ActorId;
use crate::quest_id::decimal;
use crate::quest_types::{
    CredentialReply, Gradings, IncomingQuest, Modifiable, QuestError, QuestStatus, QuestType,
    Submission,
};
use crate::quest::incoming_quest;
use crate::tiers::QuestView;

verus! {

/// A published quest together with its aggregate status.
pub struct RecordView {
    pub quest: QuestView,
    pub status: QuestStatus,
}

/// The mathematical value of the quest registry.
pub struct QuestsView {
    pub admin: ActorId,
    pub approved_providers: Seq<ActorId>,
    pub minimum_free_gradings: u8,
    /// The counter the next quest id is rendered from.
    pub next_id: u64,
    pub quests: Map<Seq<char>, RecordView>,
}

/// A request to the registry; the sender and the block height come with it.
pub enum QuestAction {
    Publish { quest_type: QuestType, quest_info: IncomingQuest },
    Commit { quest_id: String },
    Submit { quest_id: String, submission: Submission },
    Grade { quest_id: String, commiter: ActorId, submission: Submission, grading: Gradings },
    Modify { quest_id: String, base_info: Modifiable },
    Extend { quest_id: String, new_deadline: u64 },
    Close { quest_id: String },
    AddProvider { provider: ActorId },
}

/// The registry's reply to one request.
#[derive(Debug, PartialEq, Eq)]
pub enum QuestEvent {
    Published { quest_id: String },
    Committed,
    Submitted,
    Graded,
    Modified,
    Extended,
    Closed,
    ProviderAdded,
    Rejected { reason: QuestError },
}

/// The mathematical value of a [`QuestEvent`].
pub enum EventView {
    Published(Seq<char>),
    Committed,
    Submitted,
    Graded,
    Modified,
    Extended,
    Closed,
    ProviderAdded,
    Rejected(QuestError),
}

impl View for QuestEvent {
    type V = EventView;

    open spec fn view(&self) -> EventView {
        match self {
            QuestEvent::Published { quest_id } => EventView::Published(quest_id@),
            QuestEvent::Committed => EventView::Committed,
            QuestEvent::Submitted => EventView::Submitted,
            QuestEvent::Graded => EventView::Graded,
            QuestEvent::Modified => EventView::Modified,
            QuestEvent::Extended => EventView::Extended,
            QuestEvent::Closed => EventView::Closed,
            QuestEvent::ProviderAdded => EventView::ProviderAdded,
            QuestEvent::Rejected { reason } => EventView::Rejected(*reason),
        }
    }
}

pub open spec fn reply(r: Result<(), QuestError>, ok: EventView) -> EventView {
    match r {
        Ok(_) => ok,
        Err(e) => EventView::Rejected(e),
    }
}

/// Status of a quest that has just taken a commit: a bounded quest with no
/// free slot left is Full.
pub open spec fn status_after_commit(q: QuestView) -> QuestStatus {
    if q.base.bounded() && q.base.capacity == 0 {
        QuestStatus::Full
    } else {
        QuestStatus::Open
    }
}

/// Status of a quest that has just graded a commit: a Full quest that got a
/// slot back is Open again.
pub open spec fn status_after_grade(old_status: QuestStatus, q: QuestView) -> QuestStatus {
    if old_status == QuestStatus::Full && q.base.capacity > 0 {
        QuestStatus::Open
    } else {
        old_status
    }
}

impl QuestsView {
    /// The registry's invariant: capacity and status are coupled, and every
    /// quest id was issued from an earlier value of the id counter.
    pub open spec fn inv(self) -> bool {
        self.coupled() && self.ids_issued()
    }

    /// Every quest id is the decimal rendering of a counter value below the
    /// current one.
    pub open spec fn ids_issued(self) -> bool {
        forall|id: Seq<char>| #[trigger]
            self.quests.contains_key(id) ==> exists|k: nat| k < self.next_id && #[trigger] decimal(k) == id
    }

    /// Outside Closed, a quest is Full exactly when it is bounded and has no
    /// free slot, and no quest has more free slots than it was published
    /// with.
    pub open spec fn coupled(self) -> bool {
        forall|id: Seq<char>| #[trigger]
            self.quests.contains_key(id) ==> {
                let r = self.quests[id];
                &&& r.quest.base.capacity <= r.quest.base.max_capacity
                &&& r.status != QuestStatus::Closed ==> (r.status == QuestStatus::Full <==> (
                r.quest.base.bounded() && r.quest.base.capacity == 0))
            }
    }

    pub open spec fn with_record(self, id: Seq<char>, r: RecordView) -> QuestsView {
        QuestsView { quests: self.quests.insert(id, r), ..self }
    }

    pub open spec fn publish(
        self,
        caller: ActorId,
        quest_type: QuestType,
        info: IncomingQuest,
        height: u64,
    ) -> (QuestsView, Result<Seq<char>, QuestError>) {
        if !self.approved_providers.contains(caller) {
            (self, Err(QuestError::NotApproved))
        } else if (quest_type == QuestType::BaseTier || quest_type == QuestType::MidTier)
            && info.free_gradings < self.minimum_free_gradings {
            (self, Err(QuestError::InsufficientFreeGradings))
        } else if quest_type == QuestType::TopTier && info.application_deadline as u64 <= height {
            (self, Err(QuestError::DeadlinePassed))
        } else if self.next_id == u64::MAX {
            (self, Err(QuestError::IdsExhausted))
        } else {
            let id = decimal(self.next_id as nat);
            let next = QuestsView { next_id: (self.next_id + 1) as u64, ..self };
            if self.quests.contains_key(id) {
                (next, Err(QuestError::DuplicateQuestId))
            } else {
                (
                    next.with_record(
                        id,
                        RecordView {
                            quest: incoming_quest(quest_type, info, caller),
                            status: QuestStatus::Open,
                        },
                    ),
                    Ok(id),
                )
            }
        }
    }

    pub open spec fn commit(
        self,
        caller: ActorId,
        id: Seq<char>,
        height: u64,
        credential: CredentialReply,
    ) -> (QuestsView, Result<(), QuestError>) {
        if !self.quests.contains_key(id) {
            (self, Err(QuestError::QuestNotFound))
        } else {
            let r = self.quests[id];
            if r.status == QuestStatus::Closed {
                (self, Err(QuestError::QuestClosed))
            } else if r.status == QuestStatus::Full {
                (self, Err(QuestError::QuestNotOpen))
            } else {
                match r.quest.commit_result(caller, height, credential) {
                    Err(e) => (self, Err(e)),
                    Ok(_) => {
                        let q = r.quest.committed(caller);
                        (self.with_record(id, RecordView { quest: q, status: status_after_commit(q) }), Ok(()))
                    },
                }
            }
        }
    }

    pub open spec fn submit(self, caller: ActorId, id: Seq<char>, submission: Submission) -> (
        QuestsView,
        Result<(), QuestError>,
    ) {
        if !self.quests.contains_key(id) {
            (self, Err(QuestError::QuestNotFound))
        } else {
            let r = self.quests[id];
            match r.quest.base.submit_result(caller) {
                Err(e) => (self, Err(e)),
                Ok(_) => (
                    self.with_record(
                        id,
                        RecordView {
                            quest: r.quest.with_base(r.quest.base.submitted(caller, submission)),
                            ..r
                        },
                    ),
                    Ok(()),
                ),
            }
        }
    }

    pub open spec fn grade(
        self,
        caller: ActorId,
        id: Seq<char>,
        commiter: ActorId,
        submission: Seq<char>,
        grading: Gradings,
    ) -> (QuestsView, Result<(), QuestError>) {
        if !self.quests.contains_key(id) {
            (self, Err(QuestError::QuestNotFound))
        } else {
            let r = self.quests[id];
            match r.quest.base.grade_result(caller, commiter, submission) {
                Err(e) => (self, Err(e)),
                Ok(_) => {
                    let q = r.quest.with_base(r.quest.base.graded(commiter, grading));
                    (self.with_record(id, RecordView { quest: q, status: status_after_grade(r.status, q) }), Ok(()))
                },
            }
        }
    }

    pub open spec fn modify(self, caller: ActorId, id: Seq<char>, fields: Modifiable) -> (
        QuestsView,
        Result<(), QuestError>,
    ) {
        if !self.quests.contains_key(id) {
            (self, Err(QuestError::QuestNotFound))
        } else {
            let r = self.quests[id];
            match r.quest.base.modify_result(caller) {
                Err(e) => (self, Err(e)),
                Ok(_) => (
                    self.with_record(
                        id,
                        RecordView { quest: r.quest.with_base(r.quest.base.modified_with(fields)), ..r },
                    ),
                    Ok(()),
                ),
            }
        }
    }

    pub open spec fn extend(self, caller: ActorId, id: Seq<char>, new_deadline: u64) -> (
        QuestsView,
        Result<(), QuestError>,
    ) {
        if !self.quests.contains_key(id) {
            (self, Err(QuestError::QuestNotFound))
        } else {
            let r = self.quests[id];
            match r.quest.base.extend_result(caller, new_deadline) {
                Err(e) => (self, Err(e)),
                Ok(_) => (
                    self.with_record(
                        id,
                        RecordView { quest: r.quest.with_base(r.quest.base.extended_to(new_deadline)), ..r },
                    ),
                    Ok(()),
                ),
            }
        }
    }

    /// Closing is checked in order: the quest exists, is not closed yet, and
    /// the caller is its provider.
    pub open spec fn close(self, caller: ActorId, id: Seq<char>) -> (QuestsView, Result<(), QuestError>) {
        if !self.quests.contains_key(id) {
            (self, Err(QuestError::QuestNotFound))
        } else {
            let r = self.quests[id];
            if r.status == QuestStatus::Closed {
                (self, Err(QuestError::AlreadyClosed))
            } else if caller != r.quest.base.provider {
                (self, Err(QuestError::NotProvider))
            } else {
                (self.with_record(id, RecordView { status: QuestStatus::Closed, ..r }), Ok(()))
            }
        }
    }

    pub open spec fn add_provider(self, caller: ActorId, provider: ActorId) -> (QuestsView, Result<(), QuestError>) {
        if caller != self.admin {
            (self, Err(QuestError::NotAdmin))
        } else if self.approved_providers.contains(provider) {
            (self, Err(QuestError::AlreadyApproved))
        } else {
            (QuestsView { approved_providers: self.approved_providers.push(provider), ..self }, Ok(()))
        }
    }

    /// One request handled: the new registry and the reply.
    pub open spec fn step(
        self,
        caller: ActorId,
        height: u64,
        credential: CredentialReply,
        action: QuestAction,
    ) -> (QuestsView, EventView) {
        match action {
            QuestAction::Publish { quest_type, quest_info } => {
                let p = self.publish(caller, quest_type, quest_info, height);
                (p.0, match p.1 {
                    Ok(id) => EventView::Published(id),
                    Err(e) => EventView::Rejected(e),
                })
            },
            QuestAction::Commit { quest_id } => {
                let p = self.commit(caller, quest_id@, height, credential);
                (p.0, reply(p.1, EventView::Committed))
            },
            QuestAction::Submit { quest_id, submission } => {
                let p = self.submit(caller, quest_id@, submission);
                (p.0, reply(p.1, EventView::Submitted))
            },
            QuestAction::Grade { quest_id, commiter, submission, grading } => {
                let p = self.grade(caller, quest_id@, commiter, submission@, grading);
                (p.0, reply(p.1, EventView::Graded))
            },
            QuestAction::Modify { quest_id, base_info } => {
                let p = self.modify(caller, quest_id@, base_info);
                (p.0, reply(p.1, EventView::Modified))
            },
            QuestAction::Extend { quest_id, new_deadline } => {
                let p = self.extend(caller, quest_id@, new_deadline);
                (p.0, reply(p.1, EventView::Extended))
            },
            QuestAction::Close { quest_id } => {
                let p = self.close(caller, quest_id@);
                (p.0, reply(p.1, EventView::Closed))
            },
            QuestAction::AddProvider { provider } => {
                let p = self.add_provider(caller, provider);
                (p.0, reply(p.1, EventView::ProviderAdded))
            },
        }
    }
}

} // verus!
