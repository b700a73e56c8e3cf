use vstd::prelude::*;
use crate::actor::ActorId;

verus! {

/// Identifier of a published quest, issued by the registry.
pub type QuestId = String;

/// What a seeker hands in for a quest (a link to the deliverable).
pub type Submission = String;

/// Where one seeker stands on one quest: strictly Waiting, then Submitted,
/// then Graded.
#[derive(Debug, PartialEq, Eq)]
pub enum SeekerStatus {
    Waiting,
    Submitted(Submission),
    Graded(Gradings),
}

/// The verdict a provider gives a submission.
#[derive(Clone, Copy, Debug, PartialEq, Eq, Structural)]
pub enum Gradings {
    Accept,
    Good,
    Reject,
}

/// Skill tokens a quest may hand out as a reward.
#[derive(Clone, Copy, Debug, PartialEq, Eq, Structural)]
pub enum SkillToken {
    Unspecified,
    Python,
    Simulation,
}

/// Skill badges; a mid-tier quest asks its seekers to hold one.
#[derive(Clone, Copy, Debug, PartialEq, Eq, Structural)]
pub enum SkillNFT {
    Python,
    Simulation,
}

/// Reputation badges a quest may hand out as a reward.
#[derive(Clone, Copy, Debug, PartialEq, Eq, Structural)]
pub enum RepuNFT {
    Unspecified,
    CSHackathonWinner,
    ResearchCompetitionWinner,
    CSInternship,
}

/// Aggregate status of a quest.
#[derive(Clone, Copy, Debug, PartialEq, Eq, Structural)]
pub enum QuestStatus {
    Open,
    Full,
    Closed,
}

/// The eligibility tier a quest is published under.
#[derive(Clone, Copy, Debug, PartialEq, Eq, Structural)]
pub enum QuestType {
    BaseTier,
    MidTier,
    TopTier,
    Dedicated,
}

/// Why a request was refused. A refused request changes nothing.
#[derive(Clone, Copy, Debug, PartialEq, Eq, Structural)]
pub enum QuestError {
    /// The publisher is not on the approved-provider list.
    NotApproved,
    /// Only the registry's admin may do this.
    NotAdmin,
    /// The provider is already approved.
    AlreadyApproved,
    /// No quest has the given id.
    QuestNotFound,
    /// The quest is full.
    QuestNotOpen,
    /// The quest has been closed.
    QuestClosed,
    /// The quest was already closed.
    AlreadyClosed,
    /// The seeker has already committed to the quest.
    AlreadyCommitted,
    /// The seeker has not committed to the quest.
    NotCommitted,
    /// The seeker has already submitted.
    AlreadySubmitted,
    /// The seeker has committed but not submitted yet.
    NotSubmitted,
    /// The submission named in a grading is not the stored one.
    SubmissionMismatch,
    /// The submission has already been graded.
    AlreadyGraded,
    /// Only the quest's provider may do this.
    NotProvider,
    /// An application deadline is not in the future.
    DeadlinePassed,
    /// The seeker lacks the skill credential the quest asks for.
    MissingCredential,
    /// Free gradings are below the floor, or none are left.
    InsufficientFreeGradings,
    /// The seeker is not on the quest's dedication list.
    NotOnDedicationList,
    /// The quest has already been modified once.
    AlreadyModified,
    /// The quest has already been extended once.
    AlreadyExtended,
    /// A new deadline does not lie after the current one.
    InvalidDeadline,
    /// The reputation ledger did not answer.
    CollaboratorUnavailable,
    /// The freshly generated id is already taken.
    DuplicateQuestId,
    /// The id counter has reached its largest value.
    IdsExhausted,
}

/// The reputation ledger's answer to "consume this seeker's skill
/// credential", asked before a mid-tier commit.
#[derive(Clone, Copy, Debug, PartialEq, Eq, Structural)]
pub enum CredentialReply {
    Consumed,
    Missing,
    Unavailable,
}

/// Everything a provider states when publishing a quest; each tier reads
/// the fields it needs.
#[derive(Debug)]
pub struct IncomingQuest {
    pub institution_name: String,
    pub quest_name: String,
    pub description: String,
    pub deliverables: String,
    pub capacity: u32,
    pub skill_token_name: SkillToken,
    pub deadline: u64,
    pub open_try: bool,
    pub provider_name: String,
    pub contact_info: String,
    pub free_gradings: u8,
    pub hiring_for: String,
    pub skill_tags: SkillNFT,
    pub reputation_nft: RepuNFT,
    pub prize: String,
    pub application_deadline: u32,
    pub dedicated_to: Option<Vec<ActorId>>,
}

/// The display fields a provider may rewrite once.
#[derive(Debug)]
pub struct Modifiable {
    pub quest_name: String,
    pub description: String,
    pub deliverables: String,
    pub deadline: u64,
    pub contact_info: String,
}

} // verus!
