use vstd::prelude::*;
use crate::actor::ActorId;

verus! {

/// The role an account is registered under.
#[derive(Clone, Copy, Debug, PartialEq, Eq, Structural)]
pub enum Roles {
    Seeker,
    Recruiter,
}

/// A skill badge shown on an account.
#[derive(Debug, PartialEq, Eq)]
pub struct Badges {
    pub name: String,
    pub id: String,
    /// At most 100.
    pub amount: u8,
}

/// Where a seeker stands on a quest, as the account registry records it.
#[derive(Clone, Copy, Debug, PartialEq, Eq, Structural)]
pub enum SeekerStatus {
    Claimed,
    Submitted,
    InterviewReceived,
    InterviewAccepted,
    OfferReceived,
    OfferAccepted,
    Enrolled,
    Rejected,
    Accepted,
    GenerallyGood,
    NeedsImprovements,
    Minted,
    /// No record for the quest.
    Unrecorded,
}

/// Where a recruiter stands on a quest.
#[derive(Clone, Copy, Debug, PartialEq, Eq, Structural)]
pub enum RecruiterStatus {
    Published,
    Completed,
}

#[derive(Clone, Copy, Debug, PartialEq, Eq, Structural)]
pub enum Status {
    Seeker(SeekerStatus),
    Recruiter(RecruiterStatus),
}

/// One registered account.
#[derive(Debug, PartialEq, Eq)]
pub struct Account {
    pub username: String,
    pub role: Roles,
    pub badges: Vec<Badges>,
    /// The quests the account claimed or published, with where it stands.
    pub quests: Vec<(String, Status)>,
    /// The quests the account shows off.
    pub quest_decks: Vec<(String, Status)>,
}

/// Why an account request was refused; a refusal changes nothing.
#[derive(Clone, Copy, Debug, PartialEq, Eq, Structural)]
pub enum AccountError {
    /// The registry holds as many accounts as it may.
    MaxLimitReached,
    AccountNotFound,
    /// Only seekers who have submitted can get an interview.
    NotSubmitted,
    /// Only seekers who accepted an interview can get an offer.
    NotInterviewAccepted,
    /// Only seekers who received an interview can accept one.
    NotInterviewReceived,
    /// Only seekers who received an offer can accept one.
    NotOfferReceived,
    /// Only seekers who submitted or accepted an interview can be rejected.
    NotRejectable,
}

/// A request to the account registry.
pub enum AccountAction {
    ChangeName { new_name: String },
    Login { role: Roles },
    Delete,
    SendInterview { quest_id: String, seeker_id: ActorId },
    SendOffer { quest_id: String, recruiter_id: ActorId, seeker_id: ActorId },
    AcceptInterview { quest_id: String, seeker_id: ActorId },
    AcceptOffer { quest_id: String, seeker_id: ActorId },
    RecruiterReject { quest_id: String, seeker_id: ActorId },
    PublishQuest { recruiter_id: ActorId, quest_id: String },
    /// A quest's news about one of its participants.
    RecordStatus { actor: ActorId, quest_id: String, status: Status },
}

/// The account registry's reply.
#[derive(Debug, PartialEq, Eq)]
pub enum AccountEvent {
    AccountExists { username: String },
    AccountCreated { account: ActorId, timestamp: u64 },
    NameChanged { account: ActorId, timestamp: u64 },
    AccountDeleted { account: ActorId, timestamp: u64 },
    InterviewReceived { quest_id: String, seeker_id: ActorId },
    OfferReceived { quest_id: String, recruiter_id: ActorId, seeker_id: ActorId },
    InterviewAccepted { quest_id: String, seeker_id: ActorId },
    OfferAccepted { quest_id: String, seeker_id: ActorId },
    Rejected { quest_id: String, seeker_id: ActorId },
    QuestPublished { recruiter_id: ActorId, quest_id: String, timestamp: u64 },
    StatusRecorded { actor: ActorId, quest_id: String },
    Failed { reason: AccountError },
}

} // verus!
