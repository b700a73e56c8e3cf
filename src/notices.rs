use vstd::prelude::*;
use crate::account_types::{SeekerStatus as AccountStatus, Status};
use crate::actor::ActorId;
use crate::model::QuestAction;
use crate::quest_types::{Gradings, QuestId};

verus! {

/// How the account registry records a verdict.
pub open spec fn graded_status(grading: Gradings) -> AccountStatus {
    match grading {
        Gradings::Accept => AccountStatus::Accepted,
        Gradings::Good => AccountStatus::GenerallyGood,
        Gradings::Reject => AccountStatus::NeedsImprovements,
    }
}

/// The status change a request reports to the account registry once it has
/// succeeded: whose status, on which quest, and the new status.
pub open spec fn notice(caller: ActorId, action: QuestAction) -> Option<(ActorId, Seq<char>, Status)> {
    match action {
        QuestAction::Commit { quest_id } => Some((caller, quest_id@, Status::Seeker(AccountStatus::Claimed))),
        QuestAction::Submit { quest_id, .. } => Some((caller, quest_id@, Status::Seeker(AccountStatus::Submitted))),
        QuestAction::Grade { quest_id, commiter, grading, .. } => Some(
            (commiter, quest_id@, Status::Seeker(graded_status(grading))),
        ),
        _ => None,
    }
}

/// The status change `action` reports to the account registry if it
/// succeeds.
pub fn status_notice(caller: ActorId, action: &QuestAction) -> (r: Option<(ActorId, QuestId, Status)>)
    ensures
        r is Some == notice(caller, *action) is Some,
        r matches Some((who, id, status)) ==> notice(caller, *action) == Some((who, id@, status)),
{
    match action {
        QuestAction::Commit { quest_id } => Some((caller, quest_id.clone(), Status::Seeker(AccountStatus::Claimed))),
        QuestAction::Submit { quest_id, .. } => Some(
            (caller, quest_id.clone(), Status::Seeker(AccountStatus::Submitted)),
        ),
        QuestAction::Grade { quest_id, commiter, grading, .. } => {
            let status = match grading {
                Gradings::Accept => AccountStatus::Accepted,
                Gradings::Good => AccountStatus::GenerallyGood,
                Gradings::Reject => AccountStatus::NeedsImprovements,
            };
            Some((*commiter, quest_id.clone(), Status::Seeker(status)))
        },
        _ => None,
    }
}

} // verus!
