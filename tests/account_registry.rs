use quest_harbor::account_types::{
    AccountAction, AccountError, AccountEvent, RecruiterStatus, Roles, SeekerStatus, Status,
};
use quest_harbor::accounts::Accounts;
use quest_harbor::actor::ActorId;

const SELF_ID: u64 = 2;
const QUEST: &str = "01234567890123456789";

fn actor(n: u64) -> ActorId {
    ActorId::from_u64(n)
}

fn registry() -> Accounts {
    Accounts::new(actor(1), 10000)
}

fn login(a: &mut Accounts, who: u64, role: Roles) -> AccountEvent {
    a.handle(actor(who), 5, AccountAction::Login { role })
}

fn record(a: &mut Accounts, who: u64, status: SeekerStatus) -> AccountEvent {
    a.handle(
        actor(who),
        6,
        AccountAction::RecordStatus { actor: actor(who), quest_id: String::from(QUEST), status: Status::Seeker(status) },
    )
}

#[test]
fn new_user_login_success() {
    let mut a = registry();
    assert_eq!(
        login(&mut a, SELF_ID, Roles::Seeker),
        AccountEvent::AccountCreated { account: actor(SELF_ID), timestamp: 5 }
    );
    assert!(a.is_exists(actor(SELF_ID), Roles::Seeker));
    assert!(!a.is_exists(actor(SELF_ID), Roles::Recruiter));
    assert_eq!(a.num_counter, 1);
}

#[test]
fn existing_user_login_success() {
    let mut a = registry();
    login(&mut a, SELF_ID, Roles::Seeker);
    assert_eq!(
        login(&mut a, SELF_ID, Roles::Seeker),
        AccountEvent::AccountExists { username: String::new() }
    );
    assert_eq!(a.num_counter, 1);
}

#[test]
fn publish_success() {
    let mut a = registry();
    login(&mut a, SELF_ID, Roles::Recruiter);
    let res = a.handle(
        actor(SELF_ID),
        9,
        AccountAction::PublishQuest { recruiter_id: actor(SELF_ID), quest_id: String::from(QUEST) },
    );
    assert_eq!(
        res,
        AccountEvent::QuestPublished { recruiter_id: actor(SELF_ID), quest_id: String::from(QUEST), timestamp: 9 }
    );
    assert_eq!(
        a.get_status(actor(SELF_ID), &String::from(QUEST)),
        Status::Recruiter(RecruiterStatus::Published)
    );
}

#[test]
fn basic_functionality_test_claim_success() {
    let mut a = registry();
    login(&mut a, SELF_ID, Roles::Seeker);
    assert_eq!(
        record(&mut a, SELF_ID, SeekerStatus::Claimed),
        AccountEvent::StatusRecorded { actor: actor(SELF_ID), quest_id: String::from(QUEST) }
    );
    assert_eq!(a.get_status(actor(SELF_ID), &String::from(QUEST)), Status::Seeker(SeekerStatus::Claimed));
}

#[test]
fn submit_success() {
    let mut a = registry();
    login(&mut a, SELF_ID, Roles::Seeker);
    record(&mut a, SELF_ID, SeekerStatus::Claimed);
    record(&mut a, SELF_ID, SeekerStatus::Submitted);
    assert_eq!(a.get_status(actor(SELF_ID), &String::from(QUEST)), Status::Seeker(SeekerStatus::Submitted));
    assert_eq!(a.accounts.get(&actor(SELF_ID)).unwrap().quests.len(), 1);
}

#[test]
fn grade_success() {
    let mut a = registry();
    login(&mut a, SELF_ID, Roles::Seeker);
    record(&mut a, SELF_ID, SeekerStatus::Submitted);
    record(&mut a, SELF_ID, SeekerStatus::Accepted);
    assert_eq!(a.get_status(actor(SELF_ID), &String::from(QUEST)), Status::Seeker(SeekerStatus::Accepted));
}

#[test]
fn interview_and_offer_flow() {
    let mut a = registry();
    let seeker = actor(SELF_ID);
    let quest = String::from(QUEST);
    login(&mut a, SELF_ID, Roles::Seeker);
    record(&mut a, SELF_ID, SeekerStatus::Claimed);
    assert_eq!(
        a.handle(actor(7), 1, AccountAction::SendInterview { quest_id: quest.clone(), seeker_id: seeker }),
        AccountEvent::Failed { reason: AccountError::NotSubmitted }
    );
    record(&mut a, SELF_ID, SeekerStatus::Submitted);
    assert_eq!(
        a.handle(actor(7), 1, AccountAction::SendInterview { quest_id: quest.clone(), seeker_id: seeker }),
        AccountEvent::InterviewReceived { quest_id: quest.clone(), seeker_id: seeker }
    );
    assert_eq!(
        a.handle(actor(7), 1, AccountAction::SendOffer { quest_id: quest.clone(), recruiter_id: actor(7), seeker_id: seeker }),
        AccountEvent::Failed { reason: AccountError::NotInterviewAccepted }
    );
    assert_eq!(
        a.handle(seeker, 1, AccountAction::AcceptInterview { quest_id: quest.clone(), seeker_id: seeker }),
        AccountEvent::InterviewAccepted { quest_id: quest.clone(), seeker_id: seeker }
    );
    assert_eq!(
        a.handle(seeker, 1, AccountAction::AcceptOffer { quest_id: quest.clone(), seeker_id: seeker }),
        AccountEvent::Failed { reason: AccountError::NotOfferReceived }
    );
    assert_eq!(
        a.handle(actor(7), 1, AccountAction::SendOffer { quest_id: quest.clone(), recruiter_id: actor(7), seeker_id: seeker }),
        AccountEvent::OfferReceived { quest_id: quest.clone(), recruiter_id: actor(7), seeker_id: seeker }
    );
    assert_eq!(
        a.handle(seeker, 1, AccountAction::AcceptOffer { quest_id: quest.clone(), seeker_id: seeker }),
        AccountEvent::OfferAccepted { quest_id: quest.clone(), seeker_id: seeker }
    );
    assert_eq!(a.get_status(seeker, &quest), Status::Seeker(SeekerStatus::OfferAccepted));
    assert_eq!(
        a.handle(seeker, 1, AccountAction::AcceptInterview { quest_id: quest.clone(), seeker_id: seeker }),
        AccountEvent::Failed { reason: AccountError::NotInterviewReceived }
    );
}

#[test]
fn recruiter_rejects_submitted_seeker() {
    let mut a = registry();
    let seeker = actor(SELF_ID);
    let quest = String::from(QUEST);
    login(&mut a, SELF_ID, Roles::Seeker);
    assert_eq!(
        a.handle(actor(7), 1, AccountAction::RecruiterReject { quest_id: quest.clone(), seeker_id: seeker }),
        AccountEvent::Failed { reason: AccountError::NotRejectable }
    );
    record(&mut a, SELF_ID, SeekerStatus::Submitted);
    assert_eq!(
        a.handle(actor(7), 1, AccountAction::RecruiterReject { quest_id: quest.clone(), seeker_id: seeker }),
        AccountEvent::Rejected { quest_id: quest.clone(), seeker_id: seeker }
    );
    assert_eq!(a.get_status(seeker, &quest), Status::Seeker(SeekerStatus::Rejected));
    assert_eq!(a.get_status(seeker, &String::from("other")), Status::Seeker(SeekerStatus::Unrecorded));
}

#[test]
fn change_name_and_delete() {
    let mut a = registry();
    assert_eq!(
        a.handle(actor(SELF_ID), 3, AccountAction::ChangeName { new_name: String::from("alice") }),
        AccountEvent::Failed { reason: AccountError::AccountNotFound }
    );
    login(&mut a, SELF_ID, Roles::Seeker);
    assert_eq!(
        a.handle(actor(SELF_ID), 3, AccountAction::ChangeName { new_name: String::from("alice") }),
        AccountEvent::NameChanged { account: actor(SELF_ID), timestamp: 3 }
    );
    assert_eq!(
        login(&mut a, SELF_ID, Roles::Seeker),
        AccountEvent::AccountExists { username: String::from("alice") }
    );
    assert_eq!(
        a.handle(actor(SELF_ID), 4, AccountAction::Delete),
        AccountEvent::AccountDeleted { account: actor(SELF_ID), timestamp: 4 }
    );
    assert_eq!(a.num_counter, 0);
    assert_eq!(
        a.handle(actor(SELF_ID), 4, AccountAction::Delete),
        AccountEvent::Failed { reason: AccountError::AccountNotFound }
    );
}

#[test]
fn account_capacity_is_enforced() {
    let mut a = Accounts::new(actor(1), 1);
    assert!(a.check_capacity());
    login(&mut a, 10, Roles::Seeker);
    assert!(!a.check_capacity());
    assert_eq!(
        login(&mut a, 11, Roles::Recruiter),
        AccountEvent::Failed { reason: AccountError::MaxLimitReached }
    );
}
