use quest_harbor::account_types::{SeekerStatus as AccountStatus, Status};
use quest_harbor::actor::ActorId;
use quest_harbor::notices::status_notice;
use quest_harbor::model::{QuestAction, QuestEvent};
use quest_harbor::quest_id::quest_id_gen;
use quest_harbor::quest_types::{
    CredentialReply, Gradings, IncomingQuest, Modifiable, QuestError, QuestStatus, QuestType,
    RepuNFT, SeekerStatus, SkillNFT, SkillToken,
};
use quest_harbor::quests::{get_quest_by_id, Quests};

const ADMIN: u64 = 1;
const PROVIDER: u64 = 2;
const SEEKER_A: u64 = 10;
const SEEKER_B: u64 = 11;
const SEEKER_C: u64 = 12;

fn actor(n: u64) -> ActorId {
    ActorId::from_u64(n)
}

fn registry(minimum_free_gradings: u8) -> Quests {
    Quests::new(actor(ADMIN), vec![actor(PROVIDER)], minimum_free_gradings)
}

fn info(capacity: u32, free_gradings: u8) -> IncomingQuest {
    IncomingQuest {
        institution_name: String::from("Uni"),
        quest_name: String::from("Sorting"),
        description: String::from("Sort a list"),
        deliverables: String::from("A link"),
        capacity,
        skill_token_name: SkillToken::Python,
        deadline: 1000,
        open_try: true,
        provider_name: String::from("Prof"),
        contact_info: String::from("prof@uni"),
        free_gradings,
        hiring_for: String::from("Internship"),
        skill_tags: SkillNFT::Python,
        reputation_nft: RepuNFT::CSInternship,
        prize: String::from("Fame"),
        application_deadline: 50,
        dedicated_to: None,
    }
}

fn publish(q: &mut Quests, tier: QuestType, incoming: IncomingQuest) -> String {
    q.publish(actor(PROVIDER), tier, incoming, 10).expect("publish succeeds")
}

fn modifiable(deadline: u64) -> Modifiable {
    Modifiable {
        quest_name: String::from("Sorting II"),
        description: String::from("Sort two lists"),
        deliverables: String::from("Two links"),
        deadline,
        contact_info: String::from("ta@uni"),
    }
}

#[test]
fn quest_basic_function_test_claim_success() {
    let mut q = registry(0);
    let id = publish(&mut q, QuestType::BaseTier, info(5, 1));
    assert_eq!(q.commit(actor(SEEKER_A), &id, 10, CredentialReply::Missing), Ok(()));
    assert_eq!(q.seeker_status(&id, &actor(SEEKER_A)), Some(&SeekerStatus::Waiting));
}

#[test]
fn claim_fail_double_claim() {
    let mut q = registry(0);
    let id = publish(&mut q, QuestType::BaseTier, info(5, 1));
    assert_eq!(q.commit(actor(SEEKER_A), &id, 10, CredentialReply::Missing), Ok(()));
    assert_eq!(
        q.commit(actor(SEEKER_A), &id, 10, CredentialReply::Missing),
        Err(QuestError::AlreadyCommitted)
    );
    assert_eq!(q.seeker_status(&id, &actor(SEEKER_A)), Some(&SeekerStatus::Waiting));
}

#[test]
fn claim_fail_non_exist_quest() {
    let mut q = registry(0);
    publish(&mut q, QuestType::BaseTier, info(5, 1));
    let missing = String::from("a non exists quest id");
    assert_eq!(
        q.commit(actor(SEEKER_A), &missing, 10, CredentialReply::Missing),
        Err(QuestError::QuestNotFound)
    );
}

#[test]
fn base_tier_fills_and_reopens_after_grading() {
    let mut q = registry(3);
    let id = publish(&mut q, QuestType::BaseTier, info(1, 5));
    assert_eq!(q.quest_status(&id), Some(QuestStatus::Open));
    assert_eq!(q.commit(actor(SEEKER_A), &id, 10, CredentialReply::Missing), Ok(()));
    assert_eq!(q.quest_status(&id), Some(QuestStatus::Full));
    assert_eq!(
        q.commit(actor(SEEKER_B), &id, 10, CredentialReply::Missing),
        Err(QuestError::QuestNotOpen)
    );
    assert_eq!(q.submit(actor(SEEKER_A), &id, String::from("proof-link")), Ok(()));
    assert_eq!(
        q.grade(actor(PROVIDER), &id, actor(SEEKER_A), String::from("proof-link"), Gradings::Accept),
        Ok(())
    );
    assert_eq!(q.quest_status(&id), Some(QuestStatus::Open));
    assert_eq!(
        q.seeker_status(&id, &actor(SEEKER_A)),
        Some(&SeekerStatus::Graded(Gradings::Accept))
    );
    assert_eq!(q.get_quest(&id).unwrap().base().capacity, 1);
}

#[test]
fn top_tier_publish_with_past_application_deadline_fails() {
    let mut q = registry(0);
    let mut incoming = info(3, 1);
    incoming.application_deadline = 99;
    assert_eq!(
        q.publish(actor(PROVIDER), QuestType::TopTier, incoming, 100),
        Err(QuestError::DeadlinePassed)
    );
    assert_eq!(q.len(), 0);
}

#[test]
fn top_tier_publish_at_current_height_fails() {
    let mut q = registry(0);
    let mut incoming = info(3, 1);
    incoming.application_deadline = 100;
    assert_eq!(
        q.publish(actor(PROVIDER), QuestType::TopTier, incoming, 100),
        Err(QuestError::DeadlinePassed)
    );
}

#[test]
fn top_tier_commit_closes_after_application_deadline() {
    let mut q = registry(0);
    let id = publish(&mut q, QuestType::TopTier, info(3, 1));
    assert_eq!(q.commit(actor(SEEKER_A), &id, 50, CredentialReply::Missing), Ok(()));
    assert_eq!(
        q.commit(actor(SEEKER_B), &id, 51, CredentialReply::Missing),
        Err(QuestError::DeadlinePassed)
    );
    assert_eq!(q.get_quest(&id).unwrap().base().capacity, 2);
}

#[test]
fn dedicated_quest_admits_only_listed_seekers() {
    let mut q = registry(0);
    let mut incoming = info(0, 0);
    incoming.dedicated_to = Some(vec![actor(SEEKER_A)]);
    let id = publish(&mut q, QuestType::Dedicated, incoming);
    assert_eq!(
        q.commit(actor(SEEKER_B), &id, 10, CredentialReply::Missing),
        Err(QuestError::NotOnDedicationList)
    );
    assert_eq!(q.commit(actor(SEEKER_A), &id, 10, CredentialReply::Missing), Ok(()));
}

#[test]
fn dedicated_quest_with_empty_list_admits_anyone() {
    let mut q = registry(0);
    let mut incoming = info(0, 0);
    incoming.dedicated_to = Some(vec![]);
    let id = publish(&mut q, QuestType::Dedicated, incoming);
    assert_eq!(q.commit(actor(SEEKER_B), &id, 10, CredentialReply::Missing), Ok(()));
    assert_eq!(q.quest_status(&id), Some(QuestStatus::Open));
}

#[test]
fn unbounded_quest_never_fills() {
    let mut q = registry(0);
    let id = publish(&mut q, QuestType::BaseTier, info(0, 0));
    for n in 20..30 {
        assert_eq!(q.commit(actor(n), &id, 10, CredentialReply::Missing), Ok(()));
    }
    assert_eq!(q.quest_status(&id), Some(QuestStatus::Open));
    assert_eq!(q.get_quest(&id).unwrap().base().capacity, 0);
}

#[test]
fn publish_issues_distinct_ids() {
    let mut q = registry(0);
    let first = publish(&mut q, QuestType::BaseTier, info(1, 1));
    let second = publish(&mut q, QuestType::Dedicated, info(1, 1));
    let third = publish(&mut q, QuestType::TopTier, info(1, 1));
    assert_eq!(first, "1");
    assert_eq!(second, "2");
    assert_eq!(third, "3");
    assert_eq!(q.len(), 3);
    assert_eq!(q.get_quest(&second).unwrap().quest_type(), QuestType::Dedicated);
}

#[test]
fn quest_id_is_decimal_counter() {
    assert_eq!(quest_id_gen(0), "0");
    assert_eq!(quest_id_gen(7), "7");
    assert_eq!(quest_id_gen(10), "10");
    assert_eq!(quest_id_gen(1234567), "1234567");
    assert_eq!(quest_id_gen(u64::MAX), "18446744073709551615");
}

#[test]
fn publish_by_unapproved_sender_fails() {
    let mut q = registry(0);
    assert_eq!(
        q.publish(actor(SEEKER_A), QuestType::BaseTier, info(1, 1), 10),
        Err(QuestError::NotApproved)
    );
    assert_eq!(q.len(), 0);
}

#[test]
fn publish_below_free_grading_floor_fails() {
    let mut q = registry(3);
    assert_eq!(
        q.publish(actor(PROVIDER), QuestType::BaseTier, info(1, 2), 10),
        Err(QuestError::InsufficientFreeGradings)
    );
    assert_eq!(
        q.publish(actor(PROVIDER), QuestType::MidTier, info(1, 2), 10),
        Err(QuestError::InsufficientFreeGradings)
    );
    assert!(q.publish(actor(PROVIDER), QuestType::Dedicated, info(1, 2), 10).is_ok());
}

#[test]
fn seeker_moves_forward_only() {
    let mut q = registry(0);
    let id = publish(&mut q, QuestType::BaseTier, info(3, 1));
    let a = actor(SEEKER_A);
    assert_eq!(q.submit(a, &id, String::from("early")), Err(QuestError::NotCommitted));
    assert_eq!(
        q.grade(actor(PROVIDER), &id, a, String::from("early"), Gradings::Good),
        Err(QuestError::NotCommitted)
    );
    assert_eq!(q.commit(a, &id, 10, CredentialReply::Missing), Ok(()));
    assert_eq!(
        q.grade(actor(PROVIDER), &id, a, String::from("x"), Gradings::Good),
        Err(QuestError::NotSubmitted)
    );
    assert_eq!(q.submit(a, &id, String::from("link-1")), Ok(()));
    assert_eq!(q.submit(a, &id, String::from("link-2")), Err(QuestError::AlreadySubmitted));
    assert_eq!(
        q.seeker_status(&id, &a),
        Some(&SeekerStatus::Submitted(String::from("link-1")))
    );
    assert_eq!(
        q.grade(actor(PROVIDER), &id, a, String::from("link-2"), Gradings::Good),
        Err(QuestError::SubmissionMismatch)
    );
    assert_eq!(
        q.grade(actor(SEEKER_B), &id, a, String::from("link-1"), Gradings::Good),
        Err(QuestError::NotProvider)
    );
    assert_eq!(
        q.grade(actor(PROVIDER), &id, a, String::from("link-1"), Gradings::Reject),
        Ok(())
    );
    assert_eq!(
        q.grade(actor(PROVIDER), &id, a, String::from("link-1"), Gradings::Accept),
        Err(QuestError::AlreadyGraded)
    );
    assert_eq!(q.submit(a, &id, String::from("late")), Err(QuestError::AlreadySubmitted));
    assert_eq!(q.seeker_status(&id, &a), Some(&SeekerStatus::Graded(Gradings::Reject)));
    assert_eq!(
        q.get_quest(&id).unwrap().base().gradings.get(&a),
        Some(&Some(Gradings::Reject))
    );
}

#[test]
fn capacity_commits_fill_then_grading_reopens() {
    let mut q = registry(0);
    let id = publish(&mut q, QuestType::BaseTier, info(2, 1));
    assert_eq!(q.commit(actor(SEEKER_A), &id, 10, CredentialReply::Missing), Ok(()));
    assert_eq!(q.quest_status(&id), Some(QuestStatus::Open));
    assert_eq!(q.commit(actor(SEEKER_B), &id, 10, CredentialReply::Missing), Ok(()));
    assert_eq!(q.quest_status(&id), Some(QuestStatus::Full));
    assert_eq!(q.get_quest(&id).unwrap().base().capacity, 0);
    assert_eq!(q.submit(actor(SEEKER_B), &id, String::from("b")), Ok(()));
    assert_eq!(
        q.grade(actor(PROVIDER), &id, actor(SEEKER_B), String::from("b"), Gradings::Good),
        Ok(())
    );
    assert_eq!(q.quest_status(&id), Some(QuestStatus::Open));
    assert_eq!(q.commit(actor(SEEKER_C), &id, 10, CredentialReply::Missing), Ok(()));
    assert_eq!(q.quest_status(&id), Some(QuestStatus::Full));
}

#[test]
fn closed_quest_stays_closed() {
    let mut q = registry(0);
    let id = publish(&mut q, QuestType::BaseTier, info(2, 1));
    assert_eq!(q.commit(actor(SEEKER_A), &id, 10, CredentialReply::Missing), Ok(()));
    assert_eq!(q.close(actor(SEEKER_A), &id), Err(QuestError::NotProvider));
    assert_eq!(q.close(actor(PROVIDER), &id), Ok(()));
    assert_eq!(q.quest_status(&id), Some(QuestStatus::Closed));
    assert_eq!(
        q.commit(actor(SEEKER_B), &id, 10, CredentialReply::Missing),
        Err(QuestError::QuestClosed)
    );
    assert_eq!(q.close(actor(PROVIDER), &id), Err(QuestError::AlreadyClosed));
    assert_eq!(q.submit(actor(SEEKER_A), &id, String::from("a")), Ok(()));
    assert_eq!(
        q.grade(actor(PROVIDER), &id, actor(SEEKER_A), String::from("a"), Gradings::Accept),
        Ok(())
    );
    assert_eq!(q.quest_status(&id), Some(QuestStatus::Closed));
    let missing = String::from("404");
    assert_eq!(q.close(actor(PROVIDER), &missing), Err(QuestError::QuestNotFound));
}

#[test]
fn modify_succeeds_once() {
    let mut q = registry(0);
    let id = publish(&mut q, QuestType::BaseTier, info(2, 1));
    assert_eq!(q.modify(actor(SEEKER_A), &id, modifiable(2000)), Err(QuestError::NotProvider));
    assert_eq!(q.modify(actor(PROVIDER), &id, modifiable(2000)), Ok(()));
    {
        let base = q.get_quest(&id).unwrap().base();
        assert_eq!(base.quest_name, "Sorting II");
        assert_eq!(base.description, "Sort two lists");
        assert_eq!(base.deliverables, "Two links");
        assert_eq!(base.contact_info, "ta@uni");
        assert_eq!(base.deadline, 2000);
        assert_eq!(base.institution_name, "Uni");
        assert!(base.modified);
    }
    assert_eq!(q.modify(actor(PROVIDER), &id, modifiable(3000)), Err(QuestError::AlreadyModified));
    assert_eq!(q.get_quest(&id).unwrap().base().deadline, 2000);
}

#[test]
fn extend_succeeds_once() {
    let mut q = registry(0);
    let id = publish(&mut q, QuestType::BaseTier, info(2, 1));
    assert_eq!(q.extend(actor(PROVIDER), &id, 1000), Err(QuestError::InvalidDeadline));
    assert_eq!(q.extend(actor(SEEKER_A), &id, 1500), Err(QuestError::NotProvider));
    assert_eq!(q.extend(actor(PROVIDER), &id, 1500), Ok(()));
    assert_eq!(q.get_quest(&id).unwrap().base().deadline, 1500);
    assert_eq!(q.extend(actor(PROVIDER), &id, 9000), Err(QuestError::AlreadyExtended));
    assert_eq!(q.get_quest(&id).unwrap().base().deadline, 1500);
}

#[test]
fn mid_tier_commit_needs_credential_and_free_gradings() {
    let mut q = registry(0);
    let id = publish(&mut q, QuestType::MidTier, info(5, 1));
    assert_eq!(q.required_credential(actor(SEEKER_A), &id, 10), Some(SkillNFT::Python));
    assert_eq!(
        q.commit(actor(SEEKER_A), &id, 10, CredentialReply::Missing),
        Err(QuestError::MissingCredential)
    );
    assert_eq!(
        q.commit(actor(SEEKER_A), &id, 10, CredentialReply::Unavailable),
        Err(QuestError::CollaboratorUnavailable)
    );
    assert_eq!(q.seeker_status(&id, &actor(SEEKER_A)), None);
    assert_eq!(q.commit(actor(SEEKER_A), &id, 10, CredentialReply::Consumed), Ok(()));
    assert_eq!(q.get_quest(&id).unwrap().base().capacity, 4);
    assert_eq!(q.required_credential(actor(SEEKER_A), &id, 10), None);
    assert_eq!(q.required_credential(actor(SEEKER_B), &id, 10), None);
    assert_eq!(
        q.commit(actor(SEEKER_B), &id, 10, CredentialReply::Consumed),
        Err(QuestError::InsufficientFreeGradings)
    );
}

#[test]
fn non_mid_tier_needs_no_credential() {
    let mut q = registry(0);
    let id = publish(&mut q, QuestType::BaseTier, info(5, 1));
    assert_eq!(q.required_credential(actor(SEEKER_A), &id, 10), None);
}

#[test]
fn provider_approval_is_admin_only_and_not_repeated() {
    let mut q = registry(0);
    let newcomer = actor(30);
    assert!(!q.is_approved(&newcomer));
    assert!(q.is_owner(&actor(ADMIN)));
    assert!(!q.is_owner(&actor(PROVIDER)));
    assert_eq!(q.add_provider(actor(PROVIDER), newcomer), Err(QuestError::NotAdmin));
    assert_eq!(q.add_provider(actor(ADMIN), newcomer), Ok(()));
    assert!(q.is_approved(&newcomer));
    assert_eq!(q.add_provider(actor(ADMIN), newcomer), Err(QuestError::AlreadyApproved));
    assert!(q.publish(newcomer, QuestType::BaseTier, info(1, 1), 10).is_ok());
}

#[test]
fn handle_dispatches_requests() {
    let mut q = registry(0);
    let published = q.handle(
        actor(PROVIDER),
        10,
        CredentialReply::Missing,
        QuestAction::Publish { quest_type: QuestType::BaseTier, quest_info: info(1, 1) },
    );
    assert_eq!(published, QuestEvent::Published { quest_id: String::from("1") });
    let id = String::from("1");
    assert_eq!(
        q.handle(actor(SEEKER_A), 10, CredentialReply::Missing, QuestAction::Commit { quest_id: id.clone() }),
        QuestEvent::Committed
    );
    assert_eq!(
        q.handle(actor(SEEKER_B), 10, CredentialReply::Missing, QuestAction::Commit { quest_id: id.clone() }),
        QuestEvent::Rejected { reason: QuestError::QuestNotOpen }
    );
    assert_eq!(
        q.handle(
            actor(SEEKER_A),
            10,
            CredentialReply::Missing,
            QuestAction::Submit { quest_id: id.clone(), submission: String::from("s") }
        ),
        QuestEvent::Submitted
    );
    assert_eq!(
        q.handle(
            actor(PROVIDER),
            10,
            CredentialReply::Missing,
            QuestAction::Grade {
                quest_id: id.clone(),
                commiter: actor(SEEKER_A),
                submission: String::from("s"),
                grading: Gradings::Good
            }
        ),
        QuestEvent::Graded
    );
    assert_eq!(
        q.handle(
            actor(PROVIDER),
            10,
            CredentialReply::Missing,
            QuestAction::Modify { quest_id: id.clone(), base_info: modifiable(5000) }
        ),
        QuestEvent::Modified
    );
    assert_eq!(
        q.handle(
            actor(PROVIDER),
            10,
            CredentialReply::Missing,
            QuestAction::Extend { quest_id: id.clone(), new_deadline: 6000 }
        ),
        QuestEvent::Extended
    );
    assert_eq!(
        q.handle(actor(PROVIDER), 10, CredentialReply::Missing, QuestAction::Close { quest_id: id.clone() }),
        QuestEvent::Closed
    );
    assert_eq!(
        q.handle(actor(ADMIN), 10, CredentialReply::Missing, QuestAction::AddProvider { provider: actor(40) }),
        QuestEvent::ProviderAdded
    );
}

#[test]
fn actor_ids_compare_by_bytes() {
    assert_eq!(actor(5), actor(5));
    assert_ne!(actor(5), actor(6));
    let id = ActorId::from_u64(0x0102);
    assert_eq!(id.bytes[12], 2);
    assert_eq!(id.bytes[13], 1);
    assert_eq!(id.bytes[14], 0);
    assert_eq!(id.bytes[0], 0);
    assert_eq!(ActorId::new([7u8; 32]).bytes[31], 7);
}

#[test]
fn notices_follow_the_request() {
    let id = String::from("7");
    assert_eq!(
        status_notice(actor(SEEKER_A), &QuestAction::Commit { quest_id: id.clone() }),
        Some((actor(SEEKER_A), id.clone(), Status::Seeker(AccountStatus::Claimed)))
    );
    assert_eq!(
        status_notice(
            actor(SEEKER_A),
            &QuestAction::Submit { quest_id: id.clone(), submission: String::from("s") }
        ),
        Some((actor(SEEKER_A), id.clone(), Status::Seeker(AccountStatus::Submitted)))
    );
    assert_eq!(
        status_notice(
            actor(PROVIDER),
            &QuestAction::Grade {
                quest_id: id.clone(),
                commiter: actor(SEEKER_B),
                submission: String::from("s"),
                grading: Gradings::Reject
            }
        ),
        Some((actor(SEEKER_B), id.clone(), Status::Seeker(AccountStatus::NeedsImprovements)))
    );
    assert_eq!(status_notice(actor(PROVIDER), &QuestAction::Close { quest_id: id }), None);
}

#[test]
fn state_queries_list_quests() {
    let mut q = registry(0);
    assert_eq!(q.admin(), actor(ADMIN));
    let base = publish(&mut q, QuestType::BaseTier, info(1, 1));
    let mid = publish(&mut q, QuestType::MidTier, info(1, 1));
    assert_eq!(q.quest_ids(), vec![base.clone(), mid.clone()]);
    assert!(get_quest_by_id(&q, &base).is_none());
    let found = get_quest_by_id(&q, &mid).expect("mid-tier quest");
    assert_eq!(found.free_gradings, 1);
    assert_eq!(found.hiring_for, "Internship");
    assert_eq!(found.skill_tags, SkillNFT::Python);
    assert!(get_quest_by_id(&q, &String::from("99")).is_none());
    assert_eq!(q.quest_status(&String::from("99")), None);
    q.commit(actor(SEEKER_A), &base, 10, CredentialReply::Missing).unwrap();
    assert_eq!(q.get_quest(&base).unwrap().base().submissions.len(), 1);
    assert_eq!(q.get_quest(&mid).unwrap().base().submissions.len(), 0);
}
