use vstd::prelude::*;
use crate::actor::ActorId;
use crate::model::{EventView, QuestAction, QuestsView};
use crate::quest_id::{decimal, lemma_decimal_injective};
use crate::quest_types::{
    CredentialReply, Gradings, IncomingQuest, Modifiable, QuestError, QuestStatus, QuestType,
    SeekerStatus, Submission,
};

verus! {

/// Quest ids are never issued twice: no request removes a quest, and a
/// publish succeeds only with an id that no quest held before.
pub proof fn lemma_unique_quest_ids(
    s: QuestsView,
    caller: ActorId,
    height: u64,
    credential: CredentialReply,
    action: QuestAction,
)
    ensures
        forall|id: Seq<char>| #[trigger]
            s.quests.contains_key(id) ==> s.step(caller, height, credential, action).0.quests.contains_key(id),
        s.step(caller, height, credential, action).1 matches EventView::Published(id) ==> !s.quests.contains_key(id)
            && s.step(caller, height, credential, action).0.quests.contains_key(id),
{
}

/// How far `seeker` has come on quest `id`: 0 before committing, then 1
/// (Waiting), 2 (Submitted), 3 (Graded).
pub open spec fn progress(s: QuestsView, id: Seq<char>, seeker: ActorId) -> int {
    if !s.quests.contains_key(id) || !s.quests[id].quest.base.submissions.contains_key(seeker) {
        0
    } else {
        match s.quests[id].quest.base.submissions[seeker] {
            SeekerStatus::Waiting => 1,
            SeekerStatus::Submitted(_) => 2,
            SeekerStatus::Graded(_) => 3,
        }
    }
}

/// A seeker only moves forward through Waiting, Submitted and Graded, one
/// stage per request at most: no request skips a stage or goes back.
pub proof fn lemma_seeker_moves_forward(
    s: QuestsView,
    caller: ActorId,
    height: u64,
    credential: CredentialReply,
    action: QuestAction,
    id: Seq<char>,
    seeker: ActorId,
)
    ensures
        progress(s.step(caller, height, credential, action).0, id, seeker) == progress(s, id, seeker)
            || progress(s.step(caller, height, credential, action).0, id, seeker) == progress(s, id, seeker) + 1,
{
}

/// A commit by a seeker who has already committed to an open quest is
/// refused as AlreadyCommitted and changes nothing.
pub proof fn lemma_recommit_rejected(
    s: QuestsView,
    seeker: ActorId,
    id: Seq<char>,
    height: u64,
    credential: CredentialReply,
)
    requires
        s.quests.contains_key(id),
        s.quests[id].status == QuestStatus::Open,
        s.quests[id].quest.base.submissions.contains_key(seeker),
    ensures
        s.commit(seeker, id, height, credential) == (s, Err::<(), QuestError>(QuestError::AlreadyCommitted)),
{
}

/// Right after a successful commit, a second one by the same seeker is
/// refused as AlreadyCommitted and leaves the seeker's entry as it was,
/// as long as the quest is still open.
pub proof fn lemma_second_commit_rejected(
    s: QuestsView,
    seeker: ActorId,
    id: Seq<char>,
    height: u64,
    credential: CredentialReply,
    height2: u64,
    credential2: CredentialReply,
)
    requires
        s.commit(seeker, id, height, credential).1 is Ok,
        s.commit(seeker, id, height, credential).0.quests[id].status == QuestStatus::Open,
    ensures
        ({
            let s1 = s.commit(seeker, id, height, credential).0;
            &&& s1.quests[id].quest.base.submissions[seeker] == SeekerStatus::Waiting
            &&& s1.commit(seeker, id, height2, credential2) == (s1, Err::<(), QuestError>(QuestError::AlreadyCommitted))
        }),
{
}

/// Every request keeps the registry's invariant: outside Closed, a quest is
/// Full exactly when it is bounded and has no free slot left.
pub proof fn lemma_step_keeps_capacity_coupling(
    s: QuestsView,
    caller: ActorId,
    height: u64,
    credential: CredentialReply,
    action: QuestAction,
)
    requires
        s.inv(),
    ensures
        s.step(caller, height, credential, action).0.inv(),
{
    match action {
        QuestAction::Publish { quest_type, quest_info } => {
            lemma_publish_keeps_coupling(s, caller, quest_type, quest_info, height);
        },
        QuestAction::Commit { quest_id } => {
            lemma_commit_keeps_coupling(s, caller, quest_id@, height, credential);
        },
        QuestAction::Submit { quest_id, submission } => {
            lemma_submit_keeps_coupling(s, caller, quest_id@, submission);
        },
        QuestAction::Grade { quest_id, commiter, submission, grading } => {
            lemma_grade_keeps_coupling(s, caller, quest_id@, commiter, submission@, grading);
        },
        QuestAction::Modify { quest_id, base_info } => {
            lemma_modify_keeps_coupling(s, caller, quest_id@, base_info);
        },
        QuestAction::Extend { quest_id, new_deadline } => {
            lemma_extend_keeps_coupling(s, caller, quest_id@, new_deadline);
        },
        QuestAction::Close { quest_id } => {
            lemma_close_keeps_coupling(s, caller, quest_id@);
        },
        QuestAction::AddProvider { provider } => {
            lemma_same_ids(s, s.add_provider(caller, provider).0);
            assert(s.add_provider(caller, provider).0.quests == s.quests);
        },
    }
}

pub(crate) proof fn lemma_publish_keeps_coupling(
    s: QuestsView,
    caller: ActorId,
    quest_type: QuestType,
    info: IncomingQuest,
    height: u64,
)
    requires
        s.inv(),
    ensures
        s.publish(caller, quest_type, info, height).0.inv(),
{
    let s2 = s.publish(caller, quest_type, info, height).0;
    assert forall|k: Seq<char>| #[trigger] s2.quests.contains_key(k) implies {
        let r = s2.quests[k];
        &&& r.quest.base.capacity <= r.quest.base.max_capacity
        &&& r.status != QuestStatus::Closed ==> (r.status == QuestStatus::Full <==> (
        r.quest.base.bounded() && r.quest.base.capacity == 0))
    } by {
        if s.quests.contains_key(k) {
            assert(s.quests.contains_key(k));
        }
    }
    assert forall|id: Seq<char>| #[trigger] s2.quests.contains_key(id) implies exists|k: nat|
        k < s2.next_id && #[trigger] decimal(k) == id by {
        if s.quests.contains_key(id) {
            let k = choose|k: nat| k < s.next_id && #[trigger] decimal(k) == id;
            assert(decimal(k) == id);
        } else {
            assert(decimal(s.next_id as nat) == id);
        }
    }
}

pub(crate) proof fn lemma_submit_keeps_coupling(s: QuestsView, caller: ActorId, id: Seq<char>, submission: Submission)
    requires
        s.inv(),
    ensures
        s.submit(caller, id, submission).0.inv(),
{
    let s2 = s.submit(caller, id, submission).0;
    lemma_same_ids(s, s2);
    assert forall|k: Seq<char>| #[trigger] s2.quests.contains_key(k) implies {
        let r = s2.quests[k];
        &&& r.quest.base.capacity <= r.quest.base.max_capacity
        &&& r.status != QuestStatus::Closed ==> (r.status == QuestStatus::Full <==> (
        r.quest.base.bounded() && r.quest.base.capacity == 0))
    } by {
        if s.quests.contains_key(k) {
            assert(s.quests.contains_key(k));
        }
    }
}

pub(crate) proof fn lemma_grade_keeps_coupling(s: QuestsView, caller: ActorId, id: Seq<char>, commiter: ActorId, submission: Seq<char>, grading: Gradings)
    requires
        s.inv(),
    ensures
        s.grade(caller, id, commiter, submission, grading).0.inv(),
{
    let s2 = s.grade(caller, id, commiter, submission, grading).0;
    lemma_same_ids(s, s2);
    assert forall|k: Seq<char>| #[trigger] s2.quests.contains_key(k) implies {
        let r = s2.quests[k];
        &&& r.quest.base.capacity <= r.quest.base.max_capacity
        &&& r.status != QuestStatus::Closed ==> (r.status == QuestStatus::Full <==> (
        r.quest.base.bounded() && r.quest.base.capacity == 0))
    } by {
        if s.quests.contains_key(k) {
            assert(s.quests.contains_key(k));
        }
    }
}

pub(crate) proof fn lemma_modify_keeps_coupling(s: QuestsView, caller: ActorId, id: Seq<char>, fields: Modifiable)
    requires
        s.inv(),
    ensures
        s.modify(caller, id, fields).0.inv(),
{
    let s2 = s.modify(caller, id, fields).0;
    lemma_same_ids(s, s2);
    assert forall|k: Seq<char>| #[trigger] s2.quests.contains_key(k) implies {
        let r = s2.quests[k];
        &&& r.quest.base.capacity <= r.quest.base.max_capacity
        &&& r.status != QuestStatus::Closed ==> (r.status == QuestStatus::Full <==> (
        r.quest.base.bounded() && r.quest.base.capacity == 0))
    } by {
        if s.quests.contains_key(k) {
            assert(s.quests.contains_key(k));
        }
    }
}

pub(crate) proof fn lemma_extend_keeps_coupling(s: QuestsView, caller: ActorId, id: Seq<char>, new_deadline: u64)
    requires
        s.inv(),
    ensures
        s.extend(caller, id, new_deadline).0.inv(),
{
    let s2 = s.extend(caller, id, new_deadline).0;
    lemma_same_ids(s, s2);
    assert forall|k: Seq<char>| #[trigger] s2.quests.contains_key(k) implies {
        let r = s2.quests[k];
        &&& r.quest.base.capacity <= r.quest.base.max_capacity
        &&& r.status != QuestStatus::Closed ==> (r.status == QuestStatus::Full <==> (
        r.quest.base.bounded() && r.quest.base.capacity == 0))
    } by {
        if s.quests.contains_key(k) {
            assert(s.quests.contains_key(k));
        }
    }
}

pub(crate) proof fn lemma_close_keeps_coupling(s: QuestsView, caller: ActorId, id: Seq<char>)
    requires
        s.inv(),
    ensures
        s.close(caller, id).0.inv(),
{
    let s2 = s.close(caller, id).0;
    lemma_same_ids(s, s2);
    assert forall|k: Seq<char>| #[trigger] s2.quests.contains_key(k) implies {
        let r = s2.quests[k];
        &&& r.quest.base.capacity <= r.quest.base.max_capacity
        &&& r.status != QuestStatus::Closed ==> (r.status == QuestStatus::Full <==> (
        r.quest.base.bounded() && r.quest.base.capacity == 0))
    } by {
        if s.quests.contains_key(k) {
            assert(s.quests.contains_key(k));
        }
    }
}

pub(crate) proof fn lemma_commit_keeps_coupling(
    s: QuestsView,
    seeker: ActorId,
    id: Seq<char>,
    height: u64,
    credential: CredentialReply,
)
    requires
        s.inv(),
    ensures
        s.commit(seeker, id, height, credential).0.inv(),
{
    let s2 = s.commit(seeker, id, height, credential).0;
    lemma_same_ids(s, s2);
    assert forall|k: Seq<char>| #[trigger] s2.quests.contains_key(k) implies {
        let r = s2.quests[k];
        &&& r.quest.base.capacity <= r.quest.base.max_capacity
        &&& r.status != QuestStatus::Closed ==> (r.status == QuestStatus::Full <==> (
        r.quest.base.bounded() && r.quest.base.capacity == 0))
    } by {
        if s.quests.contains_key(k) {
            assert(s.quests.contains_key(k));
        }
    }
}

/// A request that keeps the id counter and adds no quest keeps every id
/// accounted for.
proof fn lemma_same_ids(s: QuestsView, s2: QuestsView)
    requires
        s.ids_issued(),
        s2.next_id == s.next_id,
        forall|id: Seq<char>| s2.quests.contains_key(id) ==> #[trigger] s.quests.contains_key(id),
    ensures
        s2.ids_issued(),
{
    assert forall|id: Seq<char>| #[trigger] s2.quests.contains_key(id) implies exists|k: nat|
        k < s2.next_id && #[trigger] decimal(k) == id by {
        assert(s.quests.contains_key(id));
    }
}

/// A publish by an approved provider that passes its tier's checks always
/// gets a fresh id, as long as the id counter has not run out: the id clash
/// the registry guards against never happens.
pub proof fn lemma_publish_succeeds(
    s: QuestsView,
    caller: ActorId,
    quest_type: QuestType,
    info: IncomingQuest,
    height: u64,
)
    requires
        s.inv(),
        s.approved_providers.contains(caller),
        (quest_type == QuestType::BaseTier || quest_type == QuestType::MidTier) ==> info.free_gradings
            >= s.minimum_free_gradings,
        quest_type == QuestType::TopTier ==> info.application_deadline as u64 > height,
        s.next_id < u64::MAX,
    ensures
        s.publish(caller, quest_type, info, height).1 == Ok::<Seq<char>, QuestError>(decimal(s.next_id as nat)),
{
    let id = decimal(s.next_id as nat);
    if s.quests.contains_key(id) {
        let k = choose|k: nat| k < s.next_id && #[trigger] decimal(k) == id;
        lemma_decimal_injective(k, s.next_id as nat);
    }
}

/// A successful commit to a bounded quest takes one free slot, and leaves
/// the quest Full exactly when no slot is left.
pub proof fn lemma_commit_takes_slot(
    s: QuestsView,
    seeker: ActorId,
    id: Seq<char>,
    height: u64,
    credential: CredentialReply,
)
    requires
        s.inv(),
        s.commit(seeker, id, height, credential).1 is Ok,
        s.quests[id].quest.base.bounded(),
    ensures
        ({
            let r = s.commit(seeker, id, height, credential).0.quests[id];
            &&& r.quest.base.capacity == s.quests[id].quest.base.capacity - 1
            &&& (r.status == QuestStatus::Full <==> r.quest.base.capacity == 0)
        }),
{
    assert(s.quests.contains_key(id));
}

/// Grading a commit of a Full quest gives its slot back and reopens it.
pub proof fn lemma_grade_reopens(
    s: QuestsView,
    grader: ActorId,
    id: Seq<char>,
    commiter: ActorId,
    submission: Seq<char>,
    grading: Gradings,
)
    requires
        s.inv(),
        s.quests.contains_key(id),
        s.quests[id].status == QuestStatus::Full,
        s.grade(grader, id, commiter, submission, grading).1 is Ok,
    ensures
        s.grade(grader, id, commiter, submission, grading).0.quests[id].status == QuestStatus::Open,
        s.grade(grader, id, commiter, submission, grading).0.quests[id].quest.base.capacity == 1,
{
    assert(s.quests.contains_key(id));
}

/// The registry after `seekers` commit to quest `id` one after another,
/// and whether every one of those commits succeeded.
pub open spec fn commit_all(
    s: QuestsView,
    id: Seq<char>,
    seekers: Seq<ActorId>,
    height: u64,
    credential: CredentialReply,
) -> (QuestsView, bool)
    decreases seekers.len(),
{
    if seekers.len() == 0 {
        (s, true)
    } else {
        let before = commit_all(s, id, seekers.drop_last(), height, credential);
        let after = before.0.commit(seekers.last(), id, height, credential);
        (after.0, before.1 && after.1 is Ok)
    }
}

/// A bounded quest with N free slots is Full after N successful commits.
pub proof fn lemma_full_after_capacity_commits(
    s: QuestsView,
    id: Seq<char>,
    seekers: Seq<ActorId>,
    height: u64,
    credential: CredentialReply,
)
    requires
        s.inv(),
        s.quests.contains_key(id),
        s.quests[id].quest.base.bounded(),
        s.quests[id].quest.base.capacity == seekers.len(),
        seekers.len() > 0,
        commit_all(s, id, seekers, height, credential).1,
    ensures
        commit_all(s, id, seekers, height, credential).0.quests[id].status == QuestStatus::Full,
{
    lemma_commit_all_counts(s, id, seekers, height, credential);
}

proof fn lemma_commit_all_counts(
    s: QuestsView,
    id: Seq<char>,
    seekers: Seq<ActorId>,
    height: u64,
    credential: CredentialReply,
)
    requires
        s.inv(),
        s.quests.contains_key(id),
        s.quests[id].quest.base.bounded(),
        commit_all(s, id, seekers, height, credential).1,
    ensures
        ({
            let t = commit_all(s, id, seekers, height, credential).0;
            &&& t.inv()
            &&& t.quests.contains_key(id)
            &&& t.quests[id].quest.base.max_capacity == s.quests[id].quest.base.max_capacity
            &&& t.quests[id].quest.base.capacity == s.quests[id].quest.base.capacity - seekers.len()
            &&& seekers.len() > 0 ==> (t.quests[id].status == QuestStatus::Full <==> t.quests[id].quest.base.capacity == 0)
        }),
    decreases seekers.len(),
{
    if seekers.len() > 0 {
        let before = commit_all(s, id, seekers.drop_last(), height, credential);
        lemma_commit_all_counts(s, id, seekers.drop_last(), height, credential);
        lemma_commit_takes_slot(before.0, seekers.last(), id, height, credential);
        lemma_commit_keeps_coupling(before.0, seekers.last(), id, height, credential);
    }
}

/// A closed quest stays closed whatever is asked of it; it refuses every
/// commit as QuestClosed and every further close as AlreadyClosed.
pub proof fn lemma_closed_is_final(
    s: QuestsView,
    caller: ActorId,
    height: u64,
    credential: CredentialReply,
    action: QuestAction,
    id: Seq<char>,
)
    requires
        s.quests.contains_key(id),
        s.quests[id].status == QuestStatus::Closed,
    ensures
        s.step(caller, height, credential, action).0.quests[id].status == QuestStatus::Closed,
        s.commit(caller, id, height, credential) == (s, Err::<(), QuestError>(QuestError::QuestClosed)),
        s.close(caller, id) == (s, Err::<(), QuestError>(QuestError::AlreadyClosed)),
{
}

/// A successful close leaves the quest Closed.
pub proof fn lemma_close_closes(s: QuestsView, caller: ActorId, id: Seq<char>)
    requires
        s.close(caller, id).1 is Ok,
    ensures
        s.close(caller, id).0.quests[id].status == QuestStatus::Closed,
{
}

/// Modify and Extend succeed at most once per quest: a success spends the
/// quest's flag, no request gives it back, and while it is spent every
/// further attempt fails, whatever its arguments.
pub proof fn lemma_one_shot_guards(
    s: QuestsView,
    caller: ActorId,
    height: u64,
    credential: CredentialReply,
    action: QuestAction,
    id: Seq<char>,
    fields: Modifiable,
    new_deadline: u64,
)
    requires
        s.quests.contains_key(id),
    ensures
        s.modify(caller, id, fields).1 is Ok ==> s.modify(caller, id, fields).0.quests[id].quest.base.modified,
        s.extend(caller, id, new_deadline).1 is Ok ==> s.extend(caller, id, new_deadline).0.quests[id].quest.base.extended,
        s.quests[id].quest.base.modified ==> s.step(caller, height, credential, action).0.quests[id].quest.base.modified,
        s.quests[id].quest.base.extended ==> s.step(caller, height, credential, action).0.quests[id].quest.base.extended,
        s.quests[id].quest.base.modified ==> s.modify(caller, id, fields).1 is Err,
        s.quests[id].quest.base.extended ==> s.extend(caller, id, new_deadline).1 is Err,
{
}

/// A refused request leaves the registry as it was; the one exception is a
/// publish refused for an id clash, which moves the id counter on so that
/// the next publish tries a fresh id.
pub proof fn lemma_refusal_changes_nothing(
    s: QuestsView,
    caller: ActorId,
    height: u64,
    credential: CredentialReply,
    action: QuestAction,
)
    ensures
        s.step(caller, height, credential, action).1 matches EventView::Rejected(e) ==> (e
            == QuestError::DuplicateQuestId || s.step(caller, height, credential, action).0 == s),
{
}

} // verus!
