use quest_harbor::actor::ActorId;
use quest_harbor::ledger_state::get_skill_ft_by_id;
use quest_harbor::reputation::{AvailableSkillNames, MTKAction, Mtk};
use quest_harbor::reputation_types::{MTKError, MTKEvent, SkillFtData, SkillNftMetadata};

fn actor(n: u64) -> ActorId {
    ActorId::from_u64(n)
}

fn ledger() -> Mtk {
    Mtk::new(actor(1), String::from("Skills"), String::from("SKL"), String::from("ipfs://base"))
}

fn ft(name: &str) -> SkillFtData {
    SkillFtData { name: Some(String::from(name)), symbol: Some(String::from("PY")), circulation: None }
}

fn badge(title: Option<&str>) -> SkillNftMetadata {
    SkillNftMetadata {
        owner: None,
        title: title.map(String::from),
        description: None,
        quest_details: None,
        freshness: Some(7),
    }
}

#[test]
fn skill_names_add_check_remove() {
    let mut names = AvailableSkillNames::new();
    let py = String::from("Python");
    let sim = String::from("Simulation");
    assert!(!names.check_name(&py));
    names.add_name(py.clone());
    names.add_name(sim.clone());
    names.add_name(py.clone());
    assert!(names.check_name(&py));
    assert!(names.remove_name(&py));
    assert!(!names.check_name(&py));
    assert!(names.check_name(&sim));
    assert!(!names.remove_name(&py));
}

#[test]
fn add_ft_is_creator_only() {
    let mut m = ledger();
    assert_eq!(m.add_ft(actor(2), 100, ft("Python")), Err(MTKError::OnlyCreaterCanOperate));
    assert_eq!(m.add_ft(actor(1), 100, ft("Python")), Ok(MTKEvent::NewFtAdded { id: 100 }));
    assert_eq!(m.add_ft(actor(1), 100, ft("Rust")), Err(MTKError::TokenAlreadyExists));
    assert_eq!(m.change_ft(actor(1), 100, ft("Py3")), Ok(MTKEvent::SkillFtChanged { id: 100 }));
    assert_eq!(m.change_ft(actor(1), 101, ft("Py3")), Err(MTKError::TokenDoesNotExists));
    assert_eq!(m.change_ft(actor(3), 100, ft("Py3")), Err(MTKError::OnlyCreaterCanOperate));
}

#[test]
fn mint_and_burn_fungible_tokens() {
    let mut m = ledger();
    let seeker = actor(5);
    assert_eq!(m.mint_ft_to(100, 10, seeker), Err(MTKError::TokenDoesNotExists));
    m.add_ft(actor(1), 100, ft("Python")).unwrap();
    assert_eq!(
        m.mint_ft_to(100, 10, seeker),
        Ok(MTKEvent::SkillTokenMinted { id: 100, amount: 10, to: seeker })
    );
    assert_eq!(
        m.mint_ft_to(100, 5, seeker),
        Ok(MTKEvent::SkillTokenMinted { id: 100, amount: 5, to: seeker })
    );
    assert_eq!(m.burn(100, seeker, 16), Err(MTKError::InsufficientBalance));
    assert_eq!(
        m.burn(100, seeker, 15),
        Ok(MTKEvent::SkillTokenBurned { from: seeker, id: 100, amount: 15 })
    );
    assert_eq!(m.burn(100, seeker, 1), Err(MTKError::InsufficientBalance));
    assert_eq!(m.burn(100, actor(6), 1), Err(MTKError::OwnerDoesNotExists));
    assert_eq!(m.burn(200, seeker, 1), Err(MTKError::TokenDoesNotExists));
    assert_eq!(m.mint_ft_to(100, u128::MAX, seeker), Ok(MTKEvent::SkillTokenMinted { id: 100, amount: u128::MAX, to: seeker }));
    assert_eq!(m.mint_ft_to(100, 1, seeker), Err(MTKError::BalanceOverflow));
}

#[test]
fn mint_badges_and_verify_reputation() {
    let mut m = ledger();
    let seeker = actor(5);
    let verifier = actor(9);
    assert_eq!(m.mint_nft_to(seeker, badge(Some("Python")), 7), Err(MTKError::SkillNameDoesNotExists));
    assert_eq!(m.add_nft(actor(2), String::from("Python")), Err(MTKError::OnlyCreaterCanOperate));
    assert_eq!(
        m.add_nft(actor(1), String::from("Python")),
        Ok(MTKEvent::SkillNftAdded { name: String::from("Python") })
    );
    assert_eq!(m.mint_nft_to(seeker, badge(None), 7), Err(MTKError::SkillNameDoesNotExists));
    assert_eq!(
        m.mint_nft_to(seeker, badge(Some("Python")), 7),
        Ok(MTKEvent::SkillNftMinted { id: 7, to: seeker })
    );
    assert_eq!(m.mint_nft_to(seeker, badge(Some("Python")), 7), Err(MTKError::TokenAlreadyExists));
    assert_eq!(
        m.verify_repu(verifier, seeker, true, 7),
        MTKEvent::RepuVerified { initiator: verifier, target: seeker }
    );
    assert_eq!(
        m.verify_repu(verifier, seeker, true, 8),
        MTKEvent::RepuVerificationFail { initiator: verifier, target: seeker }
    );
    assert_eq!(
        m.verify_repu(verifier, seeker, false, 7),
        MTKEvent::RepuVerificationFail { initiator: verifier, target: seeker }
    );
    m.add_ft(actor(1), 100, ft("Python")).unwrap();
    m.mint_ft_to(100, 3, seeker).unwrap();
    assert_eq!(
        m.verify_repu(verifier, seeker, false, 100),
        MTKEvent::RepuVerified { initiator: verifier, target: seeker }
    );
    assert_eq!(
        m.remove_nft(actor(1), String::from("Python")),
        Ok(MTKEvent::SkillNftRemoved { name: String::from("Python") })
    );
    assert_eq!(m.remove_nft(actor(1), String::from("Python")), Err(MTKError::SkillNameDoesNotExists));
    assert_eq!(m.mint_nft_to(seeker, badge(Some("Python")), 8), Err(MTKError::SkillNameDoesNotExists));
}

#[test]
fn base_uri_changes_by_creator_only() {
    let mut m = ledger();
    assert_eq!(
        m.change_base_uri(actor(2), String::from("ipfs://other")),
        Err(MTKError::OnlyCreaterCanOperate)
    );
    assert_eq!(
        m.change_base_uri(actor(1), String::from("ipfs://new")),
        Ok(MTKEvent::MtkUriChanged { new_uri: String::from("ipfs://new") })
    );
    assert_eq!(m.tokens.base_uri, "ipfs://new");
}

#[test]
fn ledger_handle_dispatches() {
    let mut m = ledger();
    assert_eq!(
        m.handle(actor(1), 42, MTKAction::AddFt { token_data: ft("Python") }),
        Ok(MTKEvent::NewFtAdded { id: 42 })
    );
    assert_eq!(
        m.handle(actor(1), 43, MTKAction::MintFtTo { id: 42, amount: 2, to: actor(5) }),
        Ok(MTKEvent::SkillTokenMinted { id: 42, amount: 2, to: actor(5) })
    );
    assert_eq!(
        m.handle(actor(5), 44, MTKAction::Burn { id: 42, from: actor(5), amount: 2 }),
        Ok(MTKEvent::SkillTokenBurned { from: actor(5), id: 42, amount: 2 })
    );
    assert_eq!(
        m.handle(actor(9), 45, MTKAction::VerifyReputation { target: actor(5), skill_type: false, token_id: 42 }),
        Ok(MTKEvent::RepuVerified { initiator: actor(9), target: actor(5) })
    );
}

#[test]
fn state_lists_ledger_and_answers_balance_query() {
    let mut m = ledger();
    let seeker = actor(5);
    m.add_ft(actor(1), 100, ft("Python")).unwrap();
    m.add_ft(actor(1), 200, SkillFtData { name: None, symbol: None, circulation: None }).unwrap();
    m.add_ft(actor(1), 300, ft("Simulation")).unwrap();
    m.mint_ft_to(100, 4, seeker).unwrap();
    m.mint_ft_to(200, 6, seeker).unwrap();
    m.mint_ft_to(300, 9, actor(6)).unwrap();
    m.add_nft(actor(1), String::from("Python")).unwrap();
    m.mint_nft_to(seeker, badge(Some("Python")), 7).unwrap();
    let state = m.into_state();
    assert_eq!(state.name, "Skills");
    assert_eq!(state.base_uri, "ipfs://base");
    assert_eq!(state.creator, actor(1));
    assert_eq!(state.balances.len(), 3);
    assert_eq!(state.skill_fungible_tokens.len(), 3);
    assert_eq!(state.skill_nft_metadata.len(), 1);
    assert_eq!(state.nft_owners, vec![(seeker, vec![7])]);
    assert_eq!(state.ft_owners.len(), 2);
    assert_eq!(get_skill_ft_by_id(&state, seeker), vec![(String::from("Python"), 4)]);
    assert_eq!(get_skill_ft_by_id(&state, actor(6)), vec![(String::from("Simulation"), 9)]);
    assert_eq!(get_skill_ft_by_id(&state, actor(8)), vec![]);
}
