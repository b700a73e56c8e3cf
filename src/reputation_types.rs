use vstd::prelude::*;
use crate::actor::ActorId;

verus! {

/// Identifier of a skill token or badge.
pub type TokenId = u128;

/// A fungible skill token.
#[derive(Debug, PartialEq, Eq)]
pub struct SkillFtData {
    pub name: Option<String>,
    pub symbol: Option<String>,
    /// Total circulation.
    pub circulation: Option<u128>,
}

/// What a skill badge records of the quest that earned it.
#[derive(Debug, PartialEq, Eq)]
pub struct Quest {
    pub id: Option<String>,
    pub publisher: Option<ActorId>,
    pub title: Option<String>,
    pub description: Option<String>,
    pub reward: Option<TokenId>,
    /// Storage id of the submission that earned the badge.
    pub submission: Option<String>,
}

/// A non-fungible skill badge.
#[derive(Debug, PartialEq, Eq)]
pub struct SkillNftMetadata {
    pub owner: Option<ActorId>,
    /// The badge's name; it must be one of the available skill names.
    pub title: Option<String>,
    pub description: Option<String>,
    pub quest_details: Option<Quest>,
    /// Freshness as a block height.
    pub freshness: Option<u32>,
}

/// A successful ledger operation.
#[derive(Debug, PartialEq, Eq)]
pub enum MTKEvent {
    SkillTokenMinted { id: TokenId, amount: u128, to: ActorId },
    SkillTokenBurned { from: ActorId, id: TokenId, amount: u128 },
    SkillNftMinted { id: TokenId, to: ActorId },
    RepuVerified { initiator: ActorId, target: ActorId },
    RepuVerificationFail { initiator: ActorId, target: ActorId },
    NewFtAdded { id: TokenId },
    SkillFtChanged { id: TokenId },
    SkillNftAdded { name: String },
    SkillNftRemoved { name: String },
    MtkUriChanged { new_uri: String },
}

/// Why a ledger operation was refused; a refusal changes nothing.
#[derive(Clone, Copy, Debug, PartialEq, Eq, Structural)]
pub enum MTKError {
    TokenDoesNotExists,
    TokenAlreadyExists,
    OnlyCreaterCanOperate,
    InsufficientBalance,
    OwnerDoesNotExists,
    SkillNameDoesNotExists,
    NotImplemented,
    /// A mint would take a balance past `u128::MAX`.
    BalanceOverflow,
}

} // verus!
