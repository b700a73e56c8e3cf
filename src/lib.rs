//! A quest marketplace. Its core is the quest registry: providers publish
//! tiered quests, seekers commit, submit and get graded, and the registry
//! keeps each quest's Open / Full / Closed status coupled to its remaining
//! capacity (`quests`, with its model in `model` and its laws in `laws`).
//! Around it stand the other actors' rules: the reputation ledger of skill
//! tokens and badges (`reputation`), the account registry (`accounts`) and
//! the router between actors (`orchestrator`).

pub mod actor;
pub mod actor_map;
pub mod quest_types;
pub mod base;
pub mod tiers;
pub mod quest_id;
pub mod quest;
pub mod model;
pub mod quests;
pub mod laws;
pub mod reputation_types;
pub mod ledger_tables;
pub mod reputation;
pub mod orchestrator;
pub mod account_types;
pub mod account_tables;
pub mod accounts;
pub mod notices;
pub mod ledger_state;
