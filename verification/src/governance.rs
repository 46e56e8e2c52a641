//! Governance: staking positions, rewards, proposals and the actions on them.
pub mod action;
pub mod action_form;
pub mod ascending;
pub mod authorization;
pub mod claim_form;
pub mod draft;
pub mod draft_flow;
pub mod flow;
pub mod intervals;
pub mod labels;
pub mod model;
pub mod participants;
pub mod participation;
pub mod refresh;
pub mod review;
pub mod reward_plan;
pub mod reward_selection;
pub mod rewards;
pub mod staking;
pub mod state;
pub mod table;
pub mod view;
