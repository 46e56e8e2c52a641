//! The gateway through which a paired browser extension uses the wallet.
pub mod draft_options;
pub mod drafts;
pub mod handoff;
pub mod install;
pub mod listener;
pub mod pairing;
pub mod private_draft;
pub mod self_broadcast;
pub mod unlock;
pub mod views;
