//! Multi-account switcher: the ledger of managed accounts, the rules that move
//! credentials between live storage and per-account backups, and the decisions
//! of the interactive front-end, all stated as contracts and proved.

pub mod clock;
pub mod engine;
pub mod front;
pub mod json;
pub mod laws;
pub mod layout;
pub mod ledger;
pub mod persist;
pub mod platform;
pub mod store;
pub mod text;
