//! Read-only access to Star Citizen account data: the decisions, decoders and
//! record types behind the launcher-store reader, the token-mint flow and the
//! game-services queries, each stated as a contract and proved.

pub mod auth;
pub mod blueprints;
pub mod client;
pub mod entitlements;
pub mod error;
pub mod identity;
pub mod items;
pub mod json;
pub mod pagination;
pub mod store;
pub mod text;
