//! Tiered access to paywalled articles: per-tier content variants, session
//! resolution, entitlement hashing, the user store and purchase reconciliation.

pub mod access;
pub mod digest;
pub mod text;
pub mod variants;
pub mod codec;
pub mod price;
pub mod article;
pub mod paywall;
pub mod password;
pub mod store;
pub mod session;
pub mod purchase;
pub mod envvars;
pub mod mail;
pub mod utils;
pub mod reference;
pub mod htmlscan;
