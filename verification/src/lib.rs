//! Verified core of the game backend's HTTP entry point: request validation,
//! session bookkeeping, prize-wheel selection, mission progress rules,
//! battlepass claims, payment state resolution and per-user metadata rules.
//!
//! Every function here works on plain values; the HTTP, database and cache
//! plumbing that feeds them lives outside this crate.

pub mod admin;
pub mod auth;
pub mod battlepass;
pub mod catalog;
pub mod clock;
pub mod ids;
pub mod json;
pub mod metadata;
pub mod missions;
pub mod names;
pub mod payments;
pub mod status;
pub mod text;
pub mod wheel;
