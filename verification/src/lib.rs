//! Verified core of a small chat server: credential rules, session tokens,
//! message storage helpers and the routing decisions of the online hub.

pub mod text;
pub mod protocol;
pub mod db;
pub mod hub;
pub mod auth;
